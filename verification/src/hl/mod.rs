//! High-level decoding of the FIFO data stream.
//!
//! The sensor's FIFO, in header mode, is a sequence of frames. Each frame
//! starts with a header byte. Its two top bits give the frame's mode: `0b10` a
//! regular frame, whose bits 4, 3 and 2 say whether auxiliary, gyroscope and
//! accelerometer data follow (in that order); `0b01` a control frame, whose
//! bits 4..2 select a skip frame (one byte), a sensor time frame (three bytes)
//! or a FIFO input configuration frame (four bytes). Any other header is
//! refused.
//!
//! [`FrameParser`] takes the stream a byte at a time and says when a frame is
//! complete.

mod buffers;
pub mod laws;

use vstd::prelude::*;

use crate::ll::field_sets::{Acc, Gyr, SensorTime};
use crate::ll::AuxBurstLength;
use buffers::{aux_bytes, axis_bytes, control_bytes, AuxBuffer, AxisBuffer, ControlBuffer};

verus! {

/// Number of payload bytes of one accelerometer or gyroscope sample.
pub const AXIS_LEN: usize = 6;

/// Size of the auxiliary sample buffer of a regular frame.
pub const AUX_LEN: usize = 8;

/// One frame of the FIFO.
#[derive(Debug)]
pub enum FifoDataFrame {
    Reserved,
    Regular(RegularFrame),
    Control(ControlFrame),
}

/// A regular frame: the samples of the sensors that its header announced.
#[derive(Debug)]
pub struct RegularFrame {
    pub aux: Option<[u8; 8]>,
    pub gyr: Option<Gyr>,
    pub acc: Option<Acc>,
}

impl RegularFrame {
    /// A regular frame without any sample.
    pub fn empty() -> (f: RegularFrame)
        ensures
            f.aux is None,
            f.gyr is None,
            f.acc is None,
    {
        RegularFrame { aux: None, gyr: None, acc: None }
    }
}

/// A control frame.
#[derive(Debug)]
pub enum ControlFrame {
    SkipFrame(u8),
    SensorTime(SensorTime),
    FifoInputConfig(FifoInputConfig),
}

/// The payload of a FIFO input configuration frame.
pub type FifoInputConfig = [u8; 4];

/// The kind of a control frame, from its header.
#[derive(Debug, Clone, Copy, PartialEq, Eq, Structural)]
pub enum ControlFrameKind {
    SkipFrame,
    SensorTime,
    FifoInputConfig,
}

impl ControlFrameKind {
    /// Number of payload bytes that follow a control header of this kind.
    pub open spec fn payload_len(self) -> nat {
        match self {
            ControlFrameKind::SkipFrame => 1,
            ControlFrameKind::SensorTime => 3,
            ControlFrameKind::FifoInputConfig => 4,
        }
    }

    /// Number of payload bytes that follow a control header of this kind.
    pub fn len(&self) -> (n: usize)
        ensures
            n == self.payload_len(),
    {
        match self {
            ControlFrameKind::SkipFrame => 1,
            ControlFrameKind::SensorTime => 3,
            ControlFrameKind::FifoInputConfig => 4,
        }
    }
}

/// The header byte could not start a frame.
#[derive(Debug, Clone, Copy, PartialEq, Eq, Structural)]
pub struct ParsingError;

// ---------------------------------------------------------------------------
// The mathematical model
// ---------------------------------------------------------------------------

/// A control frame, with each payload as a sequence of bytes.
pub ghost enum ControlView {
    SkipFrame(u8),
    SensorTime(Seq<u8>),
    FifoInputConfig(Seq<u8>),
}

/// A FIFO frame, with each payload as a sequence of bytes.
pub ghost enum FrameView {
    Reserved,
    Regular { aux: Option<Seq<u8>>, gyr: Option<Seq<u8>>, acc: Option<Seq<u8>> },
    Control(ControlView),
}

/// What the parser has read of the current frame.
pub ghost enum StateView {
    /// Waiting for a header byte.
    Kind,
    /// Reading a regular frame: for each announced sensor, the bytes so far.
    Regular { aux: Option<Seq<u8>>, gyr: Option<Seq<u8>>, acc: Option<Seq<u8>> },
    /// Reading the payload of a control frame.
    Control { kind: ControlFrameKind, data: Seq<u8> },
}

/// A parser: its state, and the auxiliary burst length it was configured with.
pub ghost struct ParserView {
    pub state: StateView,
    pub aux_len: Option<nat>,
}

/// What feeding a byte sequence does: the state it leaves, how many bytes it
/// took, and what it returns.
pub ghost struct FeedOutcome {
    pub state: StateView,
    pub consumed: nat,
    pub result: Result<Option<FrameView>, ParsingError>,
}

impl View for ControlFrame {
    type V = ControlView;

    open spec fn view(&self) -> ControlView {
        match self {
            ControlFrame::SkipFrame(b) => ControlView::SkipFrame(*b),
            ControlFrame::SensorTime(t) => ControlView::SensorTime(t@),
            ControlFrame::FifoInputConfig(c) => ControlView::FifoInputConfig(c@),
        }
    }
}

impl View for FifoDataFrame {
    type V = FrameView;

    open spec fn view(&self) -> FrameView {
        match self {
            FifoDataFrame::Reserved => FrameView::Reserved,
            FifoDataFrame::Regular(r) => FrameView::Regular {
                aux: match r.aux {
                    Some(a) => Some(a@),
                    None => None,
                },
                gyr: match r.gyr {
                    Some(g) => Some(g@),
                    None => None,
                },
                acc: match r.acc {
                    Some(a) => Some(a@),
                    None => None,
                },
            },
            FifoDataFrame::Control(c) => FrameView::Control(c@),
        }
    }
}

/// The view of an optional frame.
pub open spec fn frame_opt_view(f: Option<FifoDataFrame>) -> Option<FrameView> {
    match f {
        Some(f) => Some(f@),
        None => None,
    }
}

/// The view of what `feed` returns.
pub open spec fn feed_result_view(
    r: Result<Option<FifoDataFrame>, ParsingError>,
) -> Result<Option<FrameView>, ParsingError> {
    match r {
        Ok(f) => Ok(frame_opt_view(f)),
        Err(e) => Err(e),
    }
}

/// The mode of a header byte: its two top bits.
pub open spec fn header_mode(b: u8) -> int {
    b as int / 64
}

/// Whether a regular header announces auxiliary data (bit 4).
pub open spec fn header_has_aux(b: u8) -> bool {
    (b as int / 16) % 2 == 1
}

/// Whether a regular header announces gyroscope data (bit 3).
pub open spec fn header_has_gyr(b: u8) -> bool {
    (b as int / 8) % 2 == 1
}

/// Whether a regular header announces accelerometer data (bit 2).
pub open spec fn header_has_acc(b: u8) -> bool {
    (b as int / 4) % 2 == 1
}

/// The parameter of a control header: bits 4..2.
pub open spec fn header_parm(b: u8) -> int {
    (b as int / 4) % 8
}

/// The control frame kind that a parameter selects.
pub open spec fn control_kind(parm: int) -> Option<ControlFrameKind> {
    if parm == 0 {
        Some(ControlFrameKind::SkipFrame)
    } else if parm == 1 {
        Some(ControlFrameKind::SensorTime)
    } else if parm == 2 {
        Some(ControlFrameKind::FifoInputConfig)
    } else {
        None
    }
}

/// An empty buffer for each flag that is set.
pub open spec fn empty_if(flag: bool) -> Option<Seq<u8>> {
    if flag {
        Some(Seq::<u8>::empty())
    } else {
        None
    }
}

/// `s` with `b` appended while it holds fewer than `cap` bytes; `s` otherwise.
pub open spec fn push_capped(s: Seq<u8>, b: u8, cap: nat) -> Seq<u8> {
    if s.len() < cap {
        s.push(b)
    } else {
        s
    }
}

/// Whether the auxiliary buffer takes the next byte of a regular frame: only
/// once it holds more bytes than the configured burst length, so that a
/// buffer that starts empty never takes one.
pub open spec fn aux_takes(aux: Option<Seq<u8>>, aux_len: Option<nat>) -> bool {
    aux is Some && aux_len is Some && aux_len->0 < aux->0.len()
}

/// Whether a sensor buffer is announced and has fewer than six bytes.
pub open spec fn axis_open(v: Option<Seq<u8>>) -> bool {
    v is Some && v->0.len() < AXIS_LEN
}

/// The state after one byte, or the error that the byte causes.
pub open spec fn next_state(s: StateView, aux_len: Option<nat>, b: u8) -> Result<
    StateView,
    ParsingError,
> {
    match s {
        StateView::Kind => {
            if header_mode(b) == 2 {
                Ok(
                    StateView::Regular {
                        aux: empty_if(header_has_aux(b)),
                        gyr: empty_if(header_has_gyr(b)),
                        acc: empty_if(header_has_acc(b)),
                    },
                )
            } else if header_mode(b) == 1 {
                match control_kind(header_parm(b)) {
                    Some(kind) => Ok(StateView::Control { kind, data: Seq::<u8>::empty() }),
                    None => Err(ParsingError),
                }
            } else {
                Err(ParsingError)
            }
        },
        StateView::Regular { aux, gyr, acc } => {
            if aux_takes(aux, aux_len) {
                Ok(StateView::Regular { aux: Some(push_capped(aux->0, b, AUX_LEN as nat)), gyr, acc })
            } else if axis_open(gyr) {
                Ok(StateView::Regular { aux, gyr: Some(gyr->0.push(b)), acc })
            } else if axis_open(acc) {
                Ok(StateView::Regular { aux, gyr, acc: Some(acc->0.push(b)) })
            } else {
                Ok(s)
            }
        },
        StateView::Control { kind, data } => {
            if data.len() < kind.payload_len() {
                Ok(StateView::Control { kind, data: data.push(b) })
            } else {
                Ok(s)
            }
        },
    }
}

/// Whether the state holds a complete frame.
pub open spec fn frame_complete(s: StateView, aux_len: Option<nat>) -> bool {
    match s {
        StateView::Kind => false,
        StateView::Regular { aux, gyr, acc } => {
            &&& !(aux is Some && aux_len is Some && aux->0.len() < aux_len->0)
            &&& (gyr is Some ==> gyr->0.len() == AXIS_LEN)
            &&& (acc is Some ==> acc->0.len() == AXIS_LEN)
        },
        StateView::Control { kind, data } => data.len() == kind.payload_len(),
    }
}

/// A sensor sample, when its buffer holds all six bytes.
pub open spec fn axis_sample(v: Option<Seq<u8>>) -> Option<Seq<u8>> {
    if v is Some && v->0.len() == AXIS_LEN {
        v
    } else {
        None
    }
}

/// The auxiliary sample, padded with zeros to eight bytes, when its buffer
/// holds exactly the configured burst length.
pub open spec fn aux_sample(aux: Option<Seq<u8>>, aux_len: Option<nat>) -> Option<Seq<u8>> {
    if aux is Some && aux_len is Some && aux->0.len() == aux_len->0 {
        Some(aux->0 + Seq::new((AUX_LEN - aux_len->0) as nat, |i: int| 0u8))
    } else {
        None
    }
}

/// The frame that a state makes, if it makes one.
pub open spec fn frame_of(s: StateView, aux_len: Option<nat>) -> Option<FrameView> {
    match s {
        StateView::Kind => None,
        StateView::Regular { aux, gyr, acc } => Some(
            FrameView::Regular {
                aux: aux_sample(aux, aux_len),
                gyr: axis_sample(gyr),
                acc: axis_sample(acc),
            },
        ),
        StateView::Control { kind, data } => {
            if data.len() == kind.payload_len() {
                Some(
                    FrameView::Control(
                        match kind {
                            ControlFrameKind::SkipFrame => ControlView::SkipFrame(data[0]),
                            ControlFrameKind::SensorTime => ControlView::SensorTime(data),
                            ControlFrameKind::FifoInputConfig => ControlView::FifoInputConfig(data),
                        },
                    ),
                )
            } else {
                None
            }
        },
    }
}

/// Feeding `data` from state `s`: bytes are taken one at a time; a refused
/// byte stops the feed and is not counted; a byte that completes a frame stops
/// the feed and is counted.
pub open spec fn feed_outcome(s: StateView, aux_len: Option<nat>, data: Seq<u8>) -> FeedOutcome
    decreases data.len(),
{
    if data.len() == 0 {
        FeedOutcome { state: s, consumed: 0, result: Ok(None) }
    } else {
        match next_state(s, aux_len, data[0]) {
            Err(e) => FeedOutcome { state: s, consumed: 0, result: Err(e) },
            Ok(t) => {
                if frame_complete(t, aux_len) {
                    FeedOutcome { state: t, consumed: 1, result: Ok(frame_of(t, aux_len)) }
                } else {
                    let rest = feed_outcome(t, aux_len, data.drop_first());
                    FeedOutcome { state: rest.state, consumed: rest.consumed + 1, result: rest.result }
                }
            },
        }
    }
}

/// The states the parser can be in: no buffer holds more than it can take.
pub open spec fn state_valid(s: StateView) -> bool {
    match s {
        StateView::Kind => true,
        StateView::Regular { aux, gyr, acc } => {
            &&& (aux is Some ==> aux->0.len() <= AUX_LEN)
            &&& (gyr is Some ==> gyr->0.len() <= AXIS_LEN)
            &&& (acc is Some ==> acc->0.len() <= AXIS_LEN)
        },
        StateView::Control { kind, data } => data.len() <= kind.payload_len(),
    }
}

impl ParserView {
    /// A reachable parser: valid state, and a burst length of one to eight.
    pub open spec fn valid(self) -> bool {
        &&& state_valid(self.state)
        &&& (self.aux_len is Some ==> 1 <= self.aux_len->0 <= AUX_LEN)
    }
}

// ---------------------------------------------------------------------------
// The parser
// ---------------------------------------------------------------------------

enum FrameParserState {
    Kind,
    Regular { aux: Option<AuxBuffer>, gyr: Option<AxisBuffer>, acc: Option<AxisBuffer> },
    Control { kind: ControlFrameKind, data: ControlBuffer },
}

impl View for FrameParserState {
    type V = StateView;

    closed spec fn view(&self) -> StateView {
        match self {
            FrameParserState::Kind => StateView::Kind,
            FrameParserState::Regular { aux, gyr, acc } => StateView::Regular {
                aux: match aux {
                    Some(v) => Some(aux_bytes(*v)),
                    None => None,
                },
                gyr: match gyr {
                    Some(v) => Some(axis_bytes(*v)),
                    None => None,
                },
                acc: match acc {
                    Some(v) => Some(axis_bytes(*v)),
                    None => None,
                },
            },
            FrameParserState::Control { kind, data } => StateView::Control {
                kind: *kind,
                data: control_bytes(*data),
            },
        }
    }
}

/// An incremental parser of the FIFO data stream.
pub struct FrameParser {
    state: FrameParserState,
    aux: Option<u8>,
}

impl View for FrameParser {
    type V = ParserView;

    closed spec fn view(&self) -> ParserView {
        ParserView {
            state: self.state@,
            aux_len: match self.aux {
                Some(n) => Some(n as nat),
                None => None,
            },
        }
    }
}

/// The burst length in bytes, when one is configured.
pub open spec fn burst_len(aux: Option<AuxBurstLength>) -> Option<nat> {
    match aux {
        Some(a) => Some(a.byte_count() as nat),
        None => None,
    }
}


/// The burst length of a configuration, as a number.
pub open spec fn aux_len_of(aux: Option<u8>) -> Option<nat> {
    match aux {
        Some(n) => Some(n as nat),
        None => None,
    }
}

/// The bit tests of a header byte, in terms of its value.
proof fn lemma_header_bits(b: u8)
    ensures
        (b >> 6u8) as int == header_mode(b),
        (b & 0x10u8 != 0) == header_has_aux(b),
        (b & 0x08u8 != 0) == header_has_gyr(b),
        (b & 0x04u8 != 0) == header_has_acc(b),
        ((b >> 2u8) & 0x07u8) as int == header_parm(b),
{
    assert(b >> 6u8 == b / 64u8) by (bit_vector);
    assert((b & 0x10u8 != 0) == ((b / 16u8) % 2u8 == 1u8)) by (bit_vector);
    assert((b & 0x08u8 != 0) == ((b / 8u8) % 2u8 == 1u8)) by (bit_vector);
    assert((b & 0x04u8 != 0) == ((b / 4u8) % 2u8 == 1u8)) by (bit_vector);
    assert((b >> 2u8) & 0x07u8 == (b / 4u8) % 8u8) by (bit_vector);
}

/// Each byte leaves a valid state valid.
pub proof fn lemma_next_state_valid(s: StateView, aux_len: Option<nat>, b: u8)
    requires
        state_valid(s),
    ensures
        next_state(s, aux_len, b) matches Ok(t) ==> state_valid(t),
{
}

/// A new sensor buffer when the flag is set.
fn axis_buffer_if(flag: bool) -> (r: Option<AxisBuffer>)
    ensures
        match r {
            Some(v) => flag && axis_bytes(v) == Seq::<u8>::empty(),
            None => !flag,
        },
{
    if flag {
        Some(AxisBuffer::new())
    } else {
        None
    }
}

/// Appends a byte to an announced sensor buffer with room left.
fn axis_push(v: Option<AxisBuffer>, b: u8) -> (r: Option<AxisBuffer>)
    requires
        v is Some,
    ensures
        r is Some,
        axis_bytes(r->0) == push_capped(axis_bytes(v->0), b, AXIS_LEN as nat),
{
    match v {
        Some(mut buf) => {
            let _ = buf.push(b);
            Some(buf)
        },
        None => None,
    }
}

/// Whether an announced sensor buffer still has room.
fn axis_has_room(v: &Option<AxisBuffer>) -> (r: bool)
    requires
        v is Some ==> axis_bytes(v->0).len() <= AXIS_LEN,
    ensures
        r == (v is Some && axis_bytes(v->0).len() < AXIS_LEN),
{
    match v {
        Some(buf) => !buf.is_full(),
        None => false,
    }
}

/// The state after one byte.
fn push_state(state: FrameParserState, aux: Option<u8>, b: u8) -> (r: (
    FrameParserState,
    Result<(), ParsingError>,
))
    requires
        state_valid(state@),
    ensures
        state_valid(r.0@),
        match next_state(state@, aux_len_of(aux), b) {
            Ok(t) => r.1 is Ok && r.0@ == t,
            Err(e) => r.1 == Err::<(), ParsingError>(e) && r.0@ == state@,
        },
{
    proof {
        lemma_next_state_valid(state@, aux_len_of(aux), b);
    }
    match state {
        FrameParserState::Kind => {
            proof {
                lemma_header_bits(b);
            }
            let mode = b >> 6u8;
            if mode == 0b10 {
                let a = if b & 0x10u8 != 0 {
                    Some(AuxBuffer::new())
                } else {
                    None
                };
                let g = axis_buffer_if(b & 0x08u8 != 0);
                let c = axis_buffer_if(b & 0x04u8 != 0);
                let next = FrameParserState::Regular { aux: a, gyr: g, acc: c };
                (next, Ok(()))
            } else if mode == 0b01 {
                let parm = (b >> 2u8) & 0x07u8;
                if parm == 0 {
                    (FrameParserState::Control { kind: ControlFrameKind::SkipFrame, data: ControlBuffer::new() }, Ok(()))
                } else if parm == 1 {
                    (FrameParserState::Control { kind: ControlFrameKind::SensorTime, data: ControlBuffer::new() }, Ok(()))
                } else if parm == 2 {
                    (FrameParserState::Control { kind: ControlFrameKind::FifoInputConfig, data: ControlBuffer::new() }, Ok(()))
                } else {
                    (FrameParserState::Kind, Err(ParsingError))
                }
            } else {
                (FrameParserState::Kind, Err(ParsingError))
            }
        },
        FrameParserState::Regular { aux: a, gyr: g, acc: c } => {
            let mut takes_aux = false;
            match &a {
                Some(v) => match aux {
                    Some(len) => {
                        if (len as usize) < v.as_slice().len() {
                            takes_aux = true;
                        }
                    },
                    None => {},
                },
                None => {},
            }
            if takes_aux {
                let a2 = match a {
                    Some(mut v) => {
                        let _ = v.push(b);
                        Some(v)
                    },
                    None => None,
                };
                (FrameParserState::Regular { aux: a2, gyr: g, acc: c }, Ok(()))
            } else if axis_has_room(&g) {
                let g2 = axis_push(g, b);
                (FrameParserState::Regular { aux: a, gyr: g2, acc: c }, Ok(()))
            } else if axis_has_room(&c) {
                let c2 = axis_push(c, b);
                (FrameParserState::Regular { aux: a, gyr: g, acc: c2 }, Ok(()))
            } else {
                (FrameParserState::Regular { aux: a, gyr: g, acc: c }, Ok(()))
            }
        },
        FrameParserState::Control { kind, data } => {
            let mut data = data;
            if data.as_slice().len() < kind.len() {
                let _ = data.push(b);
            }
            (FrameParserState::Control { kind, data }, Ok(()))
        },
    }
}


/// The six bytes of a complete sensor sample, if the slice holds exactly six.
fn axis_array(s: &[u8]) -> (r: Option<[u8; 6]>)
    ensures
        match r {
            Some(a) => s@.len() == AXIS_LEN && a@ == s@,
            None => s@.len() != AXIS_LEN,
        },
{
    if s.len() == 6 {
        let a = [s[0], s[1], s[2], s[3], s[4], s[5]];
        assert(a@ =~= s@);
        Some(a)
    } else {
        None
    }
}

/// The auxiliary sample padded with zeros, if the slice holds exactly the
/// burst length.
fn aux_array(s: &[u8], aux_len: u8) -> (r: Option<[u8; 8]>)
    requires
        1 <= aux_len <= AUX_LEN,
    ensures
        match r {
            Some(a) => s@.len() == aux_len && a@ == s@ + Seq::new(
                (AUX_LEN - aux_len) as nat,
                |i: int| 0u8,
            ),
            None => s@.len() != aux_len,
        },
{
    if s.len() == aux_len as usize {
        let mut buf = [0u8; 8];
        let mut i: usize = 0;
        while i < s.len()
            invariant
                s@.len() == aux_len,
                aux_len <= AUX_LEN,
                i <= s@.len(),
                buf@.len() == AUX_LEN,
                forall|j: int| 0 <= j < i ==> buf@[j] == s@[j],
                forall|j: int| i <= j < AUX_LEN ==> buf@[j] == 0u8,
            decreases s@.len() - i,
        {
            buf[i] = s[i];
            i = i + 1;
        }
        assert(buf@ =~= s@ + Seq::new((AUX_LEN - aux_len) as nat, |i: int| 0u8));
        Some(buf)
    } else {
        None
    }
}

impl FrameParser {
    #[verifier::type_invariant]
    spec fn inv(self) -> bool {
        self@.valid()
    }

    /// A parser waiting for a header, for a sensor whose auxiliary interface
    /// bursts `aux` bytes per frame (or has none configured).
    pub fn new(aux: Option<AuxBurstLength>) -> (p: FrameParser)
        ensures
            p@.state == StateView::Kind,
            p@.aux_len == burst_len(aux),
            p@.valid(),
    {
        let len = match aux {
            Some(a) => Some(u8::from(a)),
            None => None,
        };
        FrameParser { state: FrameParserState::Kind, aux: len }
    }

    /// Drops what was read of the current frame; must be called before
    /// starting to parse a new frame.
    pub fn reset(&mut self)
        ensures
            final(self)@.state == StateView::Kind,
            final(self)@.aux_len == old(self)@.aux_len,
            final(self)@.valid(),
    {
        proof {
            use_type_invariant(&*self);
        }
        self.state = FrameParserState::Kind;
    }

    /// Feeds a slice of data to the parser and returns how many bytes were
    /// used, with the frame that they completed (if any) or the error that
    /// stopped them. Unused bytes must be fed again for a new frame, after a
    /// `reset`.
    pub fn feed(&mut self, data: &[u8]) -> (r: (usize, Result<Option<FifoDataFrame>, ParsingError>))
        ensures
            ({
                let out = feed_outcome(old(self)@.state, old(self)@.aux_len, data@);
                &&& final(self)@.state == out.state
                &&& r.0 == out.consumed
                &&& feed_result_view(r.1) == out.result
            }),
            final(self)@.aux_len == old(self)@.aux_len,
            final(self)@.valid(),
    {
        proof {
            use_type_invariant(&*self);
        }
        let ghost start = self@.state;
        let ghost aux_len = self@.aux_len;
        let mut i: usize = 0;
        assert(data@.skip(0) =~= data@);
        while i < data.len()
            invariant
                i <= data@.len(),
                self@.aux_len == aux_len,
                start == old(self)@.state,
                aux_len == old(self)@.aux_len,
                ({
                    let whole = feed_outcome(start, aux_len, data@);
                    let rest = feed_outcome(self@.state, aux_len, data@.skip(i as int));
                    &&& whole.state == rest.state
                    &&& whole.consumed == rest.consumed + i
                    &&& whole.result == rest.result
                }),
            decreases data@.len() - i,
        {
            proof {
                use_type_invariant(&*self);
                assert(data@.skip(i as int).drop_first() =~= data@.skip(i + 1));
                assert(data@.skip(i as int)[0] == data@[i as int]);
            }
            let b = data[i];
            match self.push(b) {
                Err(e) => {
                    return (i, Err(e));
                },
                Ok(()) => {},
            }
            i += 1;
            if self.frame_ready() {
                return (i, Ok(self.try_frame()));
            }
        }
        proof {
            use_type_invariant(&*self);
            assert(data@.skip(i as int) =~= Seq::<u8>::empty());
        }
        (i, Ok(None))
    }

    /// Checks whether a frame can be constructed from the state.
    pub fn frame_ready(&self) -> (r: bool)
        ensures
            r == frame_complete(self@.state, self@.aux_len),
            self@.valid(),
    {
        proof {
            use_type_invariant(self);
        }
        match &self.state {
            FrameParserState::Kind => false,
            FrameParserState::Regular { aux, gyr, acc } => {
                let mut aux_done = true;
                let mut gyr_done = true;
                let mut acc_done = true;
                let mut aux_short = false;
                match aux {
                    Some(v) => match self.aux {
                        Some(len) => {
                            if v.as_slice().len() < len as usize {
                                aux_short = true;
                            }
                        },
                        None => {},
                    },
                    None => {},
                }
                if aux_short {
                    aux_done = false;
                } else if axis_has_room(gyr) {
                    gyr_done = false;
                } else if axis_has_room(acc) {
                    acc_done = false;
                }
                aux_done && gyr_done && acc_done
            },
            FrameParserState::Control { kind, data } => data.as_slice().len() == kind.len(),
        }
    }

    /// Tries creating a frame from the parser state.
    pub fn try_frame(&self) -> (r: Option<FifoDataFrame>)
        ensures
            frame_opt_view(r) == frame_of(self@.state, self@.aux_len),
            self@.valid(),
    {
        proof {
            use_type_invariant(self);
        }
        match &self.state {
            FrameParserState::Kind => None,
            FrameParserState::Regular { aux, gyr, acc } => {
                let aux_frame = match self.aux {
                    Some(aux_len) => match aux {
                        Some(v) => aux_array(v.as_slice(), aux_len),
                        None => None,
                    },
                    None => None,
                };
                let gyr_frame = match gyr {
                    Some(v) => match axis_array(v.as_slice()) {
                        Some(bits) => Some(Gyr::from(bits)),
                        None => None,
                    },
                    None => None,
                };
                let acc_frame = match acc {
                    Some(v) => match axis_array(v.as_slice()) {
                        Some(bits) => Some(Acc::from(bits)),
                        None => None,
                    },
                    None => None,
                };
                let f = FifoDataFrame::Regular(
                    RegularFrame { aux: aux_frame, gyr: gyr_frame, acc: acc_frame },
                );
                proof {
                    assert(f@ == frame_of(self@.state, self@.aux_len)->0);
                }
                Some(f)
            },
            FrameParserState::Control { kind, data } => {
                let d = data.as_slice();
                match kind {
                    ControlFrameKind::SkipFrame => {
                        if d.len() == 1 {
                            Some(FifoDataFrame::Control(ControlFrame::SkipFrame(d[0])))
                        } else {
                            None
                        }
                    },
                    ControlFrameKind::SensorTime => {
                        if d.len() == 3 {
                            let bits = [d[0], d[1], d[2]];
                            assert(bits@ =~= d@);
                            Some(FifoDataFrame::Control(ControlFrame::SensorTime(SensorTime::from(bits))))
                        } else {
                            None
                        }
                    },
                    ControlFrameKind::FifoInputConfig => {
                        if d.len() == 4 {
                            let bits = [d[0], d[1], d[2], d[3]];
                            assert(bits@ =~= d@);
                            Some(FifoDataFrame::Control(ControlFrame::FifoInputConfig(bits)))
                        } else {
                            None
                        }
                    },
                }
            },
        }
    }

    /// Pushes a single byte and says whether parsing goes on.
    fn push(&mut self, b: u8) -> (r: Result<(), ParsingError>)
        ensures
            final(self)@.aux_len == old(self)@.aux_len,
            match next_state(old(self)@.state, old(self)@.aux_len, b) {
                Ok(t) => r is Ok && final(self)@.state == t,
                Err(e) => r == Err::<(), ParsingError>(e) && final(self)@.state == old(self)@.state,
            },
    {
        proof {
            use_type_invariant(&*self);
        }
        let mut state = FrameParserState::Kind;
        core::mem::swap(&mut state, &mut self.state);
        let (next, r) = push_state(state, self.aux, b);
        self.state = next;
        r
    }
}

} // verus!
