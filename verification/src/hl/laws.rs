//! Properties of the FIFO parser that span its operations.

use vstd::prelude::*;

use super::{
    AUX_LEN, ParserView,
    control_kind, empty_if, header_has_acc, header_has_aux, header_has_gyr, AXIS_LEN,
    ControlFrameKind, ControlView, feed_outcome, frame_complete, frame_of, header_mode, header_parm,
    lemma_next_state_valid, next_state, state_valid, FeedOutcome, FrameView, ParsingError,
    StateView,
};

verus! {

/// Whether a byte can start a frame: a regular header, or a control header
/// that selects one of the three control frame kinds.
pub open spec fn valid_header(b: u8) -> bool {
    header_mode(b) == 2 || (header_mode(b) == 1 && control_kind(header_parm(b)) is Some)
}

/// Only a header can be refused, and a header is refused exactly when it
/// cannot start a frame.
pub proof fn lemma_refusal(s: StateView, aux_len: Option<nat>, b: u8)
    ensures
        next_state(s, aux_len, b) is Err <==> (s is Kind && !valid_header(b)),
{
}

/// A complete frame in a valid state always yields a frame.
pub proof fn lemma_complete_yields_frame(s: StateView, aux_len: Option<nat>)
    requires
        state_valid(s),
        frame_complete(s, aux_len),
    ensures
        frame_of(s, aux_len) is Some,
{
}

/// Feeding takes at most the bytes it is given. It stops early only at a
/// refused byte (which it does not count) or at a byte that completes a frame
/// (which it counts, and then the frame is returned); otherwise it takes all
/// the bytes and returns no frame. Validity of the state is kept throughout.
pub proof fn lemma_feed_progress(s: StateView, aux_len: Option<nat>, data: Seq<u8>)
    requires
        state_valid(s),
    ensures
        ({
            let out = feed_outcome(s, aux_len, data);
            &&& out.consumed <= data.len()
            &&& state_valid(out.state)
            &&& match out.result {
                Ok(None) => out.consumed == data.len(),
                Ok(Some(f)) => {
                    &&& 1 <= out.consumed
                    &&& frame_complete(out.state, aux_len)
                    &&& frame_of(out.state, aux_len) == Some(f)
                },
                Err(_) => {
                    &&& out.consumed < data.len()
                    &&& next_state(out.state, aux_len, data[out.consumed as int]) is Err
                },
            }
        }),
    decreases data.len(),
{
    if data.len() > 0 {
        lemma_next_state_valid(s, aux_len, data[0]);
        match next_state(s, aux_len, data[0]) {
            Err(_) => {},
            Ok(t) => {
                if !frame_complete(t, aux_len) {
                    lemma_feed_progress(t, aux_len, data.drop_first());
                    let rest = feed_outcome(t, aux_len, data.drop_first());
                    if rest.result is Err {
                        assert(data[rest.consumed as int + 1] == data.drop_first()[rest.consumed as int]);
                    }
                }
            },
        }
    }
}

/// Feeding in pieces is feeding at once: when a first piece is taken whole
/// without completing a frame, feeding it followed by a second piece ends as
/// feeding the second piece to the state the first one left, with the first
/// piece's bytes counted too.
pub proof fn lemma_feed_append(s: StateView, aux_len: Option<nat>, a: Seq<u8>, b: Seq<u8>)
    requires
        state_valid(s),
        feed_outcome(s, aux_len, a).result == Ok::<Option<FrameView>, ParsingError>(None),
    ensures
        ({
            let first = feed_outcome(s, aux_len, a);
            let second = feed_outcome(first.state, aux_len, b);
            feed_outcome(s, aux_len, a + b) == FeedOutcome {
                state: second.state,
                consumed: a.len() + second.consumed,
                result: second.result,
            }
        }),
    decreases a.len(),
{
    lemma_feed_progress(s, aux_len, a);
    if a.len() == 0 {
        assert(a + b =~= b);
    } else {
        let t = next_state(s, aux_len, a[0])->Ok_0;
        lemma_next_state_valid(s, aux_len, a[0]);
        assert((a + b)[0] == a[0]);
        assert((a + b).drop_first() =~= a.drop_first() + b);
        lemma_feed_append(t, aux_len, a.drop_first(), b);
    }
}

/// The parser never looks past the byte that stops it: once feeding a piece
/// has completed a frame or met a refused byte, feeding that piece followed by
/// anything ends the same way.
pub proof fn lemma_feed_stops(s: StateView, aux_len: Option<nat>, a: Seq<u8>, c: Seq<u8>)
    requires
        feed_outcome(s, aux_len, a).result != Ok::<Option<FrameView>, ParsingError>(None),
    ensures
        feed_outcome(s, aux_len, a + c) == feed_outcome(s, aux_len, a),
    decreases a.len(),
{
    if a.len() > 0 {
        assert((a + c)[0] == a[0]);
        assert((a + c).drop_first() =~= a.drop_first() + c);
        match next_state(s, aux_len, a[0]) {
            Err(_) => {},
            Ok(t) => {
                if !frame_complete(t, aux_len) {
                    lemma_feed_stops(t, aux_len, a.drop_first(), c);
                }
            },
        }
    }
}

/// Bytes that a sensor buffer of a regular frame still takes.
pub open spec fn room(v: Option<Seq<u8>>) -> nat {
    match v {
        Some(s) => (AXIS_LEN - s.len()) as nat,
        None => 0,
    }
}

/// A sensor buffer after it has taken its share from the front of `data`.
pub open spec fn fill(v: Option<Seq<u8>>, data: Seq<u8>) -> Option<Seq<u8>> {
    match v {
        Some(s) => Some(s + data.take(room(v) as int)),
        None => None,
    }
}

/// Number of payload bytes that a regular header announces, not counting
/// auxiliary data.
pub open spec fn regular_payload_len(h: u8) -> nat {
    (if header_has_gyr(h) {
        AXIS_LEN as nat
    } else {
        0nat
    }) + (if header_has_acc(h) {
        AXIS_LEN as nat
    } else {
        0nat
    })
}

proof fn lemma_regular_fill(
    aux: Option<Seq<u8>>,
    gyr: Option<Seq<u8>>,
    acc: Option<Seq<u8>>,
    aux_len: Option<nat>,
    data: Seq<u8>,
)
    requires
        !(aux is Some && aux_len is Some),
        gyr is Some ==> gyr->0.len() <= AXIS_LEN,
        acc is Some ==> acc->0.len() <= AXIS_LEN,
        room(gyr) + room(acc) > 0,
        data.len() >= room(gyr) + room(acc),
    ensures
        ({
            let filled = StateView::Regular {
                aux,
                gyr: fill(gyr, data),
                acc: fill(acc, data.skip(room(gyr) as int)),
            };
            feed_outcome(StateView::Regular { aux, gyr, acc }, aux_len, data) == FeedOutcome {
                state: filled,
                consumed: room(gyr) + room(acc),
                result: Ok(frame_of(filled, aux_len)),
            }
        }),
    decreases room(gyr) + room(acc),
{
    let d0 = data[0];
    let rest = data.drop_first();
    if room(gyr) > 0 {
        let g2 = Some(gyr->0.push(d0));
        assert(gyr->0 + data.take(room(gyr) as int) =~= gyr->0.push(d0) + rest.take(
            room(g2) as int,
        ));
        assert(data.skip(room(gyr) as int) =~= rest.skip(room(g2) as int));
        if room(g2) + room(acc) > 0 {
            lemma_regular_fill(aux, g2, acc, aux_len, rest);
        } else {
            assert(acc matches Some(c) ==> c + data.skip(room(gyr) as int).take(0) =~= c);
        }
    } else {
        let c2 = Some(acc->0.push(d0));
        assert(gyr matches Some(g) ==> g + data.take(0) =~= g);
        assert(gyr matches Some(g) ==> g + rest.take(0) =~= g);
        assert(data.skip(0) =~= data);
        assert(rest.skip(0) =~= rest);
        assert(acc->0 + data.take(room(acc) as int) =~= acc->0.push(d0) + rest.take(
            room(c2) as int,
        ));
        if room(c2) > 0 {
            lemma_regular_fill(aux, gyr, c2, aux_len, rest);
        }
    }
}

/// A regular frame decodes its payload in order: the gyroscope sample (if its
/// header announces one) in the six bytes after the header, then the
/// accelerometer sample (if announced) in the next six. The frame is complete,
/// and feeding stops, right after the last announced byte. This holds when the
/// frame carries no auxiliary data to collect: either its header does not
/// announce any, or no auxiliary burst length is configured.
pub proof fn lemma_regular_frame(aux_len: Option<nat>, data: Seq<u8>)
    requires
        data.len() >= 1 + regular_payload_len(data[0]),
        header_mode(data[0]) == 2,
        !(header_has_aux(data[0]) && aux_len is Some),
    ensures
        ({
            let h = data[0];
            let g: int = if header_has_gyr(h) {
                AXIS_LEN as int
            } else {
                0
            };
            let out = feed_outcome(StateView::Kind, aux_len, data);
            &&& out.consumed == 1 + regular_payload_len(h)
            &&& out.result == Ok::<Option<FrameView>, ParsingError>(
                Some(
                    FrameView::Regular {
                        aux: None,
                        gyr: if header_has_gyr(h) {
                            Some(data.subrange(1, 1 + AXIS_LEN))
                        } else {
                            None
                        },
                        acc: if header_has_acc(h) {
                            Some(data.subrange(1 + g, 1 + g + AXIS_LEN))
                        } else {
                            None
                        },
                    },
                ),
            )
        }),
{
    let h = data[0];
    let rest = data.drop_first();
    let aux = empty_if(header_has_aux(h));
    let gyr = empty_if(header_has_gyr(h));
    let acc = empty_if(header_has_acc(h));
    assert(next_state(StateView::Kind, aux_len, h) == Ok::<StateView, ParsingError>(
        StateView::Regular { aux, gyr, acc },
    ));
    if room(gyr) + room(acc) > 0 {
        lemma_regular_fill(aux, gyr, acc, aux_len, rest);
        let g = room(gyr) as int;
        assert(gyr is Some ==> Seq::<u8>::empty() + rest.take(g) =~= data.subrange(1, 7));
        assert(acc is Some ==> Seq::<u8>::empty() + rest.skip(g).take(6) =~= data.subrange(
            1 + g,
            7 + g,
        ));
    }
}

proof fn lemma_control_fill(kind: ControlFrameKind, got: Seq<u8>, aux_len: Option<nat>, data: Seq<u8>)
    requires
        got.len() < kind.payload_len(),
        data.len() >= kind.payload_len() - got.len(),
    ensures
        ({
            let k = kind.payload_len() - got.len();
            let filled = StateView::Control { kind, data: got + data.take(k) };
            feed_outcome(StateView::Control { kind, data: got }, aux_len, data) == FeedOutcome {
                state: filled,
                consumed: k as nat,
                result: Ok(frame_of(filled, aux_len)),
            }
        }),
    decreases kind.payload_len() - got.len(),
{
    let k = kind.payload_len() - got.len();
    let rest = data.drop_first();
    assert(got + data.take(k) =~= got.push(data[0]) + rest.take(k - 1));
    if got.len() + 1 < kind.payload_len() {
        lemma_control_fill(kind, got.push(data[0]), aux_len, rest);
    }
}

/// A control frame decodes the payload bytes that follow its header: one
/// byte for a skip frame, three for a sensor time frame, four for a FIFO input
/// configuration frame. The frame is complete, and feeding stops, right after
/// the last of them.
pub proof fn lemma_control_frame(aux_len: Option<nat>, data: Seq<u8>)
    requires
        data.len() >= 1,
        header_mode(data[0]) == 1,
        control_kind(header_parm(data[0])) is Some,
        data.len() >= 1 + control_kind(header_parm(data[0]))->0.payload_len(),
    ensures
        ({
            let kind = control_kind(header_parm(data[0]))->0;
            let out = feed_outcome(StateView::Kind, aux_len, data);
            &&& out.consumed == 1 + kind.payload_len()
            &&& out.result == Ok::<Option<FrameView>, ParsingError>(
                Some(
                    FrameView::Control(
                        match kind {
                            ControlFrameKind::SkipFrame => ControlView::SkipFrame(data[1]),
                            ControlFrameKind::SensorTime => ControlView::SensorTime(
                                data.subrange(1, 4),
                            ),
                            ControlFrameKind::FifoInputConfig => ControlView::FifoInputConfig(
                                data.subrange(1, 5),
                            ),
                        },
                    ),
                ),
            )
        }),
{
    let kind = control_kind(header_parm(data[0]))->0;
    let rest = data.drop_first();
    lemma_control_fill(kind, Seq::<u8>::empty(), aux_len, rest);
    let k = kind.payload_len() as int;
    assert(Seq::<u8>::empty() + rest.take(k) =~= data.subrange(1, 1 + k));
}

/// How a header byte is classified, by its bits: when the two top bits
/// (`b & 0xC0`) are `0b00` or `0b11` the byte is refused; when they are `0b10`
/// it starts a regular frame whose bits 4, 3 and 2 announce auxiliary,
/// gyroscope and accelerometer data; when they are `0b01` it is a control
/// header whose bits 4..2 (`b & 0x1C`) select a skip frame (`0x00`), a sensor
/// time frame (`0x04`) or a FIFO input configuration frame (`0x08`), and any
/// other value of those bits (a reserved parameter, 3 to 7) is refused. Bits 5,
/// 1 and 0 of a control header are ignored. A refused header is not consumed
/// and leaves the parser waiting for a header.
pub proof fn lemma_header_classification(aux_len: Option<nat>, data: Seq<u8>)
    requires
        data.len() >= 1,
    ensures
        ({
            let b = data[0];
            let r = next_state(StateView::Kind, aux_len, b);
            let out = feed_outcome(StateView::Kind, aux_len, data);
            let refused = (b & 0xC0 == 0x00) || (b & 0xC0 == 0xC0) || (b & 0xC0 == 0x40 && (b
                & 0x1C) >= 0x0C);
            &&& refused ==> {
                &&& r == Err::<StateView, ParsingError>(ParsingError)
                &&& out == FeedOutcome {
                    state: StateView::Kind,
                    consumed: 0,
                    result: Err(ParsingError),
                }
            }
            &&& !refused ==> r is Ok
            &&& b & 0xC0 == 0x40 && b & 0x1C == 0x00 ==> r == Ok::<StateView, ParsingError>(
                StateView::Control { kind: ControlFrameKind::SkipFrame, data: Seq::empty() },
            )
            &&& b & 0xC0 == 0x40 && b & 0x1C == 0x04 ==> r == Ok::<StateView, ParsingError>(
                StateView::Control { kind: ControlFrameKind::SensorTime, data: Seq::empty() },
            )
            &&& b & 0xC0 == 0x40 && b & 0x1C == 0x08 ==> r == Ok::<StateView, ParsingError>(
                StateView::Control {
                    kind: ControlFrameKind::FifoInputConfig,
                    data: Seq::empty(),
                },
            )
            &&& b & 0xC0 == 0x80 ==> r == Ok::<StateView, ParsingError>(
                StateView::Regular {
                    aux: if b & 0x10 != 0 {
                        Some(Seq::<u8>::empty())
                    } else {
                        None
                    },
                    gyr: if b & 0x08 != 0 {
                        Some(Seq::<u8>::empty())
                    } else {
                        None
                    },
                    acc: if b & 0x04 != 0 {
                        Some(Seq::<u8>::empty())
                    } else {
                        None
                    },
                },
            )
        }),
{
    let b = data[0];
    assert((b & 0x10 != 0) == ((b / 16u8) % 2u8 == 1u8)) by (bit_vector);
    assert((b & 0x08 != 0) == ((b / 8u8) % 2u8 == 1u8)) by (bit_vector);
    assert((b & 0x04 != 0) == ((b / 4u8) % 2u8 == 1u8)) by (bit_vector);
    assert((b & 0xC0 == 0x00) == (b / 64u8 == 0u8)) by (bit_vector);
    assert((b & 0xC0 == 0x40) == (b / 64u8 == 1u8)) by (bit_vector);
    assert((b & 0xC0 == 0x80) == (b / 64u8 == 2u8)) by (bit_vector);
    assert((b & 0xC0 == 0xC0) == (b / 64u8 == 3u8)) by (bit_vector);
    assert((b & 0x1C) == ((b / 4u8) % 8u8) * 4u8) by (bit_vector);
    assert(header_has_aux(b) == (b & 0x10 != 0));
    assert(header_has_gyr(b) == (b & 0x08 != 0));
    assert(header_has_acc(b) == (b & 0x04 != 0));
    assert(header_parm(b) * 4 == (b & 0x1C) as int);
}

/// A frame is built only from complete data: a control frame only when all of
/// its payload bytes are held (one for a skip frame, three for a sensor time
/// frame, four for a FIFO input configuration frame), and then it carries
/// exactly those bytes; a sensor sample of a regular frame only when its six
/// bytes are held, and then it is exactly those bytes; an auxiliary sample
/// only when its buffer holds the configured burst length, and then it starts
/// with exactly those bytes and is eight bytes long.
pub proof fn lemma_frame_only_from_complete_data(s: StateView, aux_len: Option<nat>)
    requires
        (ParserView { state: s, aux_len }).valid(),
    ensures
        match s {
            StateView::Kind => frame_of(s, aux_len) is None,
            StateView::Control { kind, data } => {
                let need: nat = match kind {
                    ControlFrameKind::SkipFrame => 1,
                    ControlFrameKind::SensorTime => 3,
                    ControlFrameKind::FifoInputConfig => 4,
                };
                &&& data.len() != need ==> frame_of(s, aux_len) is None
                &&& data.len() == need ==> frame_of(s, aux_len) == Some(
                    FrameView::Control(
                        match kind {
                            ControlFrameKind::SkipFrame => ControlView::SkipFrame(data[0]),
                            ControlFrameKind::SensorTime => ControlView::SensorTime(data),
                            ControlFrameKind::FifoInputConfig => ControlView::FifoInputConfig(
                                data,
                            ),
                        },
                    ),
                )
            },
            StateView::Regular { aux, gyr, acc } => {
                frame_of(s, aux_len) matches Some(FrameView::Regular { aux: fa, gyr: fg, acc: fc })
                    && (fg matches Some(g) ==> gyr == Some(g) && g.len() == 6)
                    && (fg is None ==> !(gyr matches Some(v) && v.len() == 6))
                    && (fc matches Some(c) ==> acc == Some(c) && c.len() == 6)
                    && (fc is None ==> !(acc matches Some(v) && v.len() == 6))
                    && (fa matches Some(a) ==> {
                        &&& aux matches Some(v)
                        &&& aux_len == Some(v.len())
                        &&& a.len() == 8
                        &&& a.subrange(0, v.len() as int) == v
                    })
                    && (fa is None ==> !(aux matches Some(v) && aux_len == Some(v.len())))
            },
        },
{
    match s {
        StateView::Regular { aux, gyr, acc } => {
            if aux is Some && aux_len is Some && aux->0.len() == aux_len->0 {
                let v = aux->0;
                let a = v + Seq::new((AUX_LEN - aux_len->0) as nat, |i: int| 0u8);
                assert(a.subrange(0, v.len() as int) =~= v);
            }
        },
        _ => {},
    }
}

} // verus!
