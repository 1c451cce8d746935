//! Fixed-capacity byte buffers backed by `heapless::Vec`.
//!
//! Each buffer type holds one `heapless::Vec<u8, N, u8>` of a fixed capacity.
//! Verus sees the buffer's contents only through the name declared beside the
//! type; the methods below are thin calls into `heapless`, and their contracts
//! state what the `heapless` source shows of `new`, `push`, `is_full` and
//! `as_slice`.

use vstd::prelude::*;

verus! {

/// A buffer of up to eight auxiliary-sensor bytes.
#[verifier::external_body]
pub struct AuxBuffer {
    inner: heapless::Vec<u8, 8, u8>,
}

/// A buffer of up to six bytes of one three-axis sensor.
#[verifier::external_body]
pub struct AxisBuffer {
    inner: heapless::Vec<u8, 6, u8>,
}

/// A buffer of up to four control-frame payload bytes.
#[verifier::external_body]
pub struct ControlBuffer {
    inner: heapless::Vec<u8, 4, u8>,
}

/// The bytes held by an auxiliary buffer, in the order they were pushed.
pub uninterp spec fn aux_bytes(buf: AuxBuffer) -> Seq<u8>;

/// The bytes held by an axis buffer, in the order they were pushed.
pub uninterp spec fn axis_bytes(buf: AxisBuffer) -> Seq<u8>;

/// The bytes held by a control buffer, in the order they were pushed.
pub uninterp spec fn control_bytes(buf: ControlBuffer) -> Seq<u8>;

impl View for AuxBuffer {
    type V = Seq<u8>;

    open spec fn view(&self) -> Seq<u8> {
        aux_bytes(*self)
    }
}

impl View for AxisBuffer {
    type V = Seq<u8>;

    open spec fn view(&self) -> Seq<u8> {
        axis_bytes(*self)
    }
}

impl View for ControlBuffer {
    type V = Seq<u8>;

    open spec fn view(&self) -> Seq<u8> {
        control_bytes(*self)
    }
}

impl AuxBuffer {
    /// `heapless::Vec::new`: an empty vector.
    #[verifier::external_body]
    pub(crate) fn new() -> (b: AuxBuffer)
        ensures
            aux_bytes(b) == Seq::<u8>::empty(),
    {
        AuxBuffer { inner: heapless::Vec::new() }
    }

    /// `heapless::Vec::push`: appends the byte when fewer than eight are held,
    /// and otherwise hands it back and leaves the vector as it was.
    #[verifier::external_body]
    pub(crate) fn push(&mut self, b: u8) -> (r: Result<(), u8>)
        ensures
            aux_bytes(*old(self)).len() < 8 ==> {
                &&& aux_bytes(*final(self)) == aux_bytes(*old(self)).push(b)
                &&& r == Ok::<(), u8>(())
            },
            aux_bytes(*old(self)).len() >= 8 ==> {
                &&& aux_bytes(*final(self)) == aux_bytes(*old(self))
                &&& r == Err::<(), u8>(b)
            },
    {
        self.inner.push(b)
    }

    /// `heapless::Vec::as_slice`: the held bytes.
    #[verifier::external_body]
    pub(crate) fn as_slice(&self) -> (s: &[u8])
        ensures
            s@ == aux_bytes(*self),
    {
        self.inner.as_slice()
    }
}

impl AxisBuffer {
    /// `heapless::Vec::new`: an empty vector.
    #[verifier::external_body]
    pub(crate) fn new() -> (b: AxisBuffer)
        ensures
            axis_bytes(b) == Seq::<u8>::empty(),
    {
        AxisBuffer { inner: heapless::Vec::new() }
    }

    /// `heapless::Vec::push`: appends the byte when fewer than six are held,
    /// and otherwise hands it back and leaves the vector as it was.
    #[verifier::external_body]
    pub(crate) fn push(&mut self, b: u8) -> (r: Result<(), u8>)
        ensures
            axis_bytes(*old(self)).len() < 6 ==> {
                &&& axis_bytes(*final(self)) == axis_bytes(*old(self)).push(b)
                &&& r == Ok::<(), u8>(())
            },
            axis_bytes(*old(self)).len() >= 6 ==> {
                &&& axis_bytes(*final(self)) == axis_bytes(*old(self))
                &&& r == Err::<(), u8>(b)
            },
    {
        self.inner.push(b)
    }

    /// `heapless::Vec::is_full`: whether the length equals the capacity, six.
    #[verifier::external_body]
    pub(crate) fn is_full(&self) -> (r: bool)
        ensures
            r == (axis_bytes(*self).len() == 6),
    {
        self.inner.is_full()
    }

    /// `heapless::Vec::as_slice`: the held bytes.
    #[verifier::external_body]
    pub(crate) fn as_slice(&self) -> (s: &[u8])
        ensures
            s@ == axis_bytes(*self),
    {
        self.inner.as_slice()
    }
}

impl ControlBuffer {
    /// `heapless::Vec::new`: an empty vector.
    #[verifier::external_body]
    pub(crate) fn new() -> (b: ControlBuffer)
        ensures
            control_bytes(b) == Seq::<u8>::empty(),
    {
        ControlBuffer { inner: heapless::Vec::new() }
    }

    /// `heapless::Vec::push`: appends the byte when fewer than four are held,
    /// and otherwise hands it back and leaves the vector as it was.
    #[verifier::external_body]
    pub(crate) fn push(&mut self, b: u8) -> (r: Result<(), u8>)
        ensures
            control_bytes(*old(self)).len() < 4 ==> {
                &&& control_bytes(*final(self)) == control_bytes(*old(self)).push(b)
                &&& r == Ok::<(), u8>(())
            },
            control_bytes(*old(self)).len() >= 4 ==> {
                &&& control_bytes(*final(self)) == control_bytes(*old(self))
                &&& r == Err::<(), u8>(b)
            },
    {
        self.inner.push(b)
    }

    /// `heapless::Vec::as_slice`: the held bytes.
    #[verifier::external_body]
    pub(crate) fn as_slice(&self) -> (s: &[u8])
        ensures
            s@ == control_bytes(*self),
    {
        self.inner.as_slice()
    }
}

} // verus!
