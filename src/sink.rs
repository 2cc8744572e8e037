// The write buffer between the renderer and the channel.
use vstd::prelude::*;

verus! {

/// The bytes a terminal has written since its last flush.
pub struct SinkBuffer {
    bytes: Vec<u8>,
}

impl View for SinkBuffer {
    type V = Seq<u8>;

    closed spec fn view(&self) -> Seq<u8> {
        self.bytes@
    }
}

impl SinkBuffer {
    pub fn new() -> (r: SinkBuffer)
        ensures
            r@ == Seq::<u8>::empty(),
    {
        SinkBuffer { bytes: Vec::new() }
    }

    /// Appends bytes; never blocks and never fails.
    pub fn write(&mut self, data: &[u8])
        ensures
            final(self)@ == old(self)@ + data@,
    {
        let mut i: usize = 0;
        while i < data.len()
            invariant
                0 <= i <= data@.len(),
                self.bytes@ == old(self)@ + data@.subrange(0, i as int),
            decreases data@.len() - i,
        {
            self.bytes.push(data[i]);
            assert(self.bytes@ =~= old(self)@ + data@.subrange(0, i + 1));
            i += 1;
        }
        assert(data@.subrange(0, data@.len() as int) =~= data@);
    }

    /// Hands over everything written so far and starts empty: what a flush
    /// sends to the channel as one piece.
    pub fn take(&mut self) -> (r: Vec<u8>)
        ensures
            r@ == old(self)@,
            final(self)@ == Seq::<u8>::empty(),
    {
        let mut out: Vec<u8> = Vec::new();
        core::mem::swap(&mut out, &mut self.bytes);
        out
    }

    /// Drops everything written since the last flush, such as a frame that
    /// was cut short by a panic.
    pub fn post_panic(&mut self)
        ensures
            final(self)@ == Seq::<u8>::empty(),
    {
        self.bytes.clear();
    }
}

} // verus!
