//! A program image read byte by byte.

use vstd::prelude::*;

verus! {

/// A program image with a read position.
pub struct Tape {
    data: Vec<u8>,
    position: usize,
    loading: bool,
}

impl Tape {
    /// The bytes of the image.
    pub closed spec fn bytes(&self) -> Seq<u8> {
        self.data@
    }

    /// How many bytes have been read.
    pub closed spec fn position_spec(&self) -> int {
        self.position as int
    }

    /// Whether a load is under way.
    pub closed spec fn loading_spec(&self) -> bool {
        self.loading
    }

    /// The read position lies within the image or at its end.
    pub open spec fn wf(&self) -> bool {
        0 <= self.position_spec() <= self.bytes().len()
    }

    /// A rewound image that is not loading.
    pub fn from_bytes(data: Vec<u8>) -> (tape: Tape)
        ensures
            tape.wf(),
            tape.bytes() == data@,
            tape.position_spec() == 0,
            !tape.loading_spec(),
    {
        Tape { data, position: 0, loading: false }
    }

    /// The byte at the read position, which then moves on; `None` at the
    /// end.
    pub fn get_next_byte(&mut self) -> (byte: Option<u8>)
        requires
            old(self).wf(),
        ensures
            final(self).wf(),
            final(self).bytes() == old(self).bytes(),
            final(self).loading_spec() == old(self).loading_spec(),
            old(self).position_spec() < old(self).bytes().len() ==> byte == Some(
                old(self).bytes()[old(self).position_spec()],
            ) && final(self).position_spec() == old(self).position_spec() + 1,
            old(self).position_spec() >= old(self).bytes().len() ==> byte.is_none()
                && final(self).position_spec() == old(self).position_spec(),
    {
        if self.position < self.data.len() {
            let byte = self.data[self.position];
            self.position += 1;
            Some(byte)
        } else {
            None
        }
    }

    /// Moves the read position back to the start.
    pub fn rewind(&mut self)
        ensures
            final(self).wf(),
            final(self).bytes() == old(self).bytes(),
            final(self).loading_spec() == old(self).loading_spec(),
            final(self).position_spec() == 0,
    {
        self.position = 0;
    }

    /// Whether every byte has been read.
    pub fn is_finished(&self) -> (done: bool)
        ensures
            done == (self.position_spec() >= self.bytes().len()),
    {
        self.position >= self.data.len()
    }

    /// Marks the image as loading and rewinds it.
    pub fn start_loading(&mut self)
        ensures
            final(self).wf(),
            final(self).bytes() == old(self).bytes(),
            final(self).loading_spec(),
            final(self).position_spec() == 0,
    {
        self.loading = true;
        self.rewind();
    }

    /// Whether a load is under way.
    pub fn is_loading(&self) -> (loading: bool)
        ensures
            loading == self.loading_spec(),
    {
        self.loading
    }
}

} // verus!
