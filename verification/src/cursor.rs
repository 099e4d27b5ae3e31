//! A read position over a borrowed byte buffer.

use vstd::prelude::*;
use crate::error::DecodeError;

verus! {

/// What a cursor stands for: the whole buffer and how much of it has been read.
pub struct Input {
    pub bytes: Seq<u8>,
    pub position: nat,
}

impl Input {
    /// The number of bytes not yet read.
    pub open spec fn remaining(self) -> int {
        self.bytes.len() - self.position
    }

    /// The same buffer, read `count` bytes further.
    pub open spec fn advanced(self, count: nat) -> Input {
        Input { bytes: self.bytes, position: self.position + count }
    }
}

/// A byte source positioned somewhere inside its buffer.
#[derive(Clone, Copy, Debug)]
pub struct Cursor<'a> {
    bytes: &'a [u8],
    position: usize,
}

impl<'a> View for Cursor<'a> {
    type V = Input;

    closed spec fn view(&self) -> Input {
        Input { bytes: self.bytes@, position: self.position as nat }
    }
}

impl<'a> Cursor<'a> {
    #[verifier::type_invariant]
    spec fn in_bounds(self) -> bool {
        self.position <= self.bytes@.len()
    }

    /// A cursor at the start of `bytes`.
    pub fn new(bytes: &'a [u8]) -> (cursor: Cursor<'a>)
        ensures
            cursor@ == (Input { bytes: bytes@, position: 0 }),
    {
        Cursor { bytes, position: 0 }
    }

    /// The number of bytes read so far.
    pub fn position(&self) -> (offset: usize)
        ensures
            offset == self@.position,
    {
        self.position
    }

    /// The number of bytes left to read.
    pub fn remaining(&self) -> (count: usize)
        ensures
            count == self@.remaining(),
    {
        proof {
            use_type_invariant(self);
        }
        self.bytes.len() - self.position
    }

    /// Checks that `count` bytes are left to read, without moving.
    pub fn require(&self, count: usize) -> (checked: Result<(), DecodeError>)
        ensures
            0 <= self@.remaining(),
            match checked {
                Ok(_) => count <= self@.remaining(),
                Err(e) => {
                    &&& count > self@.remaining()
                    &&& e == (DecodeError::UnexpectedEof {
                        offset: self@.position as usize,
                        needed: count,
                    })
                },
            },
    {
        if count > self.remaining() {
            Err(DecodeError::UnexpectedEof { offset: self.position, needed: count })
        } else {
            Ok(())
        }
    }

    /// Hands out the next `count` bytes and moves past them, or reports that
    /// the input is too short and stays in place.
    pub fn take(&mut self, count: usize) -> (taken: Result<&'a [u8], DecodeError>)
        ensures
            match taken {
                Ok(bytes) => {
                    &&& count <= old(self)@.remaining()
                    &&& bytes@ == old(self)@.bytes.subrange(
                        old(self)@.position as int,
                        old(self)@.position + count,
                    )
                    &&& final(self)@ == old(self)@.advanced(count as nat)
                },
                Err(e) => {
                    &&& count > old(self)@.remaining()
                    &&& e == (DecodeError::UnexpectedEof {
                        offset: old(self)@.position as usize,
                        needed: count,
                    })
                    &&& final(self)@ == old(self)@
                },
            },
    {
        proof {
            use_type_invariant(&*self);
        }
        if count > self.bytes.len() - self.position {
            return Err(DecodeError::UnexpectedEof { offset: self.position, needed: count });
        }
        let start = self.position;
        let bytes = &self.bytes[start..start + count];
        self.position = start + count;
        Ok(bytes)
    }

    /// Moves past the next `count` bytes without looking at them, or reports
    /// that the input is too short and stays in place.
    pub fn skip(&mut self, count: usize) -> (skipped: Result<(), DecodeError>)
        ensures
            match skipped {
                Ok(_) => {
                    &&& count <= old(self)@.remaining()
                    &&& final(self)@ == old(self)@.advanced(count as nat)
                },
                Err(e) => {
                    &&& count > old(self)@.remaining()
                    &&& e == (DecodeError::UnexpectedEof {
                        offset: old(self)@.position as usize,
                        needed: count,
                    })
                    &&& final(self)@ == old(self)@
                },
            },
    {
        proof {
            use_type_invariant(&*self);
        }
        if count > self.bytes.len() - self.position {
            return Err(DecodeError::UnexpectedEof { offset: self.position, needed: count });
        }
        self.position = self.position + count;
        Ok(())
    }
}

} // verus!
