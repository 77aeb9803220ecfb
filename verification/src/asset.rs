//! Byte source behind a tape: an ordered, seekable, finite byte sequence.

use vstd::prelude::*;

verus! {

/// Failure of a byte-source operation: a read past the end of the data or a
/// seek to a position the source cannot represent.
#[derive(Debug, Clone, Copy, PartialEq, Eq, Structural)]
pub struct AssetError;

/// Origin of a seek.
#[derive(Debug, Clone, Copy, PartialEq, Eq, Structural)]
pub enum SeekFrom {
    /// Absolute position from the start of the data.
    Start(usize),
    /// Offset from the current position.
    Current(i64),
    /// Offset from the end of the data.
    End(i64),
}

/// The absolute position a seek aims at.
pub open spec fn seek_target(from: SeekFrom, pos: nat, len: nat) -> int {
    match from {
        SeekFrom::Start(p) => p as int,
        SeekFrom::Current(d) => pos + d,
        SeekFrom::End(d) => len + d,
    }
}

/// A byte source the engine can read from: a finite byte sequence with a
/// read position.  Reads and seeks are deterministic in the model `data` and
/// `pos`; a read succeeds exactly when it lies inside the data, a seek
/// exactly when the target is representable.
pub trait TapeAsset: Sized {
    /// The whole byte sequence behind the source.
    spec fn data(&self) -> Seq<u8>;

    /// The current read position.
    spec fn pos(&self) -> nat;

    /// Read exactly `n` bytes at the current position, advancing it.
    fn read_exact(&mut self, n: usize) -> (r: Result<Vec<u8>, AssetError>)
        ensures
            final(self).data() == old(self).data(),
            old(self).pos() + n <= old(self).data().len() ==> {
                &&& r matches Ok(v) && v@ == old(self).data().subrange(
                    old(self).pos() as int,
                    old(self).pos() + n,
                )
                &&& final(self).pos() == old(self).pos() + n
            },
            old(self).pos() + n > old(self).data().len() ==> {
                &&& r is Err
                &&& final(self).pos() == old(self).pos()
            },
    ;

    /// Move the read position, returning the new absolute position.
    fn seek(&mut self, from: SeekFrom) -> (r: Result<usize, AssetError>)
        ensures
            final(self).data() == old(self).data(),
            ({
                let target = seek_target(from, old(self).pos(), old(self).data().len());
                if 0 <= target <= usize::MAX {
                    &&& r matches Ok(p) && p == target
                    &&& final(self).pos() == target
                } else {
                    &&& r is Err
                    &&& final(self).pos() == old(self).pos()
                }
            }),
    ;
}

/// A tape held entirely in memory.
pub struct InMemoryAsset {
    bytes: Vec<u8>,
    position: usize,
}

impl InMemoryAsset {
    /// Wrap a byte vector as a tape positioned at its start.
    pub fn new(bytes: Vec<u8>) -> (r: Self)
        ensures
            r.data() == bytes@,
            r.pos() == 0,
    {
        InMemoryAsset { bytes, position: 0 }
    }
}

impl TapeAsset for InMemoryAsset {
    closed spec fn data(&self) -> Seq<u8> {
        self.bytes@
    }

    closed spec fn pos(&self) -> nat {
        self.position as nat
    }

    fn read_exact(&mut self, n: usize) -> (r: Result<Vec<u8>, AssetError>) {
        if self.position <= self.bytes.len() && n <= self.bytes.len() - self.position {
            let mut v: Vec<u8> = Vec::new();
            let mut i: usize = 0;
            while i < n
                invariant
                    i <= n,
                    self.position + n <= self.bytes.len(),
                    v@ == self.bytes@.subrange(self.position as int, self.position + i),
                decreases n - i,
            {
                v.push(self.bytes[self.position + i]);
                i = i + 1;
                proof {
                    assert(v@ =~= self.bytes@.subrange(
                        self.position as int,
                        self.position + i,
                    ));
                }
            }
            self.position = self.position + n;
            Ok(v)
        } else {
            Err(AssetError)
        }
    }

    fn seek(&mut self, from: SeekFrom) -> (r: Result<usize, AssetError>) {
        match from {
            SeekFrom::Start(p) => {
                self.position = p;
                Ok(p)
            },
            SeekFrom::Current(d) => {
                let target: i128 = self.position as i128 + d as i128;
                if 0 <= target && target <= usize::MAX as i128 {
                    self.position = target as usize;
                    Ok(self.position)
                } else {
                    Err(AssetError)
                }
            },
            SeekFrom::End(d) => {
                let target: i128 = self.bytes.len() as i128 + d as i128;
                if 0 <= target && target <= usize::MAX as i128 {
                    self.position = target as usize;
                    Ok(self.position)
                } else {
                    Err(AssetError)
                }
            },
        }
    }
}

} // verus!
