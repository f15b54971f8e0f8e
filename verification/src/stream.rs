//! The byte streams through which a plugin saves and loads its state.
//!
//! A stream may pretend to be buffered: it then accepts or hands out at most a fixed number of
//! bytes per call, to test that the plugin handles short reads and writes.

use vstd::prelude::*;

verus! {

/// The smaller of a requested size and an optional limit.
pub open spec fn limited(size: u64, max: Option<usize>) -> nat {
    match max {
        Some(m) => if (m as nat) < (size as nat) {
            m as nat
        } else {
            size as nat
        },
        None => size as nat,
    }
}

/// A stream the plugin reads its state from.
pub struct ByteReader {
    data: Vec<u8>,
    position: usize,
    max_read_size: Option<usize>,
}

impl ByteReader {
    /// All bytes of the stream.
    pub closed spec fn spec_data(&self) -> Seq<u8> {
        self.data@
    }

    /// How many bytes were read so far.
    pub closed spec fn spec_position(&self) -> nat {
        self.position as nat
    }

    /// The most bytes handed out per read, if limited.
    pub closed spec fn spec_max(&self) -> Option<usize> {
        self.max_read_size
    }

    #[verifier::type_invariant]
    spec fn inv(self) -> bool {
        self.position <= self.data@.len()
    }

    /// A stream over `data`, handing out at most `max_read_size` bytes per read if given.
    pub fn new(data: Vec<u8>, max_read_size: Option<usize>) -> (r: ByteReader)
        ensures
            r.spec_data() == data@,
            r.spec_position() == 0,
            r.spec_max() == max_read_size,
    {
        ByteReader { data, position: 0, max_read_size }
    }

    /// Read up to `size` bytes: the next bytes of the stream, as many as requested, allowed by
    /// the limit, and left.
    pub fn read(&mut self, size: u64) -> (r: Vec<u8>)
        ensures
            final(self).spec_data() == old(self).spec_data(),
            final(self).spec_max() == old(self).spec_max(),
            old(self).spec_position() <= old(self).spec_data().len(),
            r@.len() == if limited(size, old(self).spec_max()) < old(self).spec_data().len() - old(
                self,
            ).spec_position() {
                limited(size, old(self).spec_max())
            } else {
                (old(self).spec_data().len() - old(self).spec_position()) as nat
            },
            r@ == old(self).spec_data().subrange(
                old(self).spec_position() as int,
                (old(self).spec_position() + r@.len()) as int,
            ),
            final(self).spec_position() == old(self).spec_position() + r@.len(),
    {
        proof {
            use_type_invariant(&*self);
        }
        let size: u64 = match self.max_read_size {
            Some(max) => if (max as u64) < size {
                max as u64
            } else {
                size
            },
            None => size,
        };
        let left = self.data.len() - self.position;
        let count: usize = if (size as u128) < (left as u128) {
            size as usize
        } else {
            left
        };
        let mut out: Vec<u8> = Vec::new();
        let mut k: usize = 0;
        let start = self.position;
        let len = self.data.len();
        while k < count
            invariant
                start == self.position,
                len == self.data@.len(),
                start + count <= len,
                k <= count,
                out@ == self.data@.subrange(start as int, start + k),
            decreases count - k,
        {
            out.push(self.data[start + k]);
            proof {
                assert(out@ =~= self.data@.subrange(start as int, start + k + 1));
            }
            k = k + 1;
        }
        self.position = self.position + count;
        out
    }
}

/// A stream the plugin writes its state to.
pub struct ByteWriter {
    data: Vec<u8>,
    max_write_size: Option<usize>,
}

impl ByteWriter {
    /// The bytes written so far.
    pub closed spec fn spec_data(&self) -> Seq<u8> {
        self.data@
    }

    /// The most bytes accepted per write, if limited.
    pub closed spec fn spec_max(&self) -> Option<usize> {
        self.max_write_size
    }

    /// An empty stream, accepting at most `max_write_size` bytes per write if given.
    pub fn new(max_write_size: Option<usize>) -> (r: ByteWriter)
        ensures
            r.spec_data() == Seq::<u8>::empty(),
            r.spec_max() == max_write_size,
    {
        ByteWriter { data: Vec::new(), max_write_size }
    }

    /// How many of `size` offered bytes a write accepts.
    pub fn accepted_size(&self, size: u64) -> (r: u64)
        ensures
            r == limited(size, self.spec_max()),
    {
        match self.max_write_size {
            Some(max) => if (max as u64) < size {
                max as u64
            } else {
                size
            },
            None => size,
        }
    }

    /// Append the accepted bytes of a write.
    pub fn write(&mut self, bytes: &[u8])
        ensures
            final(self).spec_data() == old(self).spec_data() + bytes@,
            final(self).spec_max() == old(self).spec_max(),
    {
        let mut k: usize = 0;
        let ghost start = self.data@;
        while k < bytes.len()
            invariant
                k <= bytes@.len(),
                self.data@ == start + bytes@.subrange(0, k as int),
                self.max_write_size == old(self).max_write_size,
            decreases bytes.len() - k,
        {
            self.data.push(bytes[k]);
            proof {
                assert(self.data@ =~= start + bytes@.subrange(0, k + 1));
            }
            k = k + 1;
        }
        assert(bytes@.subrange(0, k as int) =~= bytes@);
    }

    /// Take the bytes written.
    pub fn take(self) -> (r: Vec<u8>)
        ensures
            r@ == self.spec_data(),
    {
        self.data
    }
}

} // verus!
