//! Bounded text buffer used to build the replies of the command line.

use vstd::prelude::*;
use vstd::string::StringSliceAdditionalSpecFns;

verus! {

/// Error of a write that does not fit in the buffer.
#[derive(Debug, Clone, Copy, PartialEq, Eq, Structural)]
pub enum UBufferError {
    /// The buffer would exceed its capacity.
    OutOfMemory,
}

/// Buffer of at most `N` bytes. A write either fits entirely or leaves the
/// buffer unchanged.
pub struct UBuffer<const N: usize> {
    inner: Vec<u8>,
}

impl<const N: usize> View for UBuffer<N> {
    type V = Seq<u8>;

    closed spec fn view(&self) -> Seq<u8> {
        self.inner@
    }
}

impl<const N: usize> Clone for UBuffer<N> {
    fn clone(&self) -> (r: Self)
        ensures
            r@ == self@,
    {
        proof {
            use_type_invariant(self);
        }
        UBuffer { inner: self.inner.clone() }
    }
}

impl<const N: usize> UBuffer<N> {
    #[verifier::type_invariant]
    spec fn fits(self) -> bool {
        self.inner@.len() <= N
    }

    /// An empty buffer.
    pub fn new() -> (r: Self)
        ensures
            r@ == Seq::<u8>::empty(),
    {
        UBuffer { inner: Vec::new() }
    }

    /// A buffer holding `World`.
    pub fn default() -> (r: Self)
        requires
            N >= 5,
        ensures
            r@ == seq![87u8, 111u8, 114u8, 108u8, 100u8],
    {
        let mut inner: Vec<u8> = Vec::new();
        inner.push(87);
        inner.push(111);
        inner.push(114);
        inner.push(108);
        inner.push(100);
        assert(inner@ =~= seq![87u8, 111u8, 114u8, 108u8, 100u8]);
        UBuffer { inner }
    }

    /// Number of bytes held.
    pub fn len(&self) -> (r: usize)
        ensures
            r == self@.len(),
            r <= N,
    {
        proof {
            use_type_invariant(self);
        }
        self.inner.len()
    }

    /// The bytes held.
    pub fn as_bytes(&self) -> (r: &[u8])
        ensures
            r@ == self@,
    {
        self.inner.as_slice()
    }

    /// Appends `b` when it fits; otherwise `OutOfMemory` and the buffer is
    /// unchanged.
    pub fn write_bytes(&mut self, b: &[u8]) -> (r: Result<(), UBufferError>)
        ensures
            old(self)@.len() + b@.len() <= N ==> r == Ok::<(), UBufferError>(()) && final(self)@
                == old(self)@ + b@,
            old(self)@.len() + b@.len() > N ==> r == Err::<(), UBufferError>(
                UBufferError::OutOfMemory,
            ) && final(self)@ == old(self)@,
    {
        proof {
            use_type_invariant(&*self);
        }
        if b.len() > N - self.inner.len() {
            return Err(UBufferError::OutOfMemory);
        }
        let mut v: Vec<u8> = Vec::new();
        std::mem::swap(&mut v, &mut self.inner);
        let ghost start = v@;
        let mut i: usize = 0;
        while i < b.len()
            invariant
                start.len() + b@.len() <= N,
                i <= b@.len(),
                v@ == start + b@.subrange(0, i as int),
            decreases b@.len() - i,
        {
            v.push(b[i]);
            i = i + 1;
            assert(v@ =~= start + b@.subrange(0, i as int));
        }
        assert(b@.subrange(0, b@.len() as int) =~= b@);
        self.inner = v;
        Ok(())
    }

    /// Appends the bytes of `s` when they fit; otherwise `OutOfMemory` and
    /// the buffer is unchanged.
    pub fn write_str(&mut self, s: &str) -> (r: Result<(), UBufferError>)
        ensures
            old(self)@.len() + s.spec_bytes().len() <= N ==> r == Ok::<(), UBufferError>(())
                && final(self)@ == old(self)@ + s.spec_bytes(),
            old(self)@.len() + s.spec_bytes().len() > N ==> r == Err::<(), UBufferError>(
                UBufferError::OutOfMemory,
            ) && final(self)@ == old(self)@,
    {
        self.write_bytes(s.as_bytes())
    }

    /// A buffer holding `b` when it fits; otherwise `OutOfMemory`.
    pub fn from_bytes(b: &[u8]) -> (r: Result<Self, UBufferError>)
        ensures
            b@.len() <= N ==> (r matches Ok(buf) && buf@ == b@),
            b@.len() > N ==> r == Err::<Self, UBufferError>(UBufferError::OutOfMemory),
    {
        let mut buffer = UBuffer::<N>::new();
        match buffer.write_bytes(b) {
            Ok(()) => {
                assert(buffer@ =~= b@);
                Ok(buffer)
            },
            Err(e) => Err(e),
        }
    }

    /// A buffer holding the bytes of `s` when they fit; otherwise
    /// `OutOfMemory`.
    pub fn from_str(s: &str) -> (r: Result<Self, UBufferError>)
        ensures
            s.spec_bytes().len() <= N ==> (r matches Ok(b) && b@ == s.spec_bytes()),
            s.spec_bytes().len() > N ==> r == Err::<Self, UBufferError>(UBufferError::OutOfMemory),
    {
        let mut buffer = UBuffer::<N>::new();
        match buffer.write_str(s) {
            Ok(()) => {
                assert(buffer@ =~= s.spec_bytes());
                Ok(buffer)
            },
            Err(e) => Err(e),
        }
    }
}

} // verus!
