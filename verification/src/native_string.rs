//! Byte strings in the form a C entry point expects: no NUL inside, one
//! NUL at the end.

use vstd::prelude::*;
use vstd::string::StringSliceAdditionalSpecFns;

verus! {

/// No byte of `s` is NUL.
pub open spec fn nul_free(s: Seq<u8>) -> bool {
    forall|i: int| 0 <= i < s.len() ==> s[i] != 0u8
}

/// `at` is the position of the first NUL byte of `s`.
pub open spec fn first_nul_at(s: Seq<u8>, at: int) -> bool {
    &&& 0 <= at < s.len()
    &&& s[at] == 0u8
    &&& forall|i: int| 0 <= i < at ==> s[i] != 0u8
}

/// The bytes of `lld`, the name the backend is run under.
pub open spec fn program_name() -> Seq<u8> {
    seq![0x6cu8, 0x6cu8, 0x64u8]
}

/// The input held a NUL byte, which a C string cannot carry.
#[derive(Debug, Clone, Copy, PartialEq, Eq)]
pub struct NulError {
    /// Index of the first NUL byte in the rejected input.
    pub position: usize,
}

/// An owned C string: the content bytes followed by a single terminator.
///
/// The view is the content, without the terminator.
#[derive(Debug)]
pub struct NativeString {
    bytes: Vec<u8>,
}

impl View for NativeString {
    type V = Seq<u8>;

    closed spec fn view(&self) -> Seq<u8> {
        self.bytes@.drop_last()
    }
}

impl NativeString {
    #[verifier::type_invariant]
    spec fn well_formed(&self) -> bool {
        &&& self.bytes@.len() >= 1
        &&& self.bytes@.last() == 0u8
        &&& nul_free(self.bytes@.drop_last())
    }

    /// Copies `bytes` and appends the terminator. Fails on the first NUL
    /// byte found in `bytes`, and only then.
    pub fn new(bytes: &[u8]) -> (r: Result<NativeString, NulError>)
        ensures
            match r {
                Ok(s) => nul_free(bytes@) && s@ == bytes@,
                Err(e) => first_nul_at(bytes@, e.position as int),
            },
    {
        let mut buf: Vec<u8> = Vec::new();
        let mut i: usize = 0;
        while i < bytes.len()
            invariant
                i <= bytes@.len(),
                buf@ == bytes@.take(i as int),
                nul_free(buf@),
            decreases bytes@.len() - i,
        {
            let b: u8 = bytes[i];
            if b == 0u8 {
                assert forall|j: int| 0 <= j < i implies bytes@[j] != 0u8 by {
                    assert(buf@[j] == bytes@[j]);
                }
                return Err(NulError { position: i });
            }
            buf.push(b);
            i += 1;
            assert(buf@ == bytes@.take(i as int));
        }
        assert(buf@ == bytes@);
        let ghost content = buf@;
        buf.push(0u8);
        assert(buf@.drop_last() == content);
        Ok(NativeString { bytes: buf })
    }

    /// The name under which the backend is run: `lld`.
    pub fn program_name() -> (name: NativeString)
        ensures
            name@ == program_name(),
    {
        let mut buf: Vec<u8> = Vec::new();
        buf.push(0x6cu8);
        buf.push(0x6cu8);
        buf.push(0x64u8);
        buf.push(0u8);
        assert(buf@.drop_last() =~= program_name());
        NativeString { bytes: buf }
    }

    /// The UTF-8 bytes of `s` as a C string. Fails exactly when `s`
    /// holds a NUL character.
    pub fn from_str(s: &str) -> (r: Result<NativeString, NulError>)
        ensures
            match r {
                Ok(n) => nul_free(s.spec_bytes()) && n@ == s.spec_bytes(),
                Err(e) => first_nul_at(s.spec_bytes(), e.position as int),
            },
    {
        NativeString::new(s.as_bytes())
    }

    /// The content followed by the terminator: what a `char*` points at.
    pub fn as_bytes_with_nul(&self) -> (r: &[u8])
        ensures
            r@ == self@.push(0u8),
            nul_free(self@),
    {
        proof {
            use_type_invariant(self);
            assert(self.bytes@ == self.bytes@.drop_last().push(0u8));
        }
        self.bytes.as_slice()
    }

    /// Number of content bytes, the terminator not counted.
    pub fn len(&self) -> (n: usize)
        ensures
            n == self@.len(),
    {
        proof {
            use_type_invariant(self);
        }
        self.bytes.len() - 1
    }
}

} // verus!
