//! The argument vector handed to a native entry point.

use crate::native_string::{nul_free, NativeString};
use vstd::prelude::*;

verus! {

/// The contents of a sequence of strings, one per element.
pub open spec fn contents(args: Seq<NativeString>) -> Seq<Seq<u8>> {
    Seq::new(args.len(), |i: int| args[i]@)
}

/// The vector for `args` run under the name `program`: the name first,
/// then the arguments in their order.
pub open spec fn argv_of(program: Seq<u8>, args: Seq<Seq<u8>>) -> Seq<Seq<u8>> {
    seq![program] + args
}

/// Every entry of `argv` is free of NUL bytes, so that each, with its
/// terminator, is one C string.
pub open spec fn entries_nul_free(argv: Seq<Seq<u8>>) -> bool {
    forall|i: int| 0 <= i < argv.len() ==> nul_free(#[trigger] argv[i])
}

/// Borrowed C strings in call order, program name first.
///
/// Each entry is the terminated bytes of one string, borrowed from its
/// owner: none of the strings can be dropped or changed while the
/// vector is in use. The view lists the contents, terminators left out.
pub struct ArgumentVector<'a> {
    entries: Vec<&'a [u8]>,
}

impl<'a> View for ArgumentVector<'a> {
    type V = Seq<Seq<u8>>;

    closed spec fn view(&self) -> Seq<Seq<u8>> {
        Seq::new(self.entries@.len(), |i: int| self.entries@[i]@.drop_last())
    }
}

impl<'a> ArgumentVector<'a> {
    #[verifier::type_invariant]
    spec fn well_formed(&self) -> bool {
        &&& self.entries@.len() >= 1
        &&& forall|i: int|
            0 <= i < self.entries@.len() ==> {
                let bytes = (#[trigger] self.entries@[i])@;
                &&& bytes.len() >= 1
                &&& bytes.last() == 0u8
                &&& nul_free(bytes.drop_last())
            }
    }

    /// Lists `program` and then every element of `args`, in order.
    pub fn build(program: &'a NativeString, args: &'a [NativeString]) -> (argv: ArgumentVector<'a>)
        ensures
            argv@ == argv_of(program@, contents(args@)),
            argv@.len() == args@.len() + 1,
            entries_nul_free(argv@),
    {
        let mut entries: Vec<&'a [u8]> = Vec::new();
        entries.push(program.as_bytes_with_nul());
        assert(program@.push(0u8).drop_last() == program@);
        let mut i: usize = 0;
        while i < args.len()
            invariant
                i <= args@.len(),
                entries@.len() == i + 1,
                entries@[0]@ == program@.push(0u8),
                nul_free(program@),
                forall|j: int|
                    0 <= j < i ==> (#[trigger] entries@[j + 1])@ == args@[j]@.push(0u8) && nul_free(
                        args@[j]@,
                    ),
            decreases args@.len() - i,
        {
            let ghost before = entries@;
            entries.push(args[i].as_bytes_with_nul());
            assert forall|j: int| 0 <= j < i + 1 implies (#[trigger] entries@[j + 1])@ == args@[j]@.push(
                0u8,
            ) && nul_free(args@[j]@) by {
                if j < i {
                    assert(before[j + 1]@ == args@[j]@.push(0u8));
                }
            }
            i += 1;
        }
        let ghost listed = entries@;
        assert forall|k: int| 0 <= k < listed.len() implies {
            let bytes = (#[trigger] listed[k])@;
            &&& bytes.len() >= 1
            &&& bytes.last() == 0u8
            &&& nul_free(bytes.drop_last())
            &&& bytes.drop_last() == argv_of(program@, contents(args@))[k]
        } by {
            if k > 0 {
                assert(listed[(k - 1) + 1]@ == args@[k - 1]@.push(0u8));
                assert(args@[k - 1]@.push(0u8).drop_last() == args@[k - 1]@);
            }
        }
        let argv = ArgumentVector { entries };
        assert(argv@ =~= argv_of(program@, contents(args@)));
        assert forall|k: int| 0 <= k < argv@.len() implies nul_free(#[trigger] argv@[k]) by {
            assert(argv@[k] == listed[k]@.drop_last());
        }
        argv
    }

    /// Number of entries, the program name counted.
    pub fn len(&self) -> (n: usize)
        ensures
            n == self@.len(),
            n >= 1,
    {
        proof {
            use_type_invariant(self);
        }
        self.entries.len()
    }

    /// The terminated bytes of the entry at `index`, if there is one:
    /// what the pointer at that place of a C `argv` points at.
    pub fn entry(&self, index: usize) -> (e: Option<&'a [u8]>)
        ensures
            match e {
                Some(bytes) => index < self@.len() && bytes@ == self@[index as int].push(0u8)
                    && nul_free(self@[index as int]),
                None => index >= self@.len(),
            },
    {
        proof {
            use_type_invariant(self);
        }
        if index < self.entries.len() {
            let bytes = self.entries[index];
            assert(bytes@ == bytes@.drop_last().push(0u8));
            Some(bytes)
        } else {
            None
        }
    }
}

} // verus!
