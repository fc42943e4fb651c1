use vstd::prelude::*;

verus! {

/// A 32-byte address: an account, a program, or a program-derived address.
#[derive(Clone, Copy, Debug, Eq)]
pub struct Key {
    pub bytes: [u8; 32],
}

impl Key {
    /// The key whose bytes are `bytes`.
    pub fn new(bytes: [u8; 32]) -> (r: Key)
        ensures
            r.bytes@ == bytes@,
    {
        Key { bytes }
    }

    /// Whether the two keys are the same address.
    pub fn same(&self, other: &Key) -> (r: bool)
        ensures
            r == (self.bytes@ == other.bytes@),
    {
        let mut i: usize = 0;
        while i < 32
            invariant
                i <= 32,
                self.bytes@.subrange(0, i as int) == other.bytes@.subrange(0, i as int),
            decreases 32 - i,
        {
            if self.bytes[i] != other.bytes[i] {
                return false;
            }
            assert(self.bytes@.subrange(0, i + 1) =~= self.bytes@.subrange(0, i as int).push(
                self.bytes@[i as int],
            ));
            assert(other.bytes@.subrange(0, i + 1) =~= other.bytes@.subrange(0, i as int).push(
                other.bytes@[i as int],
            ));
            i = i + 1;
        }
        assert(self.bytes@ =~= self.bytes@.subrange(0, 32));
        assert(other.bytes@ =~= other.bytes@.subrange(0, 32));
        true
    }
}

impl PartialEq for Key {
    fn eq(&self, other: &Key) -> (r: bool) {
        self.same(other)
    }
}

impl vstd::std_specs::cmp::PartialEqSpecImpl for Key {
    open spec fn obeys_eq_spec() -> bool {
        true
    }

    open spec fn eq_spec(&self, other: &Key) -> bool {
        self.bytes@ == other.bytes@
    }
}

} // verus!
