//! Small string helpers shared across the crate.

use vstd::prelude::*;

verus! {

use vstd::string::StringSliceAdditionalSpecFns;

/// Relies on String::push: appends exactly one character.
#[verifier::external_body]
pub fn push_char(s: &mut String, c: char)
    ensures
        final(s)@ == old(s)@.push(c),
{
    s.push(c);
}

/// `p` is a prefix of `s`, byte for byte.
pub open spec fn starts_with_bytes(s: Seq<u8>, p: Seq<u8>) -> bool {
    p.len() <= s.len() && s.subrange(0, p.len() as int) == p
}

/// Whether `prefix` is a byte-for-byte prefix of `s`.
pub fn str_starts_with(s: &str, prefix: &str) -> (r: bool)
    ensures
        r == starts_with_bytes(s.spec_bytes(), prefix.spec_bytes()),
{
    let sb = s.as_bytes();
    let pb = prefix.as_bytes();
    if pb.len() > sb.len() {
        return false;
    }
    let mut i: usize = 0;
    while i < pb.len()
        invariant
            i <= pb.len() <= sb.len(),
            sb@ == s.spec_bytes(),
            pb@ == prefix.spec_bytes(),
            forall|k: int| 0 <= k < i ==> sb@[k] == #[trigger] pb@[k],
        decreases pb.len() - i,
    {
        if sb[i] != pb[i] {
            proof {
                assert(s.spec_bytes().subrange(0, pb@.len() as int)[i as int]
                    == s.spec_bytes()[i as int]);
            }
            return false;
        }
        i = i + 1;
    }
    proof {
        assert(s.spec_bytes().subrange(0, pb@.len() as int) =~= pb@);
    }
    true
}

} // verus!
