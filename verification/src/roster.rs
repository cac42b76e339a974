//! Membership in a fixed allow-list of identities, shared by the
//! kill-switch's operator list and the signature verifier's signer list.

use vstd::prelude::*;

verus! {

/// Whether the allow-list `list` holds the identity `name`.
pub open spec fn in_roster(list: Seq<String>, name: Seq<char>) -> bool {
    exists|i: int| 0 <= i < list.len() && list[i]@ == name
}

/// Scans the allow-list for `name`.
pub(crate) fn roster_holds(list: &Vec<String>, name: &str) -> (r: bool)
    ensures
        r == in_roster(list@, name@),
{
    let wanted: String = name.to_owned();
    let n = list.len();
    for i in 0..n
        invariant
            n == list@.len(),
            wanted@ == name@,
            forall|k: int| 0 <= k < i ==> list@[k]@ != name@,
    {
        if list[i] == wanted {
            return true;
        }
    }
    false
}

} // verus!
