//! Local identifier construction: the single naming rule that turns a display
//! name into the identifier segment used inside an IRI.
use vstd::prelude::*;
use vstd::string::*;

verus! {

/// The local identifier derived from a display name: the same characters,
/// with every space replaced by an underscore.
pub open spec fn spec_local_identifier(name: Seq<char>) -> Seq<char> {
    name.map_values(|c: char| if c == ' ' { '_' } else { c })
}

/// Derives the local identifier segment for `name`: spaces become
/// underscores, every other character is kept.
///
/// Distinct display names that differ only in spaces versus underscores
/// collapse to one identifier; later stages then merge them into one subject.
pub fn local_identifier(name: &str) -> (r: String)
    ensures
        r@ == spec_local_identifier(name@),
{
    let n = name.unicode_len();
    let mut out = String::new();
    let mut i: usize = 0;
    while i < n
        invariant
            i <= n,
            n == name@.len(),
            out@ == spec_local_identifier(name@.take(i as int)),
        decreases n - i,
    {
        let c = name.get_char(i);
        if c == ' ' {
            out.append("_");
        } else {
            let piece = name.substring_char(i, i + 1);
            out.append(piece);
        }
        proof {
            reveal_strlit("_");
            assert(spec_local_identifier(name@.take(i + 1)) =~= spec_local_identifier(
                name@.take(i as int),
            ) + seq![if name@[i as int] == ' ' { '_' } else { name@[i as int] }]);
        }
        i = i + 1;
    }
    proof {
        assert(name@.take(n as int) =~= name@);
    }
    out
}

/// Whether `s` holds the character `c` anywhere.
pub open spec fn spec_contains_char(s: Seq<char>, c: char) -> bool {
    exists|i: int| 0 <= i < s.len() && s[i] == c
}

/// Whether `s` holds the character `c` anywhere.
pub fn contains_char(s: &str, c: char) -> (r: bool)
    ensures
        r == spec_contains_char(s@, c),
{
    let n = s.unicode_len();
    let mut i: usize = 0;
    while i < n
        invariant
            i <= n,
            n == s@.len(),
            forall|j: int| 0 <= j < i ==> s@[j] != c,
        decreases n - i,
    {
        if s.get_char(i) == c {
            return true;
        }
        i = i + 1;
    }
    false
}

} // verus!
