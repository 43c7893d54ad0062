//! Template instantiation: substituting a namespace into a static text that
//! carries `{}` placeholders.
use vstd::prelude::*;
use vstd::string::*;

verus! {

/// The text with every `{}` placeholder replaced by `value`, scanning left
/// to right without overlap.
pub open spec fn spec_instantiate_template(template: Seq<char>, value: Seq<char>) -> Seq<char>
    decreases template.len(),
{
    if template.len() == 0 {
        Seq::empty()
    } else if template.len() >= 2 && template[0] == '{' && template[1] == '}' {
        value + spec_instantiate_template(template.skip(2), value)
    } else {
        seq![template[0]] + spec_instantiate_template(template.skip(1), value)
    }
}

/// Replaces every `{}` placeholder in `template` by `value`, left to right.
pub fn instantiate_template(template: &str, value: &str) -> (r: String)
    ensures
        r@ == spec_instantiate_template(template@, value@),
{
    let n = template.unicode_len();
    let mut out = String::new();
    let mut i: usize = 0;
    proof {
        assert(template@.skip(0) =~= template@);
        assert(out@ + spec_instantiate_template(template@, value@) =~= spec_instantiate_template(
            template@,
            value@,
        ));
    }
    while i < n
        invariant
            i <= n,
            n == template@.len(),
            out@ + spec_instantiate_template(template@.skip(i as int), value@)
                == spec_instantiate_template(template@, value@),
        decreases n - i,
    {
        let ghost rest = template@.skip(i as int);
        if template.get_char(i) == '{' && i + 1 < n && template.get_char(i + 1) == '}' {
            out.append(value);
            proof {
                assert(rest[0] == template@[i as int]);
                assert(rest[1] == template@[i as int + 1]);
                assert(rest.skip(2) =~= template@.skip(i as int + 2));
                assert(out@ + spec_instantiate_template(template@.skip(i as int + 2), value@)
                    =~= spec_instantiate_template(template@, value@));
            }
            i = i + 2;
        } else {
            let piece = template.substring_char(i, i + 1);
            out.append(piece);
            proof {
                assert(rest[0] == template@[i as int]);
                assert(piece@ =~= seq![rest[0]]);
                assert(rest.skip(1) =~= template@.skip(i as int + 1));
                assert(out@ + spec_instantiate_template(template@.skip(i as int + 1), value@)
                    =~= spec_instantiate_template(template@, value@));
            }
            i = i + 1;
        }
    }
    proof {
        assert(template@.skip(n as int) =~= Seq::<char>::empty());
        assert(out@ =~= spec_instantiate_template(template@, value@));
    }
    out
}

} // verus!
