//! Formatting of module paths in error messages.

use vstd::prelude::*;
use crate::text::push_str_chars;
use crate::text::chars_to_string;

verus! {

/// The parts joined, with `sep` between each two neighbours.
pub open spec fn join_with(parts: Seq<Seq<char>>, sep: Seq<char>) -> Seq<char>
    decreases parts.len(),
{
    if parts.len() == 0 {
        Seq::empty()
    } else if parts.len() == 1 {
        parts[0]
    } else {
        join_with(parts.subrange(0, parts.len() - 1), sep) + sep + parts[parts.len() - 1]
    }
}

/// The separator of module paths: `::`.
pub open spec fn path_separator() -> Seq<char> {
    seq![':', ':']
}

/// The module path written from its parts, e.g. `["main", "database"]` gives
/// `main::database`.
pub fn fmterr_module(mods: Vec<&str>) -> (r: String)
    ensures
        r@ == join_with(mods@.map_values(|m: &str| m@), path_separator()),
{
    let ghost views = mods@.map_values(|m: &str| m@);
    let mut buf: Vec<char> = Vec::new();
    let mut i: usize = 0;
    while i < mods.len()
        invariant
            i <= mods@.len(),
            views == mods@.map_values(|m: &str| m@),
            buf@ == join_with(views.take(i as int), path_separator()),
        decreases mods.len() - i,
    {
        assert(views.take(i + 1).subrange(0, i as int) =~= views.take(i as int));
        if i > 0 {
            buf.push(':');
            buf.push(':');
        }
        push_str_chars(&mut buf, mods[i]);
        proof {
            if i == 0 {
                assert(buf@ =~= views.take(1)[0]);
            } else {
                assert(buf@ =~= join_with(views.take(i as int), path_separator()) + path_separator()
                    + views[i as int]);
            }
        }
        i += 1;
    }
    assert(views.take(i as int) =~= views);
    chars_to_string(buf.as_slice())
}

} // verus!
