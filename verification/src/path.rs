//! Directory paths held as text, joined the way Unix paths are.

use vstd::prelude::*;

verus! {

/// The separator between the components of a path.
pub const SEPARATOR: char = '/';

/// Whether a path starts at the root of the file system.
pub open spec fn is_absolute(part: Seq<char>) -> bool {
    part.len() > 0 && part[0] == SEPARATOR
}

/// Whether a separator has to be put between `base` and what follows it.
pub open spec fn needs_separator(base: Seq<char>) -> bool {
    base.len() > 0 && base.last() != SEPARATOR
}

/// `part` adjoined to `base`: an absolute `part` replaces `base`; otherwise
/// `part` follows `base`, after one separator unless `base` is empty or
/// already ends with one.
pub open spec fn joined(base: Seq<char>, part: Seq<char>) -> Seq<char> {
    if is_absolute(part) {
        part
    } else if needs_separator(base) {
        base.push(SEPARATOR) + part
    } else {
        base + part
    }
}

/// Adjoins `part` to `base`.
pub fn join(base: &str, part: &str) -> (r: String)
    ensures
        r@ == joined(base@, part@),
{
    let base_len: usize = base.unicode_len();
    let part_len: usize = part.unicode_len();
    if part_len > 0 && part.get_char(0) == SEPARATOR {
        return part.to_owned();
    }
    let mut out = base.to_owned();
    if base_len > 0 && base.get_char(base_len - 1) != SEPARATOR {
        proof {
            reveal_strlit("/");
            assert("/"@ =~= seq![SEPARATOR]);
            assert(base@ + "/"@ =~= base@.push(SEPARATOR));
        }
        out.append("/");
    }
    out.append(part);
    out
}

} // verus!
