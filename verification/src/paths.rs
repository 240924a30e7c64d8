//! File system paths as byte strings.

use vstd::prelude::*;

use crate::text::copy_bytes;

verus! {

/// The byte that separates the components of a path.
pub const SEPARATOR: u8 = 0x2f;

/// The bytes of a path that may be missing.
pub open spec fn path_view(path: Option<Vec<u8>>) -> Option<Seq<u8>> {
    match path {
        Some(bytes) => Some(bytes@),
        None => None,
    }
}

/// The path `name` as seen from `base`.
///
/// A relative `name` is appended, with a separator in between unless `base` is empty or
/// ends in one. An absolute `name` stands for itself.
pub open spec fn joined(base: Seq<u8>, name: Seq<u8>) -> Seq<u8> {
    if name.len() > 0 && name[0] == SEPARATOR {
        name
    } else if base.len() == 0 || base.last() == SEPARATOR {
        base + name
    } else {
        base.push(SEPARATOR) + name
    }
}

/// Joins `name` to `base`.
pub fn join(base: &[u8], name: &[u8]) -> (path: Vec<u8>)
    ensures
        path@ == joined(base@, name@),
{
    if name.len() > 0 && name[0] == SEPARATOR {
        return copy_bytes(name);
    }
    let mut path = copy_bytes(base);
    if base.len() > 0 && base[base.len() - 1] != SEPARATOR {
        path.push(SEPARATOR);
    }
    let mut tail = copy_bytes(name);
    path.append(&mut tail);
    path
}


/// A relative name comes right behind the base, with exactly one separator in between: the
/// base's own where it ends in one. An absolute name is left as it is, and so is a name behind
/// an empty base.
pub proof fn law_join_puts_one_separator(base: Seq<u8>, name: Seq<u8>)
    ensures
        name.len() > 0 && name[0] == 0x2f ==> joined(base, name) == name,
        joined(Seq::empty(), name) == name,
        !(name.len() > 0 && name[0] == 0x2f) && base.len() > 0 ==> {
            let path = joined(base, name);
            let cut = path.len() - name.len();
            &&& path.subrange(0, base.len() as int) == base
            &&& path.subrange(cut, path.len() as int) == name
            &&& path[cut - 1] == 0x2f
            &&& base.last() == 0x2f ==> cut == base.len()
            &&& base.last() != 0x2f ==> cut == base.len() + 1
        },
{
    let path = joined(base, name);
    assert(joined(Seq::empty(), name) =~= name);
    if !(name.len() > 0 && name[0] == 0x2f) && base.len() > 0 {
        let cut = path.len() - name.len();
        assert(path.subrange(0, base.len() as int) =~= base);
        assert(path.subrange(cut, path.len() as int) =~= name);
    }
}

/// Names can be joined one by one or all at once.
pub proof fn law_join_is_associative(base: Seq<u8>, dir: Seq<u8>, name: Seq<u8>)
    requires
        dir.len() > 0,
    ensures
        joined(joined(base, dir), name) == joined(base, joined(dir, name)),
{
    assert(joined(joined(base, dir), name) =~= joined(base, joined(dir, name)));
}

} // verus!
