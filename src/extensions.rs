//! File extensions: the suffixes that route a file to an adapter.
use vstd::prelude::*;
use vstd::string::StringSliceAdditionalSpecFns;

verus! {

/// The byte `.`, which separates a file name from its extensions.
pub const DOT: u8 = 46;

/// A file path carries extension `ext` when it ends with a dot followed by
/// `ext`. Extensions may themselves hold dots (`level.json`), so a file named
/// `trees.level.json` carries both `level.json` and `json`.
pub open spec fn has_extension(path: Seq<u8>, ext: Seq<u8>) -> bool {
    &&& 0 < ext.len() < path.len()
    &&& path.subrange(path.len() - ext.len(), path.len() as int) == ext
    &&& path[path.len() - ext.len() - 1] == DOT
}

/// Some extension of the list is carried by `path`.
pub open spec fn matches_any(extensions: Seq<&str>, path: Seq<u8>) -> bool {
    exists|i: int| 0 <= i < extensions.len() && has_extension(path, #[trigger] extensions[i].spec_bytes())
}

/// Copy an extension list, keeping its order.
pub fn copy_extensions(extensions: &[&'static str]) -> (r: Vec<&'static str>)
    ensures
        r@ == extensions@,
{
    vstd::slice::slice_to_vec(extensions)
}

/// Whether `path` carries the extension `ext`.
pub fn path_has_extension(path: &str, ext: &str) -> (r: bool)
    ensures
        r == has_extension(path.spec_bytes(), ext.spec_bytes()),
{
    let p = path.as_bytes();
    let e = ext.as_bytes();
    let pl = p.len();
    let el = e.len();
    if el == 0 || el >= pl {
        return false;
    }
    let start: usize = pl - el;
    if p[start - 1] != DOT {
        return false;
    }
    let mut i: usize = 0;
    while i < el
        invariant
            p@ == path.spec_bytes(),
            e@ == ext.spec_bytes(),
            pl == p@.len(),
            el == e@.len(),
            0 < el < pl,
            start == pl - el,
            i <= el,
            forall|j: int| 0 <= j < i ==> p@[start + j] == e@[j],
        decreases el - i,
    {
        if p[start + i] != e[i] {
            assert(p@.subrange(start as int, pl as int)[i as int] != e@[i as int]);
            return false;
        }
        i = i + 1;
    }
    assert(p@.subrange(start as int, pl as int) =~= e@);
    true
}

/// Whether `path` carries one of `extensions`.
pub fn matches_extensions(extensions: &[&'static str], path: &str) -> (r: bool)
    ensures
        r == matches_any(extensions@, path.spec_bytes()),
{
    let mut i: usize = 0;
    while i < extensions.len()
        invariant
            i <= extensions@.len(),
            forall|j: int| 0 <= j < i ==> !has_extension(path.spec_bytes(), #[trigger] extensions@[j].spec_bytes()),
        decreases extensions@.len() - i,
    {
        if path_has_extension(path, extensions[i]) {
            return true;
        }
        i = i + 1;
    }
    false
}

} // verus!
