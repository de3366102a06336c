use vstd::prelude::*;

use crate::errors::LoadError;
use crate::text::str_eq;

verus! {

/// Does the name end with this suffix?
pub open spec fn ends_with(n: Seq<char>, suffix: Seq<char>) -> bool {
    n.len() >= suffix.len() && n.subrange(n.len() - suffix.len(), n.len() as int) == suffix
}

/// Does the name carry this dotted extension after a non-empty stem?
pub open spec fn has_dotted_extension(n: Seq<char>, dot_ext: Seq<char>) -> bool {
    ends_with(n, dot_ext) && n.len() > dot_ext.len()
}

/// Is this the name of an archive bundle?
pub open spec fn is_archive_name(n: Seq<char>) -> bool {
    has_dotted_extension(n, ".zip"@)
}

/// Is this the name of a raw dynamic-library module, under any of the
/// recognized platform conventions?
pub open spec fn is_module_name(n: Seq<char>) -> bool {
    ||| has_dotted_extension(n, ".so"@)
    ||| has_dotted_extension(n, ".dylib"@)
    ||| has_dotted_extension(n, ".dll"@)
}

/// What a directory entry is taken for during discovery.
#[derive(Clone, Copy, PartialEq, Eq, Structural, Debug)]
pub enum EntryKind {
    /// An archive packaging a module with auxiliary assets.
    ArchiveBundle,
    /// A bare dynamic-library module file.
    RawModule,
    /// Anything else; discovery passes it over.
    Unrecognized,
}

/// The classification discovery owes for a file name.
pub open spec fn spec_classify(n: Seq<char>) -> EntryKind {
    if is_archive_name(n) {
        EntryKind::ArchiveBundle
    } else if is_module_name(n) {
        EntryKind::RawModule
    } else {
        EntryKind::Unrecognized
    }
}

/// Does the name end with this suffix?
pub fn str_ends_with(n: &str, suffix: &str) -> (r: bool)
    ensures
        r == ends_with(n@, suffix@),
{
    let ln = n.unicode_len();
    let ls = suffix.unicode_len();
    if ln < ls {
        return false;
    }
    let mut k: usize = 0;
    while k < ls
        invariant
            k <= ls,
            ls <= ln,
            ln == n@.len(),
            ls == suffix@.len(),
            forall|m: int| 0 <= m < k ==> n@[ln - ls + m] == suffix@[m],
        decreases ls - k,
    {
        let cn = n.get_char(ln - ls + k);
        let cs = suffix.get_char(k);
        if cn != cs {
            proof {
                let tail = n@.subrange(n@.len() - suffix@.len(), n@.len() as int);
                assert(tail[k as int] == n@[ln - ls + k]);
            }
            return false;
        }
        k = k + 1;
    }
    proof {
        assert(n@.subrange(n@.len() - suffix@.len(), n@.len() as int) =~= suffix@);
    }
    true
}

/// Does the name carry this dotted extension after a non-empty stem?
fn name_has_extension(n: &str, dot_ext: &str) -> (r: bool)
    ensures
        r == has_dotted_extension(n@, dot_ext@),
{
    str_ends_with(n, dot_ext) && n.unicode_len() > dot_ext.unicode_len()
}

/// Classifies one directory entry by its file name: archive bundles go to the
/// bundle resolver, raw modules to the dynamic loader, anything else is
/// passed over.
pub fn classify_entry(name: &str) -> (k: EntryKind)
    ensures
        k == spec_classify(name@),
{
    if name_has_extension(name, ".zip") {
        EntryKind::ArchiveBundle
    } else if name_has_extension(name, ".so") || name_has_extension(name, ".dylib")
        || name_has_extension(name, ".dll") {
        EntryKind::RawModule
    } else {
        EntryKind::Unrecognized
    }
}

/// Picks the dynamic-library module out of an extracted bundle tree, given
/// the file names found there. Succeeds exactly when the tree holds one such
/// file: none at all is a missing module, two or more are ambiguous.
pub fn select_module_file(files: &Vec<String>) -> (r: Result<usize, LoadError>)
    ensures
        match r {
            Ok(i) => i < files@.len() && is_module_name(files@[i as int]@) && forall|j: int|
                0 <= j < files@.len() && j != i ==> !is_module_name(files@[j]@),
            Err(e) => {
                ||| (e == LoadError::ModuleNotFound && forall|j: int|
                    0 <= j < files@.len() ==> !is_module_name(files@[j]@))
                ||| (e == LoadError::AmbiguousModule && exists|i: int, j: int|
                    0 <= i < j < files@.len() && is_module_name(files@[i]@) && is_module_name(
                        files@[j]@,
                    ))
            },
        },
{
    let n = files.len();
    let mut found: Option<usize> = None;
    let mut j: usize = 0;
    while j < n
        invariant
            j <= n,
            n == files@.len(),
            match found {
                Some(k) => k < j && is_module_name(files@[k as int]@) && forall|m: int|
                    0 <= m < j && m != k ==> !is_module_name(files@[m]@),
                None => forall|m: int| 0 <= m < j ==> !is_module_name(files@[m]@),
            },
        decreases n - j,
    {
        let name = &files[j];
        if name_has_extension(name.as_str(), ".so") || name_has_extension(name.as_str(), ".dylib")
            || name_has_extension(name.as_str(), ".dll") {
            match found {
                None => {
                    found = Some(j);
                },
                Some(k) => {
                    return Err(LoadError::AmbiguousModule);
                },
            }
        }
        j = j + 1;
    }
    match found {
        None => Err(LoadError::ModuleNotFound),
        Some(i) => Ok(i),
    }
}

} // verus!
