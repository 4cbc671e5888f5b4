//! Archive extraction decisions: where each entry of a runtime archive goes,
//! and the refusal of any entry whose path would resolve outside the
//! destination directory.

use crate::errors::LauncherError;
use vstd::prelude::*;
use vstd::string::*;

verus! {

/// Whether position `i` starts a `..` path component: two dots bounded by
/// the string's ends or by slashes.
pub open spec fn dotdot_component_at(s: Seq<char>, i: int) -> bool {
    0 <= i && i + 2 <= s.len() && s[i] == '.' && s[i + 1] == '.' && (i == 0 || s[i - 1] == '/') && (
    i + 2 == s.len() || s[i + 2] == '/')
}

/// Whether an archive entry path stays under the destination once joined to
/// it: non-empty, relative, and free of `..` components.
pub open spec fn safe_entry_path(s: Seq<char>) -> bool {
    s.len() > 0 && s[0] != '/' && !(exists|i: int| dotdot_component_at(s, i))
}

/// Checks an archive entry path for traversal: an absolute path or any `..`
/// component is refused.
pub fn is_safe_entry_path(name: &str) -> (r: bool)
    ensures
        r == safe_entry_path(name@),
{
    let len = name.unicode_len();
    if len == 0 {
        return false;
    }
    if name.get_char(0) == '/' {
        return false;
    }
    let mut i: usize = 0;
    while i < len
        invariant
            i <= len,
            len == name@.len(),
            len > 0,
            name@[0] != '/',
            forall|j: int| 0 <= j < i ==> !dotdot_component_at(name@, j),
        decreases len - i,
    {
        if len - i >= 2 && name.get_char(i) == '.' && name.get_char(i + 1) == '.' && (i == 0
            || name.get_char(i - 1) == '/') && (len - i == 2 || name.get_char(i + 2) == '/') {
            proof {
                assert(dotdot_component_at(name@, i as int));
            }
            return false;
        }
        proof {
            assert(!dotdot_component_at(name@, i as int));
        }
        i = i + 1;
    }
    proof {
        assert forall|j: int| !dotdot_component_at(name@, j) by {
            if 0 <= j && j + 2 <= name@.len() {
                assert(j < len);
            }
        }
    }
    true
}

/// Where an entry goes under the destination directory.
pub open spec fn entry_dest_spec(dest: Seq<char>, name: Seq<char>) -> Seq<char> {
    dest + "/"@ + name
}

/// What to do for one archive entry: create (or clear and recreate) a
/// directory, or write a file, at the given path.
#[derive(Debug)]
pub enum ZipEntryPlan {
    Directory(String),
    File(String),
}

/// Plans one archive entry. An entry whose path would escape the destination
/// (absolute, empty, or carrying a `..` component) is refused as an
/// extraction error; every other entry is placed under the destination, a
/// directory entry to be cleared and recreated, a file entry to be replaced
/// whole.
pub fn plan_zip_entry(dest: &str, entry_name: &str, is_dir: bool) -> (r: Result<
    ZipEntryPlan,
    LauncherError,
>)
    ensures
        !safe_entry_path(entry_name@) ==> r is Err && r->Err_0 is ExtractError,
        safe_entry_path(entry_name@) && is_dir ==> (r matches Ok(ZipEntryPlan::Directory(p))
            && p@ == entry_dest_spec(dest@, entry_name@)),
        safe_entry_path(entry_name@) && !is_dir ==> (r matches Ok(ZipEntryPlan::File(p)) && p@
            == entry_dest_spec(dest@, entry_name@)),
{
    if !is_safe_entry_path(entry_name) {
        return Err(
            LauncherError::ExtractError(
                String::from_str("archive entry would resolve outside the destination"),
            ),
        );
    }
    let mut path = String::from_str(dest);
    path.append("/");
    path.append(entry_name);
    proof {
        assert(path@ =~= entry_dest_spec(dest@, entry_name@));
    }
    if is_dir {
        Ok(ZipEntryPlan::Directory(path))
    } else {
        Ok(ZipEntryPlan::File(path))
    }
}

} // verus!
