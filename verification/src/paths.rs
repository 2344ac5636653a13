//! Plain-string path helpers: file extension extraction for output-path
//! construction, and the directory-relative join used to locate the HTML
//! runtime script beside the generated document.

use vstd::prelude::*;

verus! {

/// Scans `path` backward from position `i`, looking for the dot that starts
/// a file extension: the first `.` seen before any `/`.
pub open spec fn spec_find_ext_dot(path: Seq<char>, i: int) -> Option<int>
    decreases i,
{
    if i <= 0 {
        None
    } else if path[i - 1] == '/' {
        None
    } else if path[i - 1] == '.' {
        Some(i - 1)
    } else {
        spec_find_ext_dot(path, i - 1)
    }
}

/// The extension of the final component of `path`: the suffix after its last
/// `.`, provided that dot is neither the component's first character nor its
/// last. `"a/app.css"` has extension `"css"`; `"a/.gitignore"`, `"note."`
/// and `"README"` have none.
pub open spec fn spec_extension(path: Seq<char>) -> Option<Seq<char>> {
    match spec_find_ext_dot(path, path.len() as int) {
        None => None,
        Some(d) => if d > 0 && path[d - 1] != '/' && d + 1 < path.len() {
            Some(path.subrange(d + 1, path.len() as int))
        } else {
            None
        },
    }
}

/// Extracts the file extension of `path`, as [`spec_extension`] describes.
pub fn extension(path: &str) -> (r: Option<String>)
    ensures
        r is Some <==> spec_extension(path@) is Some,
        r matches Some(e) ==> spec_extension(path@) == Some(e@),
{
    let n = path.unicode_len();
    let mut i: usize = n;
    while i > 0
        invariant
            i <= n,
            n == path@.len(),
            spec_find_ext_dot(path@, path@.len() as int) == spec_find_ext_dot(
                path@,
                i as int,
            ),
        decreases i,
    {
        let c = path.get_char(i - 1);
        if c == '/' {
            return None;
        } else if c == '.' {
            if i >= 2 && i < n {
                let prev = path.get_char(i - 2);
                if prev != '/' {
                    let e = path.substring_char(i, n);
                    return Some(e.to_owned());
                } else {
                    return None;
                }
            } else {
                return None;
            }
        }
        i -= 1;
    }
    None
}

/// Scans `path` backward from position `i` for the last `/`.
pub open spec fn spec_find_last_slash(path: Seq<char>, i: int) -> Option<int>
    decreases i,
{
    if i <= 0 {
        None
    } else if path[i - 1] == '/' {
        Some(i - 1)
    } else {
        spec_find_last_slash(path, i - 1)
    }
}

/// The directory prefix of `path`, up to and including its last `/`; empty
/// when `path` has no directory part.
pub open spec fn spec_dir_prefix(path: Seq<char>) -> Seq<char> {
    match spec_find_last_slash(path, path.len() as int) {
        None => Seq::empty(),
        Some(k) => path.subrange(0, k + 1),
    }
}

/// The path of a file that lives at `relative` inside the directory that
/// holds `document_path`.
pub fn sibling_path(document_path: &str, relative: &str) -> (r: String)
    ensures
        r@ == spec_dir_prefix(document_path@) + relative@,
{
    let n = document_path.unicode_len();
    let mut i: usize = n;
    while i > 0
        invariant
            i <= n,
            n == document_path@.len(),
            spec_find_last_slash(document_path@, document_path@.len() as int)
                == spec_find_last_slash(document_path@, i as int),
        decreases i,
    {
        let c = document_path.get_char(i - 1);
        if c == '/' {
            let prefix = document_path.substring_char(0, i);
            let mut r = prefix.to_owned();
            r.append(relative);
            return r;
        }
        i -= 1;
    }
    let mut r = String::new();
    r.append(relative);
    proof {
        assert(r@ =~= spec_dir_prefix(document_path@) + relative@);
    }
    r
}

} // verus!
