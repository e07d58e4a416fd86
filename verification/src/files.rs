//! Paths as text: which of them exist, how a folder and a name are joined,
//! and what the last component of a path is.

use vstd::prelude::*;
use crate::environment::{expand, expand_spec, Environment};
use crate::text::{same_text, to_chars};

verus! {

/// A record of the paths that were found to exist. Every other path counts
/// as missing, which is also how a failed query is recorded.
#[derive(Debug)]
pub struct FileSnapshot {
    present: Vec<String>,
}

impl View for FileSnapshot {
    type V = Set<Seq<char>>;

    closed spec fn view(&self) -> Set<Seq<char>> {
        Set::new(
            |path: Seq<char>|
                exists|i: int| 0 <= i < self.present.len() && self.present[i]@ == path,
        )
    }
}

impl FileSnapshot {
    /// A snapshot in which nothing exists.
    pub fn new() -> (r: Self)
        ensures
            r@ == Set::<Seq<char>>::empty(),
    {
        let r = FileSnapshot { present: Vec::new() };
        assert(r@ =~= Set::<Seq<char>>::empty());
        r
    }

    /// Records that `path` exists.
    pub fn record(&mut self, path: &str)
        ensures
            final(self)@ == old(self)@.insert(path@),
    {
        self.present.push(path.to_owned());
        proof {
            let before = old(self).present@;
            let after = self.present@;
            assert forall|p: Seq<char>| self@.contains(p) == old(self)@.insert(path@).contains(
                p,
            ) by {
                if old(self)@.contains(p) {
                    let i = choose|i: int| 0 <= i < before.len() && before[i]@ == p;
                    assert(after[i]@ == p);
                }
                if p == path@ {
                    assert(after[after.len() - 1]@ == p);
                }
            }
            assert(self@ =~= old(self)@.insert(path@));
        }
    }

    /// Whether `path`, taken literally, was recorded as existing.
    pub fn contains(&self, path: &str) -> (r: bool)
        ensures
            r == self@.contains(path@),
    {
        let mut i: usize = 0;
        while i < self.present.len()
            invariant
                i <= self.present.len(),
                forall|k: int| 0 <= k < i ==> self.present[k]@ != path@,
            decreases self.present.len() - i,
        {
            if same_text(self.present[i].as_str(), path) {
                return true;
            }
            i = i + 1;
        }
        false
    }
}

/// Whether a stored path refers to something that exists: the path is
/// expanded first, and the result is looked up in the snapshot.
pub fn path_exists(path: &str, env: &Environment, files: &FileSnapshot) -> (r: bool)
    ensures
        r == files@.contains(expand_spec(path@, env@)),
{
    let resolved = expand(path, env);
    files.contains(resolved.as_str())
}

/// What a stored path resolves to, if that exists.
pub open spec fn existing_spec(
    path: Seq<char>,
    vars: Map<Seq<char>, Seq<char>>,
    files: Set<Seq<char>>,
) -> Option<Seq<char>> {
    if files.contains(expand_spec(path, vars)) {
        Some(expand_spec(path, vars))
    } else {
        None
    }
}

/// Resolves a stored path and returns the result if it exists.
pub fn existing_path(path: &str, env: &Environment, files: &FileSnapshot) -> (r: Option<String>)
    ensures
        match r {
            Some(resolved) => existing_spec(path@, env@, files@) == Some(resolved@),
            None => existing_spec(path@, env@, files@) is None,
        },
{
    let resolved = expand(path, env);
    if files.contains(resolved.as_str()) {
        Some(resolved)
    } else {
        None
    }
}

/// The path of `name` inside `folder`. A name that starts at the root stands
/// for itself; otherwise a single `/` separates the two unless the folder is
/// empty or already ends in one.
pub open spec fn join_spec(folder: Seq<char>, name: Seq<char>) -> Seq<char> {
    if name.len() > 0 && name[0] == '/' {
        name
    } else if folder.len() == 0 || folder.last() == '/' {
        folder + name
    } else {
        folder + "/"@ + name
    }
}

/// Joins a folder and a name into one path.
pub fn join_path(folder: &str, name: &str) -> (r: String)
    ensures
        r@ == join_spec(folder@, name@),
{
    let head = to_chars(folder);
    let tail = to_chars(name);
    if tail.len() > 0 && tail[0] == '/' {
        return name.to_owned();
    }
    let mut joined = folder.to_owned();
    if head.len() > 0 && head[head.len() - 1] != '/' {
        joined.append("/");
    }
    joined.append(name);
    joined
}

/// Where the last component of a path begins: just behind its last `/`, or
/// at its start when it has none.
pub open spec fn basename_start(path: Seq<char>) -> int
    decreases path.len(),
{
    if path.len() == 0 {
        0
    } else if path.last() == '/' {
        path.len() as int
    } else {
        basename_start(path.drop_last())
    }
}

/// The last component of a path: what follows its last `/`.
pub open spec fn basename_spec(path: Seq<char>) -> Seq<char> {
    path.skip(basename_start(path))
}

/// The last component holds no `/`, and what stands before it is empty or
/// ends in `/`.
pub proof fn lemma_basename(path: Seq<char>)
    ensures
        0 <= basename_start(path) <= path.len(),
        !basename_spec(path).contains('/'),
        basename_start(path) > 0 ==> path[basename_start(path) - 1] == '/',
    decreases path.len(),
{
    if path.len() > 0 && path.last() != '/' {
        let shorter = path.drop_last();
        lemma_basename(shorter);
        let start = basename_start(path);
        assert forall|i: int| 0 <= i < basename_spec(path).len() implies basename_spec(path)[i]
            != '/' by {
            if i < basename_spec(shorter).len() {
                assert(basename_spec(shorter)[i] == shorter[start + i]);
            }
        }
    }
}

/// Extracts the last component of a path.
pub fn basename(path: &str) -> (r: String)
    ensures
        r@ == basename_spec(path@),
{
    let chars = to_chars(path);
    let mut start: usize = chars.len();
    assert(path@.take(start as int) =~= path@);
    while start > 0 && chars[start - 1] != '/'
        invariant
            chars@ == path@,
            start <= chars.len(),
            basename_start(path@) == basename_start(path@.take(start as int)),
        decreases start,
    {
        proof {
            assert(path@.take(start as int).drop_last() =~= path@.take(start - 1));
        }
        start = start - 1;
    }
    let len = path.unicode_len();
    path.substring_char(start, len).to_owned()
}

} // verus!
