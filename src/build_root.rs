//! Locating the project root by its marker files.

use vstd::prelude::*;

use crate::error::LaunchError;
use crate::path::{join, parent, parent_of, path_join};
use crate::text::{owned, str_eq};

verus! {

/// The marker file names, in the order they are checked.
pub open spec fn markers() -> Seq<Seq<char>> {
    seq!["pants.toml"@, "BUILDROOT"@, "BUILD_ROOT"@]
}

/// The name of the optional bootstrap script at the root.
pub open spec fn bootstrap_name() -> Seq<char> {
    ".pants.bootstrap"@
}

/// What is known of the filesystem: the paths that name files, and the
/// text of those files that were read.
pub struct FsView {
    pub files: Vec<String>,
    pub texts: Vec<(String, String)>,
}

/// The text recorded for `path` in `texts`: its first entry.
pub open spec fn text_lookup(texts: Seq<(Seq<char>, Seq<char>)>, path: Seq<char>) -> Option<Seq<char>>
    decreases texts.len(),
{
    if texts.len() == 0 {
        None
    } else if texts[0].0 == path {
        Some(texts[0].1)
    } else {
        text_lookup(texts.drop_first(), path)
    }
}

impl View for FsView {
    type V = Set<Seq<char>>;

    open spec fn view(&self) -> Set<Seq<char>> {
        Set::new(|p: Seq<char>| exists|i: int| 0 <= i < self.files@.len() && self.files@[i]@ == p)
    }
}

impl FsView {
    /// The text of the file at `path`, where it was read.
    pub open spec fn text(self, path: Seq<char>) -> Option<Seq<char>> {
        text_lookup(self.texts@.map_values(|e: (String, String)| (e.0@, e.1@)), path)
    }

    /// The text of the file at `path`, where it was read.
    pub fn read_text(&self, path: &str) -> (r: Option<&String>)
        ensures
            match r {
                Some(t) => self.text(path@) == Some(t@),
                None => self.text(path@) is None,
            },
    {
        let ghost all = self.texts@.map_values(|e: (String, String)| (e.0@, e.1@));
        let mut i: usize = 0;
        assert(all.subrange(0, all.len() as int) =~= all);
        while i < self.texts.len()
            invariant
                i <= self.texts@.len(),
                all == self.texts@.map_values(|e: (String, String)| (e.0@, e.1@)),
                text_lookup(all, path@) == text_lookup(all.subrange(i as int, all.len() as int), path@),
            decreases self.texts@.len() - i,
        {
            assert(all.subrange(i as int, all.len() as int).drop_first() =~= all.subrange(i + 1, all.len() as int));
            if str_eq(self.texts[i].0.as_str(), path) {
                return Some(&self.texts[i].1);
            }
            i = i + 1;
        }
        None
    }

    /// Whether `path` names a file.
    pub fn is_file(&self, path: &str) -> (r: bool)
        ensures
            r == self@.contains(path@),
    {
        let mut i: usize = 0;
        while i < self.files.len()
            invariant
                i <= self.files@.len(),
                forall|j: int| 0 <= j < i ==> self.files@[j]@ != path@,
            decreases self.files@.len() - i,
        {
            if str_eq(self.files[i].as_str(), path) {
                return true;
            }
            i = i + 1;
        }
        false
    }
}

/// Whether `dir` holds one of the marker files.
pub open spec fn has_marker(fs: Set<Seq<char>>, dir: Seq<char>) -> bool {
    exists|i: int| 0 <= i < markers().len() && fs.contains(path_join(dir, markers()[i]))
}

/// The parent of a path is shorter than the path.
pub proof fn lemma_parent_shorter(p: Seq<char>)
    ensures
        parent_of(p) matches Some(q) ==> q.len() < p.len(),
{
    crate::path::lemma_last_slash_range(p, p.len() as int);
}

/// The ancestor `n` levels above `dir`; `dir` itself at level zero.
pub open spec fn ancestor_at(dir: Seq<char>, n: nat) -> Option<Seq<char>>
    decreases n,
{
    if n == 0 {
        Some(dir)
    } else {
        match parent_of(dir) {
            Some(p) => ancestor_at(p, (n - 1) as nat),
            None => None,
        }
    }
}

/// The nearest of `dir` and its ancestors that holds a marker file.
pub open spec fn find_root(fs: Set<Seq<char>>, dir: Seq<char>) -> Option<Seq<char>>
    decreases dir.len(),
{
    if has_marker(fs, dir) {
        Some(dir)
    } else {
        match parent_of(dir) {
            Some(p) => if p.len() < dir.len() {
                find_root(fs, p)
            } else {
                None
            },
            None => None,
        }
    }
}

/// A project root with no marker file between the start directory and it:
/// the first directory upwards that holds a marker is the root found, and
/// with no marker in any ancestor no root is found.
pub proof fn law_root_discovery(fs: Set<Seq<char>>, start: Seq<char>, n: nat)
    ensures
        (ancestor_at(start, n) matches Some(d) && has_marker(fs, d) && (forall|k: nat|
            k < n ==> (#[trigger] ancestor_at(start, k) matches Some(a) ==> !has_marker(fs, a))))
            ==> find_root(fs, start) == ancestor_at(start, n),
        (forall|k: nat| #[trigger] ancestor_at(start, k) matches Some(a) ==> !has_marker(fs, a))
            ==> find_root(fs, start) is None,
    decreases start.len(),
{
    lemma_parent_shorter(start);
    if has_marker(fs, start) {
        assert(ancestor_at(start, 0) == Some(start));
    } else {
        match parent_of(start) {
            Some(p) => {
                if n > 0 {
                    law_root_discovery(fs, p, (n - 1) as nat);
                    if ancestor_at(start, n) matches Some(d) && has_marker(fs, d) && (forall|k: nat|
                        k < n ==> (#[trigger] ancestor_at(start, k) matches Some(a) ==> !has_marker(fs, a))) {
                        assert forall|k: nat| k < (n - 1) as nat implies
                            (#[trigger] ancestor_at(p, k) matches Some(a) ==> !has_marker(fs, a)) by {
                            assert(ancestor_at(start, k + 1) == ancestor_at(p, k));
                        }
                    }
                } else {
                    law_root_discovery(fs, p, 0);
                }
                if forall|k: nat| #[trigger] ancestor_at(start, k) matches Some(a) ==> !has_marker(fs, a) {
                    assert forall|k: nat| (#[trigger] ancestor_at(p, k) matches Some(a) ==> !has_marker(fs, a)) by {
                        assert(ancestor_at(start, k + 1) == ancestor_at(p, k));
                    }
                }
            },
            None => {
                assert(ancestor_at(start, 0) == Some(start));
            },
        }
    }
}

/// The files whose existence decides the root and the bootstrap script:
/// the markers and the script, in that order.
pub open spec fn probe_names() -> Seq<Seq<char>> {
    markers().push(bootstrap_name())
}

/// The files probed in `dir`.
pub open spec fn probes_in(dir: Seq<char>) -> Seq<Seq<char>> {
    probe_names().map_values(|n: Seq<char>| path_join(dir, n))
}

/// The files probed in `dir` and in each of its ancestors, nearest first.
pub open spec fn probe_list(dir: Seq<char>) -> Seq<Seq<char>>
    decreases dir.len(),
{
    match parent_of(dir) {
        Some(p) => if p.len() < dir.len() {
            probes_in(dir) + probe_list(p)
        } else {
            probes_in(dir)
        },
        None => probes_in(dir),
    }
}

fn probe_name(i: usize) -> (r: &'static str)
    requires
        i < 4,
    ensures
        r@ == probe_names()[i as int],
{
    if i < 3 {
        marker(i)
    } else {
        ".pants.bootstrap"
    }
}

/// The root directory of a project.
pub struct BuildRoot {
    pub path: String,
}

impl View for BuildRoot {
    type V = Seq<char>;

    open spec fn view(&self) -> Seq<char> {
        self.path@
    }
}

fn marker(i: usize) -> (r: &'static str)
    requires
        i < 3,
    ensures
        r@ == markers()[i as int],
{
    if i == 0 {
        "pants.toml"
    } else if i == 1 {
        "BUILDROOT"
    } else {
        "BUILD_ROOT"
    }
}

fn dir_has_marker(dir: &str, fs: &FsView) -> (r: bool)
    ensures
        r == has_marker(fs@, dir@),
{
    let mut i: usize = 0;
    while i < 3
        invariant
            i <= 3,
            forall|j: int| 0 <= j < i ==> !fs@.contains(path_join(dir@, #[trigger] markers()[j])),
        decreases 3 - i,
    {
        let candidate = join(dir, marker(i));
        if fs.is_file(candidate.as_str()) {
            return true;
        }
        i = i + 1;
    }
    false
}

impl BuildRoot {
    /// The paths whose existence decides the project root and its bootstrap
    /// script, for a search from `start`.
    pub fn probe_paths(start: &str) -> (r: Vec<String>)
        ensures
            r@.map_values(|p: String| p@) == probe_list(start@),
    {
        let mut r: Vec<String> = Vec::new();
        let mut cur = owned(start);
        loop
            invariant
                r@.map_values(|p: String| p@) + probe_list(cur@) == probe_list(start@),
            decreases cur@.len(),
        {
            let ghost before = r@.map_values(|p: String| p@);
            let mut i: usize = 0;
            while i < 4
                invariant
                    i <= 4,
                    r@.map_values(|p: String| p@) == before + probes_in(cur@).subrange(0, i as int),
                decreases 4 - i,
            {
                let p = join(cur.as_str(), probe_name(i));
                let ghost pv = p@;
                r.push(p);
                assert(probes_in(cur@).subrange(0, i + 1) =~= probes_in(cur@).subrange(0, i as int).push(pv));
                assert(r@.map_values(|p: String| p@) =~= (before + probes_in(cur@).subrange(0, i as int)).push(pv));
                i = i + 1;
            }
            assert(probes_in(cur@).subrange(0, 4) =~= probes_in(cur@));
            proof {
                lemma_parent_shorter(cur@);
            }
            match parent(cur.as_str()) {
                Some(p) => {
                    assert(r@.map_values(|p: String| p@) + probe_list(p@) =~= before + probe_list(cur@));
                    cur = p;
                },
                None => {
                    assert(r@.map_values(|p: String| p@) =~= before + probe_list(cur@));
                    return r;
                },
            }
        }
    }

    /// The nearest of `start` and its ancestors that holds a marker file.
    pub fn find(start: &str, fs: &FsView) -> (r: Result<BuildRoot, LaunchError>)
        ensures
            match r {
                Ok(root) => find_root(fs@, start@) == Some(root@),
                Err(e) => find_root(fs@, start@) is None && e == (LaunchError::RootNotFound {
                    start: e->start,
                }) && e->start@ == start@,
            },
    {
        let mut cur = owned(start);
        loop
            invariant
                find_root(fs@, start@) == find_root(fs@, cur@),
            decreases cur@.len(),
        {
            if dir_has_marker(cur.as_str(), fs) {
                return Ok(BuildRoot { path: cur });
            }
            proof {
                lemma_parent_shorter(cur@);
            }
            match parent(cur.as_str()) {
                Some(p) => {
                    cur = p;
                },
                None => {
                    return Err(LaunchError::RootNotFound { start: owned(start) });
                },
            }
        }
    }
}

} // verus!
