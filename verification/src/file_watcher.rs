//! File-watch support: watch events, the builder that gathers what to watch
//! and how to filter it, and the wildcard matcher the filters use. Listening
//! for events is the caller's part; the filter decisions here are exact.

use vstd::prelude::*;

use crate::text::{lower_of, str_chars, str_to_lowercase};

verus! {

/// What happened to a watched file.
#[derive(Debug, Clone, PartialEq, Eq, Structural)]
pub enum EventKind {
    /// A file was created.
    Create,
    /// A file was modified.
    Modify,
    /// A file was deleted.
    Delete,
    /// A file was renamed.
    Rename,
    /// Anything else.
    Other,
}

/// One event on a watched file.
#[derive(Debug, Clone)]
pub struct FileEvent {
    /// What happened.
    pub kind: EventKind,
    /// The path it happened to.
    pub path: String,
    /// The old path, for a rename.
    pub from_path: Option<String>,
}

impl FileEvent {
    /// Builds an event without an old path.
    pub fn new(kind: EventKind, path: String) -> (r: Self)
        ensures
            r.kind == kind,
            r.path@ == path@,
            r.from_path is None,
    {
        Self { kind, path, from_path: None }
    }

    /// Builds a rename event carrying both paths.
    pub fn rename(from: String, to: String) -> (r: Self)
        ensures
            r.kind == EventKind::Rename,
            r.path@ == to@,
            r.from_path matches Some(f) && f@ == from@,
    {
        Self { kind: EventKind::Rename, path: to, from_path: Some(from) }
    }
}

/// Wildcard matching: `*` matches any run of characters, `?` matches exactly
/// one, and every other character matches itself.
pub open spec fn glob_match(p: Seq<char>, t: Seq<char>) -> bool
    decreases p.len() + t.len(),
{
    if p.len() == 0 {
        t.len() == 0
    } else if p[0] == '*' {
        glob_match(p.skip(1), t) || (t.len() > 0 && glob_match(p, t.skip(1)))
    } else if p[0] == '?' {
        t.len() > 0 && glob_match(p.skip(1), t.skip(1))
    } else {
        t.len() > 0 && t[0] == p[0] && glob_match(p.skip(1), t.skip(1))
    }
}

/// Matches the pattern suffix from `pi` against the text suffix from `ti`.
#[verifier::loop_isolation(false)]
fn glob_match_at(p: &Vec<char>, t: &Vec<char>, pi: usize, ti: usize) -> (r: bool)
    requires
        pi <= p@.len(),
        ti <= t@.len(),
    ensures
        r == glob_match(p@.skip(pi as int), t@.skip(ti as int)),
    decreases p@.len() - pi + t@.len() - ti,
{
    proof {
        if pi < p@.len() {
            assert(p@.skip(pi as int)[0] == p@[pi as int]);
            assert(p@.skip(pi as int).skip(1) =~= p@.skip(pi + 1));
        }
        if ti < t@.len() {
            assert(t@.skip(ti as int)[0] == t@[ti as int]);
            assert(t@.skip(ti as int).skip(1) =~= t@.skip(ti + 1));
        }
        if pi < p@.len() && ti < t@.len() {
            assert(p@.skip(pi as int).skip(1) =~= p@.skip(pi + 1));
            assert(t@.skip(ti as int).skip(1) =~= t@.skip(ti + 1));
        }
    }
    if pi == p.len() {
        return ti == t.len();
    }
    let c = p[pi];
    if c == '*' {
        if glob_match_at(p, t, pi + 1, ti) {
            true
        } else if ti < t.len() {
            glob_match_at(p, t, pi, ti + 1)
        } else {
            false
        }
    } else if c == '?' {
        ti < t.len() && glob_match_at(p, t, pi + 1, ti + 1)
    } else {
        ti < t.len() && t[ti] == c && glob_match_at(p, t, pi + 1, ti + 1)
    }
}

/// Matches a file name against a wildcard pattern: `*` matches any run of
/// characters, `?` matches exactly one, and every other character matches
/// itself.
pub fn match_pattern(pattern: &str, text: &str) -> (r: bool)
    ensures
        r == glob_match(pattern@, text@),
{
    let p = str_chars(pattern);
    let t = str_chars(text);
    proof {
        assert(p@.skip(0) =~= pattern@);
        assert(t@.skip(0) =~= text@);
    }
    glob_match_at(&p, &t, 0, 0)
}

/// A watch under construction: which paths to watch, whether to recurse,
/// how long to settle repeated events, and which files to report.
#[derive(Debug)]
pub struct FileWatcher {
    /// The paths to watch.
    pub paths: Vec<String>,
    /// Whether directories are watched recursively.
    pub recursive: bool,
    /// Settle time for repeated events, in milliseconds, when set.
    pub debounce_ms: Option<u64>,
    /// Report only files with one of these extensions, when set; the
    /// comparison ignores case.
    pub extensions: Option<Vec<String>>,
    /// Report only file names matching this wildcard pattern, when set.
    pub pattern: Option<String>,
}

impl FileWatcher {
    /// Whether an event on a file with the given name and extension is
    /// reported: its extension is among the allowed ones (lowercased on both
    /// sides), and its name matches the pattern. A file without an extension
    /// is reported only when no extension filter is set; a path without a
    /// file name is never held back by the pattern.
    pub open spec fn spec_passes_filters(
        self,
        filename: Option<Seq<char>>,
        extension: Option<Seq<char>>,
    ) -> bool {
        (match self.extensions {
            Some(exts) => match extension {
                Some(e) => exists|i: int|
                    0 <= i < exts@.len() && lower_of(#[trigger] exts@[i]@) == lower_of(e),
                None => false,
            },
            None => true,
        }) && (match self.pattern {
            Some(p) => match filename {
                Some(f) => glob_match(p@, f),
                None => true,
            },
            None => true,
        })
    }

    /// A watcher of nothing: no paths, not recursive, no settle time, no
    /// filters.
    pub fn new() -> (r: Self)
        ensures
            r.paths@ == Seq::<String>::empty(),
            !r.recursive,
            r.debounce_ms is None,
            r.extensions is None,
            r.pattern is None,
    {
        let r = Self {
            paths: Vec::new(),
            recursive: false,
            debounce_ms: None,
            extensions: None,
            pattern: None,
        };
        proof {
            assert(r.paths@ =~= Seq::<String>::empty());
        }
        r
    }

    /// Adds one path to watch.
    pub fn path(self, path: &str) -> (r: Self)
        ensures
            r.paths@.len() == self.paths@.len() + 1,
            r.paths@.subrange(0, self.paths@.len() as int) == self.paths@,
            r.paths@.last()@ == path@,
            r.recursive == self.recursive,
            r.debounce_ms == self.debounce_ms,
            r.extensions == self.extensions,
            r.pattern == self.pattern,
    {
        let mut paths = self.paths;
        paths.push(path.to_owned());
        let r = Self { paths, ..self };
        proof {
            assert(r.paths@.subrange(0, self.paths@.len() as int) =~= self.paths@);
        }
        r
    }

    /// Adds several paths to watch, in order.
    pub fn paths(self, paths: &[&str]) -> (r: Self)
        ensures
            r.paths@.len() == self.paths@.len() + paths@.len(),
            r.paths@.subrange(0, self.paths@.len() as int) == self.paths@,
            forall|i: int|
                0 <= i < paths@.len() ==> #[trigger] r.paths@[self.paths@.len() + i]@ == paths@[i]@,
            r.recursive == self.recursive,
            r.debounce_ms == self.debounce_ms,
            r.extensions == self.extensions,
            r.pattern == self.pattern,
    {
        let mut out = self.paths;
        let ghost base = out@;
        let mut i: usize = 0;
        while i < paths.len()
            invariant
                0 <= i <= paths@.len(),
                out@.len() == base.len() + i,
                out@.subrange(0, base.len() as int) == base,
                forall|j: int| 0 <= j < i ==> #[trigger] out@[base.len() + j]@ == paths@[j]@,
            decreases paths@.len() - i,
        {
            out.push(paths[i].to_owned());
            i = i + 1;
            proof {
                assert(out@.subrange(0, base.len() as int) =~= base);
            }
        }
        Self { paths: out, ..self }
    }

    /// Sets whether directories are watched recursively.
    pub fn recursive(self, recursive: bool) -> (r: Self)
        ensures
            r.recursive == recursive,
            r.paths == self.paths,
            r.debounce_ms == self.debounce_ms,
            r.extensions == self.extensions,
            r.pattern == self.pattern,
    {
        Self { recursive, ..self }
    }

    /// Sets the settle time for repeated events, in milliseconds.
    pub fn debounce(self, debounce_ms: u64) -> (r: Self)
        ensures
            r.debounce_ms == Some(debounce_ms),
            r.paths == self.paths,
            r.recursive == self.recursive,
            r.extensions == self.extensions,
            r.pattern == self.pattern,
    {
        Self { debounce_ms: Some(debounce_ms), ..self }
    }

    /// Restricts reporting to files with one of the given extensions.
    pub fn extensions(self, exts: &[&str]) -> (r: Self)
        ensures
            r.extensions matches Some(e) && e@.len() == exts@.len() && (forall|i: int|
                0 <= i < exts@.len() ==> #[trigger] e@[i]@ == exts@[i]@),
            r.paths == self.paths,
            r.recursive == self.recursive,
            r.debounce_ms == self.debounce_ms,
            r.pattern == self.pattern,
    {
        let mut out: Vec<String> = Vec::new();
        let mut i: usize = 0;
        while i < exts.len()
            invariant
                0 <= i <= exts@.len(),
                out@.len() == i,
                forall|j: int| 0 <= j < i ==> #[trigger] out@[j]@ == exts@[j]@,
            decreases exts@.len() - i,
        {
            out.push(exts[i].to_owned());
            i = i + 1;
        }
        Self { extensions: Some(out), ..self }
    }

    /// Restricts reporting to file names matching a wildcard pattern, with
    /// `*` and `?`.
    pub fn pattern(self, pattern: &str) -> (r: Self)
        ensures
            r.pattern matches Some(p) && p@ == pattern@,
            r.paths == self.paths,
            r.recursive == self.recursive,
            r.debounce_ms == self.debounce_ms,
            r.extensions == self.extensions,
    {
        Self { pattern: Some(pattern.to_owned()), ..self }
    }

    /// Decides whether an event on a file with the given name and extension
    /// is reported, per the configured filters.
    #[verifier::loop_isolation(false)]
    pub fn passes_filters(&self, filename: Option<&str>, extension: Option<&str>) -> (r: bool)
        ensures
            r == self.spec_passes_filters(
                (match filename {
                    Some(f) => Some(f@),
                    None => None,
                }),
                (match extension {
                    Some(e) => Some(e@),
                    None => None,
                }),
            ),
    {
        let ext_ok: bool = match &self.extensions {
            Some(exts) => match extension {
                Some(ext) => {
                    let ext_lower = str_to_lowercase(ext);
                    let mut found = false;
                    let mut i: usize = 0;
                    while i < exts.len()
                        invariant
                            0 <= i <= exts@.len(),
                            found == exists|j: int|
                                0 <= j < i && lower_of(#[trigger] exts@[j]@) == lower_of(ext@),
                        decreases exts@.len() - i,
                    {
                        let e_lower = str_to_lowercase(exts[i].as_str());
                        if e_lower.eq(&ext_lower) {
                            found = true;
                        }
                        i = i + 1;
                    }
                    found
                },
                None => false,
            },
            None => true,
        };
        if !ext_ok {
            return false;
        }
        match &self.pattern {
            Some(p) => match filename {
                Some(f) => match_pattern(p.as_str(), f),
                None => true,
            },
            None => true,
        }
    }
}

} // verus!
