//! The environment changes made by the project's bootstrap script.
//!
//! A shell prints its variables, sources the script and prints them again;
//! the variables that the script added or changed make up the diff.

use vstd::prelude::*;
use vstd::string::StrSliceExecFns;
use vstd::utf8::{decode_utf8, valid_utf8};

use crate::build_root::{bootstrap_name, BuildRoot, FsView};
use crate::environ::{EnvValue, EnvValueView, EnvView};
use crate::error::LaunchError;
use crate::path::{join, path_join};
use crate::text::{lines, lines_of, owned, push_str, str_eq, utf8_text};

verus! {

/// A line of a variable dump split at its first `=` into name and value;
/// none where the line holds no `=`.
pub open spec fn parse_entry(line: Seq<char>) -> Option<(Seq<char>, Seq<char>)> {
    let k = crate::text::line_end_at(line, '=', 0);
    if k < line.len() {
        Some((line.subrange(0, k), line.subrange(k + 1, line.len() as int)))
    } else {
        None
    }
}

/// The variables that sourcing any file sets and that are never reported.
pub open spec fn is_noise(name: Seq<char>) -> bool {
    name == "BASH_ARGC"@ || name == "PIPESTATUS"@ || name == "_"@
}

/// The entries of a dump, in order, without the lines that do not parse.
pub open spec fn dump_entries(lines: Seq<Seq<char>>) -> Seq<(Seq<char>, Seq<char>)>
    decreases lines.len(),
{
    if lines.len() == 0 {
        seq![]
    } else {
        match parse_entry(lines.last()) {
            Some(e) => dump_entries(lines.drop_last()).push(e),
            None => dump_entries(lines.drop_last()),
        }
    }
}

/// The lines of a dump that do not parse.
pub open spec fn unparsed_lines(lines: Seq<Seq<char>>) -> Seq<Seq<char>>
    decreases lines.len(),
{
    if lines.len() == 0 {
        seq![]
    } else if parse_entry(lines.last()) is None {
        unparsed_lines(lines.drop_last()).push(lines.last())
    } else {
        unparsed_lines(lines.drop_last())
    }
}

/// The value of `name` in `entries`: its last entry.
pub open spec fn last_value(entries: Seq<(Seq<char>, Seq<char>)>, name: Seq<char>) -> Option<Seq<char>>
    decreases entries.len(),
{
    if entries.len() == 0 {
        None
    } else if entries.last().0 == name {
        Some(entries.last().1)
    } else {
        last_value(entries.drop_last(), name)
    }
}

/// Whether the after-dump line `line` leaves the diff unchanged: it does
/// not parse, names a noise variable, or repeats the value from before.
pub open spec fn is_quiet(before: Seq<(Seq<char>, Seq<char>)>, line: Seq<char>) -> bool {
    match parse_entry(line) {
        None => true,
        Some(e) => is_noise(e.0) || last_value(before, e.0) == Some(e.1),
    }
}

/// The variables of the after dump `after` that are new or changed with
/// respect to the entries `before`, in the order of `after`.
pub open spec fn diff_of(before: Seq<(Seq<char>, Seq<char>)>, after: Seq<Seq<char>>) -> Seq<(Seq<char>, Seq<char>)>
    decreases after.len(),
{
    if after.len() == 0 {
        seq![]
    } else if is_quiet(before, after.last()) {
        diff_of(before, after.drop_last())
    } else {
        diff_of(before, after.drop_last()).push(parse_entry(after.last())->Some_0)
    }
}

/// The diff of a concatenation of after-dump lines is the concatenation of
/// their diffs.
pub proof fn lemma_diff_concat(before: Seq<(Seq<char>, Seq<char>)>, x: Seq<Seq<char>>, y: Seq<Seq<char>>)
    ensures
        diff_of(before, x + y) == diff_of(before, x) + diff_of(before, y),
    decreases y.len(),
{
    if y.len() == 0 {
        assert(x + y =~= x);
        assert(diff_of(before, x) + diff_of(before, y) =~= diff_of(before, x));
    } else {
        assert((x + y).drop_last() =~= x + y.drop_last());
        assert((x + y).last() == y.last());
        lemma_diff_concat(before, x, y.drop_last());
        if !is_quiet(before, y.last()) {
            assert(diff_of(before, x) + diff_of(before, y) =~= (diff_of(before, x) + diff_of(
                before,
                y.drop_last(),
            )).push(parse_entry(y.last())->Some_0));
        }
    }
}

/// An after dump that only repeats values from before, apart from noise
/// variables and lines that do not parse, gives an empty diff: this is what
/// sourcing an empty or comment-only script, or one that re-exports values
/// already set, produces.
pub proof fn law_quiet_dump_empty_diff(before: Seq<(Seq<char>, Seq<char>)>, after: Seq<Seq<char>>)
    requires
        forall|i: int| 0 <= i < after.len() ==> is_quiet(before, #[trigger] after[i]),
    ensures
        diff_of(before, after) == Seq::<(Seq<char>, Seq<char>)>::empty(),
    decreases after.len(),
{
    if after.len() > 0 {
        assert(is_quiet(before, after[after.len() - 1]));
        law_quiet_dump_empty_diff(before, after.drop_last());
    }
}

/// No entry of a diff names a noise variable, and none repeats the value
/// that its variable had before.
pub proof fn law_diff_excludes_noise_and_unchanged(before: Seq<(Seq<char>, Seq<char>)>, after: Seq<Seq<char>>)
    ensures
        forall|i: int| 0 <= i < diff_of(before, after).len() ==> !is_noise(#[trigger] diff_of(before, after)[i].0),
        forall|i: int| 0 <= i < diff_of(before, after).len() ==> last_value(before, #[trigger] diff_of(before, after)[i].0)
            != Some(diff_of(before, after)[i].1),
    decreases after.len(),
{
    if after.len() > 0 {
        law_diff_excludes_noise_and_unchanged(before, after.drop_last());
    }
}

/// A script that exports one new variable, while every other line of the
/// after dump is quiet, gives a diff of exactly that variable.
pub proof fn law_single_export(
    before: Seq<(Seq<char>, Seq<char>)>,
    a1: Seq<Seq<char>>,
    line: Seq<char>,
    a2: Seq<Seq<char>>,
    name: Seq<char>,
    value: Seq<char>,
)
    requires
        forall|i: int| 0 <= i < a1.len() ==> is_quiet(before, #[trigger] a1[i]),
        forall|i: int| 0 <= i < a2.len() ==> is_quiet(before, #[trigger] a2[i]),
        parse_entry(line) == Some((name, value)),
        !is_noise(name),
        last_value(before, name) is None,
    ensures
        diff_of(before, a1 + seq![line] + a2) == seq![(name, value)],
{
    law_quiet_dump_empty_diff(before, a1);
    law_quiet_dump_empty_diff(before, a2);
    lemma_diff_concat(before, a1, seq![line]);
    lemma_diff_concat(before, a1 + seq![line], a2);
    let one = seq![line];
    assert(one.drop_last() =~= Seq::<Seq<char>>::empty());
    assert(one.last() == line);
    assert(!is_quiet(before, line));
    assert(diff_of(before, one.drop_last()) =~= Seq::<(Seq<char>, Seq<char>)>::empty());
    assert(diff_of(before, one) =~= seq![(name, value)]);
    assert(diff_of(before, a1 + seq![line] + a2) =~= seq![(name, value)]);
}

/// The diff of two dumps given as text.
pub open spec fn bootstrap_diff(before: Seq<char>, after: Seq<char>) -> Seq<(Seq<char>, Seq<char>)> {
    diff_of(dump_entries(lines_of(before)), lines_of(after))
}

/// The shell command line that dumps the variables to standard error,
/// sources `script` with its output sent to `capture`, and dumps the
/// variables again to standard output.
pub open spec fn probe_command_of(script: Seq<char>, capture: Seq<char>) -> Seq<char> {
    "(set -o posix; IFS=$'\\0'; set >&2); source \""@ + script + "\" >\""@ + capture
        + "\" 2>&1; set -o posix; IFS=$'\\0'; set"@
}

/// The variables that the bootstrap script adds or changes, in order, and
/// the dump lines that could not be read.
pub struct PantsBootstrap {
    pub env: Vec<(String, String)>,
    pub skipped: Vec<String>,
}

/// The view of a list of string pairs.
pub open spec fn pairs_view(v: Seq<(String, String)>) -> Seq<(Seq<char>, Seq<char>)> {
    v.map_values(|e: (String, String)| (e.0@, e.1@))
}

/// The view of a list of strings.
pub open spec fn strings_view(v: Seq<String>) -> Seq<Seq<char>> {
    v.map_values(|l: String| l@)
}

fn find_char(s: &str, c: char) -> (r: usize)
    ensures
        r == crate::text::line_end_at(s@, c, 0),
{
    let n = s.unicode_len();
    let mut k: usize = 0;
    while k < n && s.get_char(k) != c
        invariant
            k <= n,
            n == s@.len(),
            crate::text::line_end_at(s@, c, 0) == crate::text::line_end_at(s@, c, k as int),
        decreases n - k,
    {
        k = k + 1;
    }
    k
}

fn split_entry(line: &str) -> (r: Option<(String, String)>)
    ensures
        match r {
            Some(e) => parse_entry(line@) == Some((e.0@, e.1@)),
            None => parse_entry(line@) is None,
        },
{
    let n = line.unicode_len();
    let k = find_char(line, '=');
    proof {
        crate::text::lemma_line_end_at(line@, '=', 0);
    }
    if k < n {
        Some((line.substring_char(0, k).to_owned(), line.substring_char(k + 1, n).to_owned()))
    } else {
        None
    }
}

fn is_noise_name(name: &str) -> (r: bool)
    ensures
        r == is_noise(name@),
{
    str_eq(name, "BASH_ARGC") || str_eq(name, "PIPESTATUS") || str_eq(name, "_")
}

fn value_of<'a>(entries: &'a Vec<(String, String)>, name: &str) -> (r: Option<&'a String>)
    ensures
        match r {
            Some(v) => last_value(pairs_view(entries@), name@) == Some(v@),
            None => last_value(pairs_view(entries@), name@) is None,
        },
{
    let mut i: usize = entries.len();
    assert(entries@.subrange(0, i as int) =~= entries@);
    while i > 0
        invariant
            i <= entries@.len(),
            last_value(pairs_view(entries@), name@) == last_value(pairs_view(entries@.subrange(0, i as int)), name@),
        decreases i,
    {
        assert(pairs_view(entries@.subrange(0, i as int)).drop_last() =~= pairs_view(entries@.subrange(0, i - 1)));
        if str_eq(entries[i - 1].0.as_str(), name) {
            return Some(&entries[i - 1].1);
        }
        i = i - 1;
    }
    None
}

fn parse_dump(lines: &Vec<String>, skipped: &mut Vec<String>) -> (r: Vec<(String, String)>)
    ensures
        pairs_view(r@) == dump_entries(strings_view(lines@)),
        strings_view(final(skipped)@) == strings_view(old(skipped)@) + unparsed_lines(strings_view(lines@)),
{
    let mut r: Vec<(String, String)> = Vec::new();
    let mut i: usize = 0;
    while i < lines.len()
        invariant
            i <= lines@.len(),
            pairs_view(r@) == dump_entries(strings_view(lines@.subrange(0, i as int))),
            strings_view(skipped@) == strings_view(old(skipped)@) + unparsed_lines(strings_view(lines@.subrange(0, i as int))),
        decreases lines@.len() - i,
    {
        let ghost pre = strings_view(lines@.subrange(0, i as int));
        assert(strings_view(lines@.subrange(0, i + 1)).drop_last() =~= pre);
        match split_entry(lines[i].as_str()) {
            Some(e) => {
                r.push(e);
                assert(pairs_view(r@) =~= dump_entries(pre).push((e.0@, e.1@)));
                assert(strings_view(skipped@) =~= strings_view(old(skipped)@) + unparsed_lines(strings_view(lines@.subrange(0, i + 1))));
            },
            None => {
                let l = lines[i].clone();
                let ghost sk = strings_view(skipped@);
                skipped.push(l);
                assert(strings_view(skipped@) =~= sk.push(lines@[i as int]@));
                assert(strings_view(skipped@) =~= strings_view(old(skipped)@) + unparsed_lines(strings_view(lines@.subrange(0, i + 1))));
            },
        }
        i = i + 1;
    }
    assert(lines@.subrange(0, i as int) =~= lines@);
    r
}

fn diff_dump(before: &Vec<(String, String)>, after: &Vec<String>, skipped: &mut Vec<String>) -> (r: Vec<(String, String)>)
    ensures
        pairs_view(r@) == diff_of(pairs_view(before@), strings_view(after@)),
        strings_view(final(skipped)@) == strings_view(old(skipped)@) + unparsed_lines(strings_view(after@)),
{
    let mut r: Vec<(String, String)> = Vec::new();
    let mut i: usize = 0;
    while i < after.len()
        invariant
            i <= after@.len(),
            pairs_view(r@) == diff_of(pairs_view(before@), strings_view(after@.subrange(0, i as int))),
            strings_view(skipped@) == strings_view(old(skipped)@) + unparsed_lines(strings_view(after@.subrange(0, i as int))),
        decreases after@.len() - i,
    {
        let ghost pre = strings_view(after@.subrange(0, i as int));
        assert(strings_view(after@.subrange(0, i + 1)).drop_last() =~= pre);
        match split_entry(after[i].as_str()) {
            Some(e) => {
                let keep = if is_noise_name(e.0.as_str()) {
                    false
                } else {
                    match value_of(before, e.0.as_str()) {
                        Some(v) => !str_eq(v.as_str(), e.1.as_str()),
                        None => true,
                    }
                };
                if keep {
                    r.push(e);
                    assert(pairs_view(r@) =~= diff_of(pairs_view(before@), pre).push((e.0@, e.1@)));
                }
            },
            None => {
                let l = after[i].clone();
                let ghost sk = strings_view(skipped@);
                skipped.push(l);
                assert(strings_view(skipped@) =~= sk.push(after@[i as int]@));
            },
        }
        assert(strings_view(skipped@) =~= strings_view(old(skipped)@) + unparsed_lines(strings_view(after@.subrange(0, i + 1))));
        i = i + 1;
    }
    assert(after@.subrange(0, i as int) =~= after@);
    r
}

impl PantsBootstrap {
    /// The path of the bootstrap script of the project at `root`, where
    /// that file exists.
    pub fn script(root: &BuildRoot, fs: &FsView) -> (r: Option<String>)
        ensures
            match r {
                Some(p) => p@ == path_join(root@, bootstrap_name()) && fs@.contains(p@),
                None => !fs@.contains(path_join(root@, bootstrap_name())),
            },
    {
        let p = join(root.path.as_str(), ".pants.bootstrap");
        if fs.is_file(p.as_str()) {
            Some(p)
        } else {
            None
        }
    }

    /// The shell command line that computes the dumps for `script`, with
    /// the script's own output sent to the file `capture`.
    pub fn probe_command(script: &str, capture: &str) -> (r: String)
        ensures
            r@ == probe_command_of(script@, capture@),
    {
        let mut r = owned("(set -o posix; IFS=$'\\0'; set >&2); source \"");
        push_str(&mut r, script);
        push_str(&mut r, "\" >\"");
        push_str(&mut r, capture);
        push_str(&mut r, "\" 2>&1; set -o posix; IFS=$'\\0'; set");
        r
    }

    /// The diff computed from the shell that sourced `script`: `success`
    /// and `code` give how it exited, `captured` what the script printed,
    /// `before` and `after` the two dumps.
    pub fn load(
        script: &str,
        success: bool,
        code: Option<i32>,
        captured: String,
        before: Vec<u8>,
        after: Vec<u8>,
    ) -> (r: Result<PantsBootstrap, LaunchError>)
        ensures
            !success ==> (r matches Err(LaunchError::BootstrapScriptFailure { script: s, code: c, output: o })
                && s@ == script@ && c == code && o@ == captured@),
            success && !(valid_utf8(before@) && valid_utf8(after@)) ==> (r matches Err(
                LaunchError::BootstrapOutputNotUtf8 { script: s },
            ) && s@ == script@),
            success && valid_utf8(before@) && valid_utf8(after@) ==> (r matches Ok(b) && pairs_view(b.env@)
                == bootstrap_diff(decode_utf8(before@), decode_utf8(after@))
                && strings_view(b.skipped@) == unparsed_lines(lines_of(decode_utf8(before@)))
                + unparsed_lines(lines_of(decode_utf8(after@)))),
            r matches Ok(b) ==> forall|i: int| 0 <= i < b.env@.len() ==> !is_noise(#[trigger] b.env@[i].0@),
    {
        if !success {
            return Err(LaunchError::BootstrapScriptFailure { script: owned(script), code, output: captured });
        }
        let before_text = match utf8_text(before) {
            Ok(t) => t,
            Err(_) => return Err(LaunchError::BootstrapOutputNotUtf8 { script: owned(script) }),
        };
        let after_text = match utf8_text(after) {
            Ok(t) => t,
            Err(_) => return Err(LaunchError::BootstrapOutputNotUtf8 { script: owned(script) }),
        };
        let mut skipped: Vec<String> = Vec::new();
        let before_lines = lines(before_text.as_str());
        let original = parse_dump(&before_lines, &mut skipped);
        let after_lines = lines(after_text.as_str());
        let env = diff_dump(&original, &after_lines, &mut skipped);
        assert(strings_view(Seq::<String>::empty()) =~= Seq::<Seq<char>>::empty());
        proof {
            law_diff_excludes_noise_and_unchanged(pairs_view(original@), strings_view(after_lines@));
            assert forall|i: int| 0 <= i < env@.len() implies !is_noise(#[trigger] env@[i].0@) by {
                assert(pairs_view(env@)[i].0 == env@[i].0@);
            }
        }
        Ok(PantsBootstrap { env, skipped })
    }

    /// Applies the diff to `env`: each variable of the diff gets its value
    /// there, replacing the one it had.
    pub fn export_env(&self, env: &mut EnvView)
        ensures
            forall|n: Seq<char>| #[trigger] final(env).var(n) == match last_value(pairs_view(self.env@), n) {
                Some(v) => Some(EnvValueView::Text(v)),
                None => old(env).var(n),
            },
    {
        let mut i: usize = 0;
        while i < self.env.len()
            invariant
                i <= self.env@.len(),
                forall|n: Seq<char>| #[trigger] env.var(n) == match last_value(pairs_view(self.env@.subrange(0, i as int)), n) {
                    Some(v) => Some(EnvValueView::Text(v)),
                    None => old(env).var(n),
                },
            decreases self.env@.len() - i,
        {
            let name = self.env[i].0.clone();
            let value = EnvValue::text(self.env[i].1.as_str());
            env.set(name, value);
            assert(pairs_view(self.env@.subrange(0, i + 1)).drop_last() =~= pairs_view(self.env@.subrange(0, i as int)));
            i = i + 1;
        }
        assert(self.env@.subrange(0, i as int) =~= self.env@);
    }
}

} // verus!
