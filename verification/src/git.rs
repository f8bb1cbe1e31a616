//! Verified parsing of git's textual output for default-branch
//! detection, and the ref names the probes use. The subprocess calls
//! themselves are performed by an unverified driver around the
//! workspace state machine.

use vstd::prelude::*;
use vstd::string::StrSliceExecFns;
use vstd::string::StringExecFns;

use crate::text;
use crate::text::{matches_at, segments_of, trim_spec};

verus! {

/// The branch named by the output of
/// `git symbolic-ref refs/remotes/origin/HEAD`: the trimmed output
/// with the `refs/remotes/origin/` prefix removed, if it is there.
pub open spec fn symbolic_ref_branch(out: Seq<char>) -> Option<Seq<char>> {
    let t = trim_spec(out);
    if matches_at(t, "refs/remotes/origin/"@, 0) {
        Some(t.skip("refs/remotes/origin/"@.len() as int))
    } else {
        None
    }
}

/// Extract the default branch from `git symbolic-ref` output.
pub fn default_branch_from_symbolic_ref(out: &str) -> (r: Option<String>)
    ensures
        match r {
            Some(b) => symbolic_ref_branch(out@) == Some(b@),
            None => symbolic_ref_branch(out@) is None,
        },
{
    let cs = text::to_chars(out);
    let (lo, hi) = text::trim_bounds(cs.as_slice());
    let t = text::sub_chars(cs.as_slice(), lo, hi);
    if text::matches_at_lit(t.as_slice(), "refs/remotes/origin/", 0) {
        let plen = "refs/remotes/origin/".unicode_len();
        proof {
            assert(t@.subrange("refs/remotes/origin/"@.len() as int, t@.len() as int) =~= t@.skip(
                "refs/remotes/origin/"@.len() as int,
            ));
        }
        Some(text::chars_to_string(t.as_slice(), plen, t.len()))
    } else {
        None
    }
}

/// The first line of a report whose trimmed text starts with
/// `HEAD branch: `, read from position `i` of the line list; the rest
/// of that line is the branch.
pub open spec fn head_of_lines(lines: Seq<Seq<char>>, i: int) -> Option<Seq<char>>
    decreases lines.len() - i,
{
    if i < 0 || i >= lines.len() {
        None
    } else {
        let t = trim_spec(lines[i]);
        if matches_at(t, "HEAD branch: "@, 0) {
            Some(t.skip("HEAD branch: "@.len() as int))
        } else {
            head_of_lines(lines, i + 1)
        }
    }
}

/// The default branch named by `git remote show origin` output, if
/// any line of it names one.
pub open spec fn remote_show_branch(text: Seq<char>) -> Option<Seq<char>> {
    head_of_lines(segments_of(text, '\n'), 0)
}

/// Extract the default branch from `git remote show origin` output.
#[verifier::loop_isolation(false)]
pub fn default_branch_from_remote_show(out: &str) -> (r: Option<String>)
    ensures
        match r {
            Some(b) => remote_show_branch(out@) == Some(b@),
            None => remote_show_branch(out@) is None,
        },
{
    let cs = text::to_chars(out);
    let n = cs.len();
    proof {
        assert(cs@.subrange(0, n as int) =~= cs@);
    }
    let lines = text::split_nonempty(cs.as_slice(), 0, n, '\n');
    let ghost lspec = segments_of(out@, '\n');
    let m = lines.len();
    for i in 0..m
        invariant
            m == lspec.len(),
            lines.deep_view() == lspec,
            head_of_lines(lspec, 0) == head_of_lines(lspec, i as int),
    {
        proof {
            assert(lines@[i as int].deep_view() =~= lines@[i as int]@);
            assert(lspec[i as int] == lines@[i as int]@);
        }
        let line = &lines[i];
        let (lo, hi) = text::trim_bounds(line.as_slice());
        let t = text::sub_chars(line.as_slice(), lo, hi);
        if text::matches_at_lit(t.as_slice(), "HEAD branch: ", 0) {
            let plen = "HEAD branch: ".unicode_len();
            proof {
                assert(t@.subrange("HEAD branch: "@.len() as int, t@.len() as int) =~= t@.skip(
                    "HEAD branch: "@.len() as int,
                ));
            }
            return Some(text::chars_to_string(t.as_slice(), plen, t.len()));
        }
    }
    None
}

/// The fixed candidate list the last detection tier probes, in order.
pub open spec fn candidate_spec(i: int) -> Seq<char> {
    if i == 0 {
        "main"@
    } else if i == 1 {
        "master"@
    } else {
        "develop"@
    }
}

/// The `i`-th probe candidate: `main`, `master`, `develop`.
pub fn candidate_name(i: u8) -> (r: String)
    ensures
        r@ == candidate_spec(i as int),
{
    if i == 0 {
        String::from_str("main")
    } else if i == 1 {
        String::from_str("master")
    } else {
        String::from_str("develop")
    }
}

/// The remote-tracking ref of a branch.
pub open spec fn origin_ref_spec(branch: Seq<char>) -> Seq<char> {
    "refs/remotes/origin/"@ + branch
}

/// Build the remote-tracking ref name probed for `branch`.
pub fn origin_ref(branch: &str) -> (r: String)
    ensures
        r@ == origin_ref_spec(branch@),
{
    let mut s = String::from_str("refs/remotes/origin/");
    s.append(branch);
    s
}

} // verus!
