//! The pure half of opening a workspace: resolving symbolic editor
//! names, building the launch command line, tokenizing it, and
//! assembling the augmented PATH. Spawning the processes lives
//! outside the verified library.

use vstd::prelude::*;
use vstd::string::StrSliceExecFns;
use vstd::string::StringExecFns;

use crate::text;
use crate::text::{
    eq_ignore_case_spec, find_seq_from, matches_at, segments_of,
};

verus! {

/// The launch command of a symbolic editor or terminal name, compared
/// case-insensitively; `None` for a name outside the table.
pub open spec fn editor_symbol_spec(n: Seq<char>) -> Option<Seq<char>> {
    if eq_ignore_case_spec(n, "cursor"@) {
        Some("cursor ."@)
    } else if eq_ignore_case_spec(n, "code"@) {
        Some("code ."@)
    } else if eq_ignore_case_spec(n, "zed"@) {
        Some("zed ."@)
    } else if eq_ignore_case_spec(n, "subl"@) {
        Some("subl ."@)
    } else if eq_ignore_case_spec(n, "nvim"@) {
        Some("nvim ."@)
    } else if eq_ignore_case_spec(n, "vim"@) {
        Some("vim ."@)
    } else if eq_ignore_case_spec(n, "iterm"@) {
        Some("open -a iTerm ."@)
    } else if eq_ignore_case_spec(n, "iterm2"@) {
        Some("open -a iTerm ."@)
    } else if eq_ignore_case_spec(n, "warp"@) {
        Some("open -a Warp ."@)
    } else if eq_ignore_case_spec(n, "ghostty"@) {
        Some("open -a Ghostty ."@)
    } else if eq_ignore_case_spec(n, "alacritty"@) {
        Some("alacritty --working-directory ."@)
    } else if eq_ignore_case_spec(n, "kitty"@) {
        Some("kitty --directory ."@)
    } else if eq_ignore_case_spec(n, "wezterm"@) {
        Some("wezterm start --cwd ."@)
    } else if eq_ignore_case_spec(n, "wt"@) {
        Some("wt -d ."@)
    } else if eq_ignore_case_spec(n, "windowsterminal"@) {
        Some("wt -d ."@)
    } else {
        None
    }
}

/// Map a symbolic editor/terminal name to its launch command, or
/// `None` when the name is no known symbol. The platform-native
/// `terminal` name and the raw-command fallback stay with the caller.
pub fn resolve_editor_symbol(name: &str) -> (r: Option<String>)
    ensures
        match r {
            Some(c) => editor_symbol_spec(name@) == Some(c@),
            None => editor_symbol_spec(name@) is None,
        },
{
    let cs = text::to_chars(name);
    let n = cs.as_slice();
    if text::eq_ignore_case_lit(n, "cursor") {
        Some(String::from_str("cursor ."))
    } else if text::eq_ignore_case_lit(n, "code") {
        Some(String::from_str("code ."))
    } else if text::eq_ignore_case_lit(n, "zed") {
        Some(String::from_str("zed ."))
    } else if text::eq_ignore_case_lit(n, "subl") {
        Some(String::from_str("subl ."))
    } else if text::eq_ignore_case_lit(n, "nvim") {
        Some(String::from_str("nvim ."))
    } else if text::eq_ignore_case_lit(n, "vim") {
        Some(String::from_str("vim ."))
    } else if text::eq_ignore_case_lit(n, "iterm") {
        Some(String::from_str("open -a iTerm ."))
    } else if text::eq_ignore_case_lit(n, "iterm2") {
        Some(String::from_str("open -a iTerm ."))
    } else if text::eq_ignore_case_lit(n, "warp") {
        Some(String::from_str("open -a Warp ."))
    } else if text::eq_ignore_case_lit(n, "ghostty") {
        Some(String::from_str("open -a Ghostty ."))
    } else if text::eq_ignore_case_lit(n, "alacritty") {
        Some(String::from_str("alacritty --working-directory ."))
    } else if text::eq_ignore_case_lit(n, "kitty") {
        Some(String::from_str("kitty --directory ."))
    } else if text::eq_ignore_case_lit(n, "wezterm") {
        Some(String::from_str("wezterm start --cwd ."))
    } else if text::eq_ignore_case_lit(n, "wt") {
        Some(String::from_str("wt -d ."))
    } else if text::eq_ignore_case_lit(n, "windowsterminal") {
        Some(String::from_str("wt -d ."))
    } else {
        None
    }
}

/// The command line that opens `path`: the first ` .` of a command
/// that carries one becomes ` {path}`; otherwise the path is appended.
pub open spec fn launch_command_spec(cmd: Seq<char>, path: Seq<char>) -> Seq<char> {
    if (find_seq_from(cmd, " . "@, 0) is Some) || (cmd.len() >= 2 && matches_at(
        cmd,
        " ."@,
        cmd.len() - 2,
    )) || cmd == "."@ {
        match find_seq_from(cmd, " ."@, 0) {
            Some(j) => cmd.take(j) + " "@ + path + cmd.skip(j + 2),
            None => cmd,
        }
    } else {
        cmd + " "@ + path
    }
}

/// Build the editor launch command for a workspace path.
pub fn editor_launch_command(command: &str, path: &str) -> (r: String)
    ensures
        r@ == launch_command_spec(command@, path@),
{
    proof {
        reveal_strlit(" . ");
        reveal_strlit(" .");
        reveal_strlit(".");
        reveal_strlit(" ");
    }
    let cs = text::to_chars(command);
    let n = cs.len();
    let has_mid = text::find_sub(cs.as_slice(), " . ", 0).is_some();
    let ends_dot = n >= 2 && text::matches_at_lit(cs.as_slice(), " .", n - 2);
    let is_dot = text::str_eq_lit(command, ".");
    if has_mid || ends_dot || is_dot {
        match text::find_sub(cs.as_slice(), " .", 0) {
            Some(j) => {
                let mut s = text::chars_to_string(cs.as_slice(), 0, j);
                proof {
                    assert(cs@.subrange(0, j as int) =~= cs@.take(j as int));
                    assert(cs@.subrange(j + 2, n as int) =~= cs@.skip(j + 2));
                }
                s.append(" ");
                s.append(path);
                let tail = text::chars_to_string(cs.as_slice(), j + 2, n);
                s.append(tail.as_str());
                s
            },
            None => command.to_owned(),
        }
    } else {
        let mut s = command.to_owned();
        s.append(" ");
        s.append(path);
        s
    }
}

/// The directories a PATH value is seeded with: the common binary
/// directories GUI-launched processes typically lack.
pub open spec fn path_seed() -> Seq<Seq<char>> {
    seq!["/usr/local/bin"@, "/opt/homebrew/bin"@, "/opt/homebrew/sbin"@]
}

/// Append each piece that the list does not already hold.
pub open spec fn add_entries(parts: Seq<Seq<char>>, pieces: Seq<Seq<char>>, i: int) -> Seq<
    Seq<char>,
>
    decreases pieces.len() - i,
{
    if i < 0 || i >= pieces.len() {
        parts
    } else if parts.contains(pieces[i]) {
        add_entries(parts, pieces, i + 1)
    } else {
        add_entries(parts.push(pieces[i]), pieces, i + 1)
    }
}

/// The parts joined with `:` separators, from position `i`.
pub open spec fn join_colon(parts: Seq<Seq<char>>, i: int) -> Seq<char>
    decreases parts.len() - i,
{
    if i < 0 || i >= parts.len() {
        Seq::empty()
    } else if i == parts.len() - 1 {
        parts[i]
    } else {
        parts[i] + ":"@ + join_colon(parts, i + 1)
    }
}

/// The augmented PATH derived from the current one: the seed
/// directories first, then every nonempty entry of `current` not
/// already present, joined with `:`.
pub open spec fn augmented_path_spec(current: Seq<char>) -> Seq<char> {
    join_colon(add_entries(path_seed(), segments_of(current, ':'), 0), 0)
}

/// Return a PATH that includes common binary directories that
/// GUI-launched processes (e.g. via AppleScript `do shell script`)
/// typically lack. The caller passes the current PATH value in.
#[verifier::loop_isolation(false)]
pub fn augmented_path(current: &str) -> (r: String)
    ensures
        r@ == augmented_path_spec(current@),
{
    proof {
        reveal_strlit("/usr/local/bin");
        reveal_strlit("/opt/homebrew/bin");
        reveal_strlit("/opt/homebrew/sbin");
        reveal_strlit(":");
    }
    let cs = text::to_chars(current);
    let cn = cs.len();
    proof {
        assert(cs@.subrange(0, cn as int) =~= cs@);
    }
    let pieces = text::split_nonempty(cs.as_slice(), 0, cn, ':');
    let ghost pspec = segments_of(current@, ':');
    let mut parts: Vec<Vec<char>> = Vec::new();
    parts.push(text::to_chars("/usr/local/bin"));
    parts.push(text::to_chars("/opt/homebrew/bin"));
    parts.push(text::to_chars("/opt/homebrew/sbin"));
    proof {
        assert(parts.deep_view() =~~= path_seed());
    }
    let m = pieces.len();
    let mut i: usize = 0;
    while i < m
        invariant
            i <= m,
            parts@.len() >= 1,
            add_entries(path_seed(), pspec, 0) == add_entries(parts.deep_view(), pspec, i as int),
        decreases m - i,
    {
        proof {
            assert(pieces.deep_view()[i as int] == pieces@[i as int].deep_view());
            assert(pieces@[i as int].deep_view() =~= pieces@[i as int]@);
        }
        let pn = parts.len();
        let mut found = false;
        let mut t: usize = 0;
        while t < pn
            invariant
                t <= pn == parts@.len(),
                i < m,
                pieces.deep_view() == pspec,
                pspec.len() == m,
                found <==> exists|x: int|
                    0 <= x < t && #[trigger] parts.deep_view()[x] == pspec[i as int],
            decreases pn - t,
        {
            proof {
                assert(parts.deep_view()[t as int] == parts@[t as int].deep_view());
                assert(parts@[t as int].deep_view() =~= parts@[t as int]@);
                assert(pieces@[i as int].deep_view() =~= pieces@[i as int]@);
            }
            if text::chars_eq(parts[t].as_slice(), pieces[i].as_slice()) {
                proof {
                    assert(parts.deep_view()[t as int] == pspec[i as int]);
                }
                found = true;
            }
            t = t + 1;
        }
        proof {
            if found {
                assert(parts.deep_view().contains(pspec[i as int]));
            } else {
                assert(!parts.deep_view().contains(pspec[i as int])) by {
                    if parts.deep_view().contains(pspec[i as int]) {
                        let dvp = parts.deep_view();
                        let x = choose|x: int| 0 <= x < dvp.len() && dvp[x] == pspec[i as int];
                        assert(parts.deep_view()[x] == pspec[i as int]);
                    }
                }
            }
        }
        if !found {
            let ghost prev = parts.deep_view();
            let piece = text::sub_chars(pieces[i].as_slice(), 0, pieces[i].len());
            proof {
                assert(piece@ =~= pieces@[i as int]@);
            }
            parts.push(piece);
            proof {
                assert(parts.deep_view() =~~= prev.push(pspec[i as int]));
            }
        }
        i = i + 1;
    }
    let ghost dv = parts.deep_view();
    proof {
        assert(add_entries(path_seed(), pspec, 0) == dv);
    }
    let k = parts.len();
    proof {
        assert(dv.len() == k);
    }
    let first = text::chars_to_string(parts[0].as_slice(), 0, parts[0].len());
    let mut out = first;
    proof {
        assert(parts@[0].deep_view() =~= parts@[0]@);
        assert(parts@[0]@.subrange(0, parts@[0]@.len() as int) =~= parts@[0]@);
        assert(out@ == dv[0]);
        if k == 1 {
            assert(join_colon(dv, 0) == out@);
        }
    }
    let mut j: usize = 1;
    while j < k
        invariant
            1 <= j <= k,
            dv == parts.deep_view(),
            k == parts@.len(),
            join_colon(dv, 0) == out@ + (if j == k {
                Seq::<char>::empty()
            } else {
                ":"@ + join_colon(dv, j as int)
            }),
        decreases k - j,
    {
        out.append(":");
        let pj = text::chars_to_string(parts[j].as_slice(), 0, parts[j].len());
        out.append(pj.as_str());
        proof {
            let pjv = parts@[j as int]@;
            assert(parts@[j as int].deep_view() =~= pjv);
            assert(pjv.subrange(0, pjv.len() as int) =~= pjv);
            assert(pj@ == dv[j as int]);
            if j + 1 == k {
                assert(join_colon(dv, j as int) == dv[j as int]);
                assert(join_colon(dv, 0) =~= out@);
            } else {
                assert(join_colon(dv, j as int) == dv[j as int] + ":"@ + join_colon(
                    dv,
                    j + 1,
                ));
                assert(join_colon(dv, 0) =~= out@ + (":"@ + join_colon(dv, j + 1)));
            }
        }
        j = j + 1;
    }
    proof {
        assert(out@ + Seq::<char>::empty() =~= out@);
    }
    out
}

/// The tokens of a command line, split on unquoted spaces and tabs;
/// double quotes group and are dropped. `cur` is the token read so
/// far, `inq` whether a quote is open, `acc` the finished tokens.
pub open spec fn shlex_acc(
    s: Seq<char>,
    i: int,
    cur: Seq<char>,
    inq: bool,
    acc: Seq<Seq<char>>,
) -> Seq<Seq<char>>
    decreases s.len() - i,
{
    if i < 0 || i >= s.len() {
        if cur.len() > 0 {
            acc.push(cur)
        } else {
            acc
        }
    } else if s[i] == '"' {
        shlex_acc(s, i + 1, cur, !inq, acc)
    } else if (s[i] == ' ' || s[i] == '\t') && !inq {
        shlex_acc(
            s,
            i + 1,
            Seq::empty(),
            inq,
            if cur.len() > 0 {
                acc.push(cur)
            } else {
                acc
            },
        )
    } else {
        shlex_acc(s, i + 1, cur.push(s[i]), inq, acc)
    }
}

/// The tokens of a command line.
pub open spec fn shlex_spec(s: Seq<char>) -> Seq<Seq<char>> {
    shlex_acc(s, 0, Seq::empty(), false, Seq::empty())
}

/// Very simple whitespace-based command splitter that respects
/// double-quoted strings.
#[verifier::loop_isolation(false)]
pub fn shlex_split(s: &str) -> (r: Vec<String>)
    ensures
        r.deep_view() == shlex_spec(s@),
{
    let cs = text::to_chars(s);
    let n = cs.len();
    let mut acc: Vec<String> = Vec::new();
    let mut cur = String::new();
    let mut inq = false;
    let mut i: usize = 0;
    proof {
        assert(acc.deep_view() =~= Seq::<Seq<char>>::empty());
    }
    while i < n
        invariant
            i <= n,
            shlex_spec(s@) == shlex_acc(cs@, i as int, cur@, inq, acc.deep_view()),
        decreases n - i,
    {
        let c = cs[i];
        if c == '"' {
            inq = !inq;
        } else if (c == ' ' || c == '\t') && !inq {
            let ghost prev = acc.deep_view();
            let ghost pc = cur@;
            if !cur.as_str().is_empty() {
                acc.push(cur);
                cur = String::new();
                proof {
                    assert(acc.deep_view() =~~= prev.push(pc));
                }
            } else {
                proof {
                    assert(pc =~= Seq::<char>::empty());
                }
            }
        } else {
            text::push_char(&mut cur, c);
        }
        i = i + 1;
    }
    let ghost prev = acc.deep_view();
    let ghost pc = cur@;
    if !cur.as_str().is_empty() {
        acc.push(cur);
        proof {
            assert(acc.deep_view() =~~= prev.push(pc));
        }
    } else {
        proof {
            assert(pc =~= Seq::<char>::empty());
        }
    }
    acc
}

} // verus!
