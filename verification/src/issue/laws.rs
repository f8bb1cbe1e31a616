//! The cross-form guarantees of the grammar and the path deriver,
//! stated and proved once for all inputs.

use vstd::prelude::*;

use crate::issue::parse::{apply_pair, assemble, deep_link_query, empty_acc, fold_query, github_url_spec, parse_spec, parse_with_options_spec, shorthand_spec, QueryAcc};
use crate::issue::{
    bare_path_spec, dir_name_spec, id_owner, id_repo, id_wf, temp_path_spec, IssueId, ParseFault,
};
use crate::text::{dec_str, lemma_cancel_prefix, lemma_dec_str_digits, lemma_dec_str_injective};
use crate::text::{
    all_digits, dec_value, find_from, find_seq_from, is_digit, is_space, is_uuid_seq,
    lemma_find_from_shift, lemma_find_seq_shift, lemma_rfind_to_shift, lemma_segments_clean_run,
    lemma_trim_noop, matches_at, rfind_char, rfind_to, segments_acc, segments_of, trim_spec,
    u64_string, uuid_pos_ok,
};

verus! {

/// A character that can stand inside a URL path segment without
/// colliding with a separator of the URL grammar.
pub open spec fn url_seg_char(c: char) -> bool {
    c != '/' && c != '#' && c != '?'
}

/// An owner or repo component usable in the URL form: nonempty and
/// free of the URL grammar's separators.
pub open spec fn url_component(s: Seq<char>) -> bool {
    s.len() > 0 && forall|i: int| 0 <= i < s.len() ==> url_seg_char(#[trigger] s[i])
}

/// A character that can stand inside an owner or repo component of a
/// shorthand without colliding with one of its separators.
pub open spec fn shorthand_seg_char(c: char) -> bool {
    c != '/' && c != '#' && c != '@'
}

/// An owner or repo component usable in the shorthand forms: nonempty
/// and free of the shorthand separators.
pub open spec fn shorthand_component(s: Seq<char>) -> bool {
    s.len() > 0 && forall|i: int| 0 <= i < s.len() ==> shorthand_seg_char(#[trigger] s[i])
}

/// The GitHub issue URL built from `owner`, `repo` and a digit string
/// `num` denotes exactly `GitHub { owner, repo, value of num }`.
pub proof fn lemma_github_url_form(owner: Seq<char>, repo: Seq<char>, num: Seq<char>)
    requires
        url_component(owner),
        url_component(repo),
        num.len() > 0,
        all_digits(num),
        dec_value(num) <= u64::MAX,
    ensures
        github_url_spec("https://github.com/"@ + owner + "/"@ + repo + "/issues/"@ + num) == Ok::<
            IssueId,
            ParseFault,
        >(IssueId::GitHub { owner, repo, number: dec_value(num) as u64 }),
{
    reveal_strlit("https://github.com/");
    reveal_strlit("://");
    reveal_strlit("/");
    reveal_strlit("/issues/");
    reveal_strlit("issues");
    let p1 = "https://github.com/"@;
    let sep = "/"@;
    let mid = "/issues/"@;
    let u = p1 + owner + sep + repo + mid + num;
    let o = owner.len() as int;
    let r = repo.len() as int;
    let m = num.len() as int;
    assert(p1.len() == 19);
    assert(sep.len() == 1);
    assert(mid.len() == 8);
    assert(u.len() == o + r + m + 28);
    // Where each character of `u` comes from.
    assert forall|j: int| 0 <= j < 19 implies u[j] == p1[j] by {}
    assert forall|j: int| 19 <= j < 19 + o implies u[j] == owner[j - 19] by {}
    assert(u[19 + o] == '/');
    assert forall|j: int| 20 + o <= j < 20 + o + r implies u[j] == repo[j - 20 - o] by {}
    assert forall|j: int| 20 + o + r <= j < 28 + o + r implies u[j] == mid[j - 20 - o - r] by {}
    assert forall|j: int| 28 + o + r <= j < u.len() implies u[j] == num[j - 28 - o - r] by {}
    // No `#` and no `?` anywhere.
    assert forall|j: int| 0 <= j < u.len() implies u[j] != '#' && u[j] != '?' by {
        if j < 19 {
        } else if j < 19 + o {
            assert(url_seg_char(owner[j - 19]));
        } else if j == 19 + o {
        } else if j < 20 + o + r {
            assert(url_seg_char(repo[j - 20 - o]));
        } else if j < 28 + o + r {
        } else {
            assert(is_digit(num[j - 28 - o - r]));
        }
    }
    lemma_find_from_shift(u, '#', 0, u.len() as int);
    assert(find_from(u, '#', 0) is None);
    // The scheme separator `://` first occurs at 5.
    assert forall|k: int| 0 <= k < 5 implies !matches_at(u, "://"@, k) by {
        if matches_at(u, "://"@, k) {
            assert(u.subrange(k, k + 3)[0] == u[k]);
            assert(u[k] == ("://"@)[0]);
        }
    }
    lemma_find_seq_shift(u, "://"@, 0, 5);
    assert(matches_at(u, "://"@, 5)) by {
        assert(u.subrange(5, 8) =~= "://"@);
    }
    assert(find_seq_from(u, "://"@, 0) == Some(5int));
    let after = u.skip(8);
    assert(after.len() == o + r + m + 20);
    assert forall|j: int| 0 <= j < after.len() implies after[j] == u[j + 8] by {}
    assert forall|j: int| 0 <= j < after.len() implies after[j] != '?' by {}
    lemma_find_from_shift(after, '?', 0, after.len() as int);
    assert(find_from(after, '?', 0) is None);
    // The host ends at the `/` of position 10.
    assert forall|k: int| 0 <= k < 10 implies after[k] != '/' by {
        assert(after[k] == p1[k + 8]);
    }
    assert(after[10] == '/');
    lemma_find_from_shift(after, '/', 0, 10);
    assert(find_from(after, '/', 0) == Some(10int));
    let path = after.skip(10);
    let pn = path.len() as int;
    assert(pn == o + r + m + 10);
    assert forall|j: int| 0 <= j < pn implies path[j] == u[j + 18] by {}
    assert(path[0] == '/');
    assert forall|j: int| 1 <= j < 1 + o implies path[j] == owner[j - 1] by {}
    assert(path[1 + o] == '/');
    assert forall|j: int| 2 + o <= j < 2 + o + r implies path[j] == repo[j - 2 - o] by {}
    assert(path[2 + o + r] == '/');
    assert forall|j: int| 3 + o + r <= j < 9 + o + r implies path[j] == mid[j - 2 - o - r]
        && path[j] != '/' by {}
    assert(path[9 + o + r] == '/');
    assert forall|j: int| 10 + o + r <= j < pn implies path[j] == num[j - 10 - o - r] by {}
    // Segment the path.
    let e = Seq::<char>::empty();
    assert forall|j: int| 1 <= j < 1 + o implies path[j] != '/' by {
        assert(url_seg_char(owner[j - 1]));
    }
    assert forall|j: int| 2 + o <= j < 2 + o + r implies path[j] != '/' by {
        assert(url_seg_char(repo[j - 2 - o]));
    }
    assert forall|j: int| 10 + o + r <= j < pn implies path[j] != '/' by {
        assert(is_digit(num[j - 10 - o - r]));
    }
    let segs = segments_of(path, '/');
    assert(segs == segments_acc(path, '/', 1, e));
    lemma_segments_clean_run(path, '/', 1, 1 + o, e);
    assert(e + path.subrange(1, 1 + o) =~= owner);
    assert(segs == segments_acc(path, '/', 1 + o, owner));
    assert(segments_acc(path, '/', 1 + o, owner) == seq![owner] + segments_acc(
        path,
        '/',
        2 + o,
        e,
    ));
    lemma_segments_clean_run(path, '/', 2 + o, 2 + o + r, e);
    assert(e + path.subrange(2 + o, 2 + o + r) =~= repo);
    assert(segments_acc(path, '/', 2 + o, e) == segments_acc(path, '/', 2 + o + r, repo));
    assert(segments_acc(path, '/', 2 + o + r, repo) == seq![repo] + segments_acc(
        path,
        '/',
        3 + o + r,
        e,
    ));
    lemma_segments_clean_run(path, '/', 3 + o + r, 9 + o + r, e);
    assert(e + path.subrange(3 + o + r, 9 + o + r) =~= "issues"@);
    assert(segments_acc(path, '/', 3 + o + r, e) == segments_acc(
        path,
        '/',
        9 + o + r,
        "issues"@,
    ));
    assert(segments_acc(path, '/', 9 + o + r, "issues"@) == seq!["issues"@] + segments_acc(
        path,
        '/',
        10 + o + r,
        e,
    ));
    lemma_segments_clean_run(path, '/', 10 + o + r, pn, e);
    assert(e + path.subrange(10 + o + r, pn) =~= num);
    assert(segments_acc(path, '/', 10 + o + r, e) == segments_acc(path, '/', pn, num));
    assert(segments_acc(path, '/', pn, num) =~= seq![num]);
    assert(segs =~= seq![owner, repo, "issues"@, num]);
    assert(segs.len() == 4);
    assert(segs[2] == "issues"@);
    assert(segs[3] == num);
    // The number segment parses.
    assert(num[0] != '+') by {
        assert(is_digit(num[0]));
    }
    assert(u64_string(num));
    // Assemble the unfolding of `github_url_spec`.
    assert(github_url_spec(u) == Ok::<IssueId, ParseFault>(
        IssueId::GitHub { owner, repo, number: dec_value(num) as u64 },
    ));
}

/// Every well-formed GitHub issue URL parses to exactly the identity
/// it spells: `https://github.com/{owner}/{repo}/issues/{N}` yields
/// `GitHub { owner, repo, N }`, for any nonempty separator-free owner
/// and repo and any digit string whose value fits.
pub proof fn lemma_parse_github_url(owner: Seq<char>, repo: Seq<char>, num: Seq<char>)
    requires
        url_component(owner),
        url_component(repo),
        num.len() > 0,
        all_digits(num),
        dec_value(num) <= u64::MAX,
    ensures
        parse_spec("https://github.com/"@ + owner + "/"@ + repo + "/issues/"@ + num) == Ok::<
            IssueId,
            ParseFault,
        >(IssueId::GitHub { owner, repo, number: dec_value(num) as u64 }),
{
    lemma_github_url_form(owner, repo, num);
    reveal_strlit("https://github.com/");
    reveal_strlit("https://github.com");
    reveal_strlit("http://github.com");
    reveal_strlit("worktree://");
    let p1 = "https://github.com/"@;
    let u = p1 + owner + "/"@ + repo + "/issues/"@ + num;
    let m = num.len() as int;
    assert(u[0] == p1[0]);
    assert(u.last() == num[m - 1]);
    assert(!is_space(u.last())) by {
        assert(is_digit(num[m - 1]));
    }
    lemma_trim_noop(u);
    assert(!matches_at(u, "worktree://"@, 0)) by {
        if matches_at(u, "worktree://"@, 0) {
            assert(u.subrange(0, 11)[0] == u[0]);
        }
    }
    assert(matches_at(u, "https://github.com"@, 0)) by {
        assert(u.subrange(0, 18) =~= "https://github.com"@);
    }
}

/// The GitHub shorthand `owner/repo#N` denotes the same identity as
/// the URL form.
pub proof fn lemma_shorthand_github_form(owner: Seq<char>, repo: Seq<char>, num: Seq<char>)
    requires
        shorthand_component(owner),
        shorthand_component(repo),
        num.len() > 0,
        all_digits(num),
        dec_value(num) <= u64::MAX,
    ensures
        shorthand_spec(owner + "/"@ + repo + "#"@ + num) == Some(
            Ok::<IssueId, ParseFault>(
                IssueId::GitHub { owner, repo, number: dec_value(num) as u64 },
            ),
        ),
{
    reveal_strlit("/");
    reveal_strlit("#");
    let s = owner + "/"@ + repo + "#"@ + num;
    let o = owner.len() as int;
    let r = repo.len() as int;
    let m = num.len() as int;
    assert(s.len() == o + r + m + 2);
    assert forall|j: int| 0 <= j < o implies s[j] == owner[j] by {}
    assert(s[o] == '/');
    assert forall|j: int| o + 1 <= j < o + 1 + r implies s[j] == repo[j - o - 1] by {}
    assert(s[o + 1 + r] == '#');
    assert forall|j: int| o + r + 2 <= j < s.len() implies s[j] == num[j - o - r - 2] by {}
    // No `@` anywhere, so the Linear form is not tried.
    assert forall|j: int| 0 <= j < s.len() implies s[j] != '@' by {
        if j < o {
            assert(shorthand_seg_char(owner[j]));
        } else if o + 1 <= j < o + 1 + r {
            assert(shorthand_seg_char(repo[j - o - 1]));
        } else if j >= o + r + 2 {
            assert(is_digit(num[j - o - r - 2]));
        }
    }
    lemma_rfind_to_shift(s, '@', 0, s.len() - 1);
    assert(rfind_to(s, '@', -1) is None);
    assert(rfind_to(s, '@', 0) is None);
    assert(rfind_char(s, '@') is None);
    // The first `#` stands after the repo.
    assert forall|j: int| 0 <= j < o + 1 + r implies s[j] != '#' by {
        if j < o {
            assert(shorthand_seg_char(owner[j]));
        } else if j > o {
            assert(shorthand_seg_char(repo[j - o - 1]));
        }
    }
    lemma_find_from_shift(s, '#', 0, o + 1 + r);
    assert(find_from(s, '#', 0) == Some(o + 1 + r));
    let left = s.take(o + 1 + r);
    assert forall|j: int| 0 <= j < o implies left[j] != '/' by {
        assert(shorthand_seg_char(owner[j]));
    }
    assert(left[o] == '/');
    lemma_find_from_shift(left, '/', 0, o);
    assert(find_from(left, '/', 0) == Some(o));
    assert(left.take(o) =~= owner);
    assert(left.skip(o + 1) =~= repo);
    assert(s.skip(o + r + 2) =~= num);
    assert(num[0] != '+') by {
        assert(is_digit(num[0]));
    }
    assert(u64_string(num));
}

/// Cross-form equivalence: `owner/repo#N` parses to the same identity
/// as `https://github.com/{owner}/{repo}/issues/{N}`.
pub proof fn lemma_shorthand_matches_url(owner: Seq<char>, repo: Seq<char>, num: Seq<char>)
    requires
        url_component(owner),
        url_component(repo),
        shorthand_component(owner),
        shorthand_component(repo),
        !is_space(owner[0]),
        num.len() > 0,
        all_digits(num),
        dec_value(num) <= u64::MAX,
    ensures
        parse_spec(owner + "/"@ + repo + "#"@ + num) == parse_spec(
            "https://github.com/"@ + owner + "/"@ + repo + "/issues/"@ + num,
        ),
        parse_spec(owner + "/"@ + repo + "#"@ + num) == Ok::<IssueId, ParseFault>(
            IssueId::GitHub { owner, repo, number: dec_value(num) as u64 },
        ),
{
    lemma_parse_github_url(owner, repo, num);
    lemma_shorthand_github_form(owner, repo, num);
    reveal_strlit("worktree://");
    reveal_strlit("https://github.com");
    reveal_strlit("http://github.com");
    reveal_strlit("/");
    reveal_strlit("#");
    let s = owner + "/"@ + repo + "#"@ + num;
    let o = owner.len() as int;
    let r = repo.len() as int;
    let m = num.len() as int;
    assert(s[0] == owner[0]);
    assert(!is_space(s[0])) by {
        assert(s[0] == owner[0]);
    }
    assert(s.last() == num[m - 1]);
    assert(!is_space(s.last())) by {
        assert(is_digit(num[m - 1]));
    }
    lemma_trim_noop(s);
    // `/` occurs exactly once, so no prefix with a double slash fits.
    assert forall|j: int| 0 <= j < s.len() && j != o implies s[j] != '/' by {
        if j < o {
            assert(shorthand_seg_char(owner[j]));
        } else if o + 1 <= j < o + 1 + r {
            assert(shorthand_seg_char(repo[j - o - 1]));
        } else if j >= o + r + 2 {
            assert(is_digit(num[j - o - r - 2]));
        }
    }
    assert(!matches_at(s, "worktree://"@, 0)) by {
        if matches_at(s, "worktree://"@, 0) {
            assert(s.subrange(0, 11)[9] == s[9]);
            assert(s.subrange(0, 11)[10] == s[10]);
            assert(s[9] == '/' && s[10] == '/');
        }
    }
    assert(!matches_at(s, "https://github.com"@, 0)) by {
        if matches_at(s, "https://github.com"@, 0) {
            assert(s.subrange(0, 18)[6] == s[6]);
            assert(s.subrange(0, 18)[7] == s[7]);
            assert(s[6] == '/' && s[7] == '/');
        }
    }
    assert(!matches_at(s, "http://github.com"@, 0)) by {
        if matches_at(s, "http://github.com"@, 0) {
            assert(s.subrange(0, 17)[5] == s[5]);
            assert(s.subrange(0, 17)[6] == s[6]);
            assert(s[5] == '/' && s[6] == '/');
        }
    }
}

/// A character a canonical UUID may contain.
proof fn lemma_uuid_chars(id: Seq<char>, j: int)
    requires
        is_uuid_seq(id),
        0 <= j < id.len(),
    ensures
        id[j] != '@' && id[j] != '/' && !is_space(id[j]) && id[j] != '#' && id[j] != '?',
{
    assert(uuid_pos_ok(id, j));
}

/// Every valid UUID makes `owner/repo@<uuid>` a Linear identity.
pub proof fn lemma_parse_linear_shorthand(owner: Seq<char>, repo: Seq<char>, id: Seq<char>)
    requires
        shorthand_component(owner),
        shorthand_component(repo),
        !is_space(owner[0]),
        is_uuid_seq(id),
    ensures
        parse_spec(owner + "/"@ + repo + "@"@ + id) == Ok::<IssueId, ParseFault>(
            IssueId::Linear { owner, repo, id },
        ),
{
    assert forall|j: int| 0 <= j < id.len() implies id[j] != '@' && id[j] != '/' && !is_space(
        id[j],
    ) by {
        lemma_uuid_chars(id, j);
    }
    lemma_linear_shorthand_shape(owner, repo, id);
}

/// An invalid UUID after `@` is a hard error naming the UUID — the
/// input never falls through to another form.
pub proof fn lemma_invalid_uuid_rejected(owner: Seq<char>, repo: Seq<char>, id: Seq<char>)
    requires
        shorthand_component(owner),
        shorthand_component(repo),
        !is_space(owner[0]),
        !is_uuid_seq(id),
        forall|j: int|
            0 <= j < id.len() ==> #[trigger] id[j] != '@' && id[j] != '/' && !is_space(id[j]),
    ensures
        parse_spec(owner + "/"@ + repo + "@"@ + id) == Err::<IssueId, ParseFault>(
            ParseFault::InvalidShorthandUuid { id },
        ),
{
    lemma_linear_shorthand_shape(owner, repo, id);
}

/// Shared shape argument for the Linear shorthand: with separator-free
/// owner, repo and id, the input trims to itself, matches no URL form,
/// and splits at its one `@` and first `/`.
proof fn lemma_linear_shorthand_shape(owner: Seq<char>, repo: Seq<char>, id: Seq<char>)
    requires
        shorthand_component(owner),
        shorthand_component(repo),
        !is_space(owner[0]),
        forall|j: int|
            0 <= j < id.len() ==> #[trigger] id[j] != '@' && id[j] != '/' && !is_space(id[j]),
    ensures
        parse_spec(owner + "/"@ + repo + "@"@ + id) == (if is_uuid_seq(id) {
            Ok::<IssueId, ParseFault>(IssueId::Linear { owner, repo, id })
        } else {
            Err::<IssueId, ParseFault>(ParseFault::InvalidShorthandUuid { id })
        }),
{
    reveal_strlit("worktree://");
    reveal_strlit("https://github.com");
    reveal_strlit("http://github.com");
    reveal_strlit("/");
    reveal_strlit("@");
    let s = owner + "/"@ + repo + "@"@ + id;
    let o = owner.len() as int;
    let r = repo.len() as int;
    let m = id.len() as int;
    assert(s.len() == o + r + m + 2);
    assert forall|j: int| 0 <= j < o implies s[j] == owner[j] by {}
    assert(s[o] == '/');
    assert forall|j: int| o + 1 <= j < o + 1 + r implies s[j] == repo[j - o - 1] by {}
    assert(s[o + 1 + r] == '@');
    assert forall|j: int| o + r + 2 <= j < s.len() implies s[j] == id[j - o - r - 2] by {}
    // Trimming changes nothing.
    assert(s[0] == owner[0]);
    assert(!is_space(s[0])) by {
        assert(s[0] == owner[0]);
    }
    assert(!is_space(s.last())) by {
        if m > 0 {
            assert(s.last() == id[m - 1]);
        } else {
            assert(s.last() == '@');
        }
    }
    lemma_trim_noop(s);
    // `/` occurs exactly once, so no URL prefix fits.
    assert forall|j: int| 0 <= j < s.len() && j != o implies s[j] != '/' by {
        if j < o {
            assert(shorthand_seg_char(owner[j]));
        } else if o + 1 <= j < o + 1 + r {
            assert(shorthand_seg_char(repo[j - o - 1]));
        }
    }
    assert(!matches_at(s, "worktree://"@, 0)) by {
        if matches_at(s, "worktree://"@, 0) {
            assert(s.subrange(0, 11)[9] == s[9]);
            assert(s.subrange(0, 11)[10] == s[10]);
            assert(s[9] == '/' && s[10] == '/');
        }
    }
    assert(!matches_at(s, "https://github.com"@, 0)) by {
        if matches_at(s, "https://github.com"@, 0) {
            assert(s.subrange(0, 18)[6] == s[6]);
            assert(s.subrange(0, 18)[7] == s[7]);
            assert(s[6] == '/' && s[7] == '/');
        }
    }
    assert(!matches_at(s, "http://github.com"@, 0)) by {
        if matches_at(s, "http://github.com"@, 0) {
            assert(s.subrange(0, 17)[5] == s[5]);
            assert(s.subrange(0, 17)[6] == s[6]);
            assert(s[5] == '/' && s[6] == '/');
        }
    }
    // The last `@` stands right after the repo.
    if m > 0 {
        lemma_rfind_to_shift(s, '@', o + 1 + r, s.len() - 1);
    }
    assert(rfind_to(s, '@', s.len() - 1) == Some(o + 1 + r));
    assert(rfind_char(s, '@') == Some(o + 1 + r));
    let left = s.take(o + 1 + r);
    assert forall|j: int| 0 <= j < o implies left[j] != '/' by {
        assert(shorthand_seg_char(owner[j]));
    }
    assert(left[o] == '/');
    lemma_find_from_shift(left, '/', 0, o);
    assert(find_from(left, '/', 0) == Some(o));
    assert(left.take(o) =~= owner);
    assert(left.skip(o + 1) =~= repo);
    assert(s.skip(o + r + 2) =~= id);
}

/// Nested-URL precedence: when a deep link resolved both a `url` and
/// a `linear_id` (or `issue`) parameter, the `url` parameter alone
/// decides the identity, by re-entering the GitHub-URL grammar.
pub proof fn lemma_url_param_precedence(acc: QueryAcc, u: Seq<char>)
    requires
        acc.url == Some(u),
    ensures
        assemble(acc) == (match github_url_spec(u) {
            Ok(id) => Ok::<(IssueId, Option<Seq<char>>), ParseFault>((id, acc.editor)),
            Err(f) => Err::<(IssueId, Option<Seq<char>>), ParseFault>(f),
        }),
{
}

/// A sequence that never holds a path separator.
pub open spec fn slash_free(s: Seq<char>) -> bool {
    forall|i: int| 0 <= i < s.len() ==> #[trigger] s[i] != '/'
}

/// A well-formed identity's leaf directory name holds no separator.
proof fn lemma_leaf_slash_free(a: IssueId)
    requires
        id_wf(a),
    ensures
        slash_free(dir_name_spec(a)),
        dir_name_spec(a).len() > 0,
{
    reveal_strlit("issue-");
    reveal_strlit("linear-");
    match a {
        IssueId::GitHub { number, .. } => {
            lemma_dec_str_digits(number as int);
            let l = "issue-"@ + dec_str(number as int);
            assert forall|j: int| 0 <= j < l.len() implies l[j] != '/' by {
                if j >= 6 {
                    assert(l[j] == dec_str(number as int)[j - 6]);
                    assert(is_digit(dec_str(number as int)[j - 6]));
                }
            }
        },
        IssueId::Linear { id, .. } => {
            let l = "linear-"@ + id;
            assert forall|j: int| 0 <= j < l.len() implies l[j] != '/' by {
                if j >= 7 {
                    assert(l[j] == id[j - 7]);
                    lemma_uuid_chars(id, j - 7);
                }
            }
        },
    }
}

/// Equal leaf names come from equal identities of equal kind.
proof fn lemma_leaf_injective(a: IssueId, b: IssueId)
    requires
        id_wf(a),
        id_wf(b),
        id_owner(a) == id_owner(b),
        id_repo(a) == id_repo(b),
        dir_name_spec(a) == dir_name_spec(b),
    ensures
        a == b,
{
    reveal_strlit("issue-");
    reveal_strlit("linear-");
    let la = dir_name_spec(a);
    let lb = dir_name_spec(b);
    match (a, b) {
        (IssueId::GitHub { number: na, .. }, IssueId::GitHub { number: nb, .. }) => {
            lemma_cancel_prefix("issue-"@, dec_str(na as int), dec_str(nb as int));
            lemma_dec_str_injective(na as int, nb as int);
        },
        (IssueId::Linear { id: ia, .. }, IssueId::Linear { id: ib, .. }) => {
            lemma_cancel_prefix("linear-"@, ia, ib);
        },
        (IssueId::GitHub { number: na, .. }, IssueId::Linear { .. }) => {
            assert(la[0] == 'i');
            assert(lb[0] == 'l');
        },
        (IssueId::Linear { .. }, IssueId::GitHub { .. }) => {
            assert(la[0] == 'l');
            assert(lb[0] == 'i');
        },
    }
}

/// The path deriver never collides: the worktree paths of two
/// well-formed identities under one root agree only when the
/// identities are the same, and the mirror paths agree only when
/// owner and repo are the same. Both paths are pure functions of the
/// identity and the root, so repeated derivation always agrees.
pub proof fn lemma_paths_collision_free(a: IssueId, b: IssueId, root: Seq<char>)
    requires
        id_wf(a),
        id_wf(b),
        slash_free(id_owner(a)),
        slash_free(id_repo(a)),
        slash_free(id_owner(b)),
        slash_free(id_repo(b)),
    ensures
        temp_path_spec(a, root) == temp_path_spec(b, root) ==> a == b,
        bare_path_spec(a, root) == bare_path_spec(b, root) ==> id_owner(a) == id_owner(b)
            && id_repo(a) == id_repo(b),
{
    reveal_strlit("/worktrees/github/");
    reveal_strlit("/");
    let lit = "/worktrees/github/"@;
    let sep = "/"@;
    let o1 = id_owner(a);
    let r1 = id_repo(a);
    let l1 = dir_name_spec(a);
    let o2 = id_owner(b);
    let r2 = id_repo(b);
    let l2 = dir_name_spec(b);
    lemma_leaf_slash_free(a);
    lemma_leaf_slash_free(b);
    let ta = o1 + sep + r1 + sep + l1;
    let tb = o2 + sep + r2 + sep + l2;
    assert(temp_path_spec(a, root) =~= (root + lit) + ta);
    assert(temp_path_spec(b, root) =~= (root + lit) + tb);
    if temp_path_spec(a, root) == temp_path_spec(b, root) {
        lemma_cancel_prefix(root + lit, ta, tb);
        lemma_component_split(o1, r1, l1, o2, r2, l2);
        lemma_leaf_injective(a, b);
    }
    let ba = o1 + sep + r1;
    let bb = o2 + sep + r2;
    assert(bare_path_spec(a, root) =~= (root + lit) + ba);
    assert(bare_path_spec(b, root) =~= (root + lit) + bb);
    if bare_path_spec(a, root) == bare_path_spec(b, root) {
        lemma_cancel_prefix(root + lit, ba, bb);
        lemma_two_component_split(o1, r1, o2, r2);
    }
}

/// `x/y/z` with separator-free parts splits only one way.
proof fn lemma_component_split(
    o1: Seq<char>,
    r1: Seq<char>,
    l1: Seq<char>,
    o2: Seq<char>,
    r2: Seq<char>,
    l2: Seq<char>,
)
    requires
        slash_free(o1),
        slash_free(r1),
        slash_free(l1),
        slash_free(o2),
        slash_free(r2),
        slash_free(l2),
        o1 + "/"@ + r1 + "/"@ + l1 == o2 + "/"@ + r2 + "/"@ + l2,
    ensures
        o1 == o2,
        r1 == r2,
        l1 == l2,
{
    reveal_strlit("/");
    let t = o1 + "/"@ + r1 + "/"@ + l1;
    let n1 = o1.len() as int;
    let m1 = r1.len() as int;
    let k1 = l1.len() as int;
    let n2 = o2.len() as int;
    let m2 = r2.len() as int;
    let k2 = l2.len() as int;
    assert(t.len() == n1 + m1 + k1 + 2);
    assert(t.len() == n2 + m2 + k2 + 2);
    assert forall|j: int| 0 <= j < t.len() implies (t[j] == '/' <==> (j == n1 || j == n1 + 1
        + m1)) by {
        if j < n1 {
            assert(t[j] == o1[j]);
        } else if j == n1 {
        } else if j < n1 + 1 + m1 {
            assert(t[j] == r1[j - n1 - 1]);
        } else if j == n1 + 1 + m1 {
        } else {
            assert(t[j] == l1[j - n1 - m1 - 2]);
        }
    }
    assert forall|j: int| 0 <= j < t.len() implies (t[j] == '/' <==> (j == n2 || j == n2 + 1
        + m2)) by {
        let u = o2 + "/"@ + r2 + "/"@ + l2;
        assert(t[j] == u[j]);
        if j < n2 {
            assert(u[j] == o2[j]);
        } else if j == n2 {
        } else if j < n2 + 1 + m2 {
            assert(u[j] == r2[j - n2 - 1]);
        } else if j == n2 + 1 + m2 {
        } else {
            assert(u[j] == l2[j - n2 - m2 - 2]);
        }
    }
    assert(t[n1] == '/');
    assert(t[n2] == '/');
    assert(n1 == n2) by {
        if n1 < n2 {
            assert(t[n1] == '/');
        } else if n2 < n1 {
            assert(t[n2] == '/');
        }
    }
    assert(n1 + 1 + m1 == n2 + 1 + m2) by {
        if m1 < m2 {
            assert(t[n1 + 1 + m1] == '/');
        } else if m2 < m1 {
            assert(t[n2 + 1 + m2] == '/');
        }
    }
    let u = o2 + "/"@ + r2 + "/"@ + l2;
    assert(o1 =~= o2) by {
        assert forall|j: int| 0 <= j < n1 implies o1[j] == o2[j] by {
            assert(t[j] == o1[j]);
            assert(u[j] == o2[j]);
        }
    }
    assert(r1 =~= r2) by {
        assert forall|j: int| 0 <= j < m1 implies r1[j] == r2[j] by {
            assert(t[n1 + 1 + j] == r1[j]);
            assert(u[n1 + 1 + j] == r2[j]);
        }
    }
    assert(l1 =~= l2) by {
        assert forall|j: int| 0 <= j < k1 implies l1[j] == l2[j] by {
            assert(t[n1 + m1 + 2 + j] == l1[j]);
            assert(u[n1 + m1 + 2 + j] == l2[j]);
        }
    }
}

/// `x/y` with separator-free parts splits only one way.
proof fn lemma_two_component_split(o1: Seq<char>, r1: Seq<char>, o2: Seq<char>, r2: Seq<char>)
    requires
        slash_free(o1),
        slash_free(r1),
        slash_free(o2),
        slash_free(r2),
        o1 + "/"@ + r1 == o2 + "/"@ + r2,
    ensures
        o1 == o2,
        r1 == r2,
{
    reveal_strlit("/");
    let t = o1 + "/"@ + r1;
    let u = o2 + "/"@ + r2;
    let n1 = o1.len() as int;
    let n2 = o2.len() as int;
    assert forall|j: int| 0 <= j < t.len() implies (t[j] == '/' <==> j == n1) by {
        if j < n1 {
            assert(t[j] == o1[j]);
        } else if j > n1 {
            assert(t[j] == r1[j - n1 - 1]);
        }
    }
    assert forall|j: int| 0 <= j < t.len() implies (t[j] == '/' <==> j == n2) by {
        assert(t[j] == u[j]);
        if j < n2 {
            assert(u[j] == o2[j]);
        } else if j > n2 {
            assert(u[j] == r2[j - n2 - 1]);
        }
    }
    assert(t[n1] == '/');
    assert(n1 == n2);
    assert(o1 =~= o2) by {
        assert forall|j: int| 0 <= j < n1 implies o1[j] == o2[j] by {
            assert(t[j] == o1[j]);
            assert(u[j] == o2[j]);
        }
    }
    assert(r1 =~= r2) by {
        assert forall|j: int| 0 <= j < r1.len() implies r1[j] == r2[j] by {
            assert(t[n1 + 1 + j] == r1[j]);
            assert(u[n1 + 1 + j] == r2[j]);
        }
    }
}

/// Folding query pairs never stores an unvalidated Linear id.
proof fn lemma_fold_query_keeps_uuid(q: Seq<char>, i: int, acc: QueryAcc)
    requires
        acc.linear matches Some(id) ==> is_uuid_seq(id),
    ensures
        fold_query(q, i, acc) matches Ok(a) ==> (a.linear matches Some(id) ==> is_uuid_seq(id)),
    decreases q.len() - i,
{
    if i < 0 || i >= q.len() {
    } else {
        let j = match find_from(q, '&', i) {
            Some(j) => j,
            None => q.len() as int,
        };
        if j < i || j > q.len() {
        } else {
            match apply_pair(acc, q.subrange(i, j)) {
                Err(_) => {},
                Ok(acc2) => {
                    assert(acc2.linear matches Some(id) ==> is_uuid_seq(id));
                    if j != q.len() {
                        lemma_fold_query_keeps_uuid(q, j + 1, acc2);
                    }
                },
            }
        }
    }
}

/// A successfully parsed GitHub issue URL has nonempty owner and repo
/// segments.
proof fn lemma_github_url_wf(s: Seq<char>)
    ensures
        github_url_spec(s) matches Ok(i) ==> id_wf(i),
{
    let cut = match find_from(s, '#', 0) {
        Some(h) => s.take(h),
        None => s,
    };
    match find_seq_from(cut, "://"@, 0) {
        None => {},
        Some(p) => {
            let after = cut.skip(p + 3);
            let hostq = match find_from(after, '?', 0) {
                Some(q) => after.take(q),
                None => after,
            };
            match find_from(hostq, '/', 0) {
                None => {},
                Some(sl) => {
                    crate::text::lemma_segments_nonempty(
                        hostq.skip(sl),
                        '/',
                        0,
                        Seq::<char>::empty(),
                    );
                },
            }
        },
    }
}

/// The data-model invariant of the grammar: every identity any
/// accepted input denotes has a nonempty owner and repo, and a Linear
/// identity carries a canonical UUID — whichever form the input took.
pub proof fn lemma_parsed_identity_wf(raw: Seq<char>)
    ensures
        parse_spec(raw) matches Ok(i) ==> id_wf(i),
        parse_with_options_spec(raw) matches Ok(p) ==> id_wf(p.0),
{
    let s = trim_spec(raw);
    if matches_at(s, "worktree://"@, 0) {
        let q = deep_link_query(s);
        lemma_fold_query_keeps_uuid(q, 0, empty_acc());
        match fold_query(q, 0, empty_acc()) {
            Ok(acc) => match acc.url {
                Some(u) => lemma_github_url_wf(u),
                None => {},
            },
            Err(_) => {},
        }
    } else if matches_at(s, "https://github.com"@, 0) || matches_at(s, "http://github.com"@, 0) {
        lemma_github_url_wf(s);
    }
}

} // verus!
