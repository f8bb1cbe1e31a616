//! The reference-resolution grammar: GitHub issue URLs, `worktree://`
//! deep links, and the `owner/repo#N` / `owner/repo@<uuid>` shorthands.
//!
//! The grammar is stated once, declaratively, over `Seq<char>` (the
//! `*_spec` functions below); the executable parsers are proved to
//! return exactly what the grammar assigns to their input.

use vstd::prelude::*;
use vstd::string::StrSliceExecFns;

use crate::issue::{DeepLinkOptions, IssueId, IssueRef, ParseError, ParseFault};
use crate::text;
use crate::text::{
    find_from, is_uuid_seq, matches_at, pct_decode_spec, rfind_char, segments_of, trim_spec,
    u64_string, u64_string_val,
};

verus! {

/// The identity a GitHub issue URL denotes: the part after `scheme://`
/// and the host must segment as exactly `owner/repo/issues/number`.
/// A trailing query (`?...`) or fragment (`#...`) is ignored.
pub open spec fn github_url_spec(s: Seq<char>) -> Result<IssueId, ParseFault> {
    let cut = match find_from(s, '#', 0) {
        Some(h) => s.take(h),
        None => s,
    };
    match text::find_seq_from(cut, "://"@, 0) {
        None => Err(ParseFault::InvalidUrl { input: s }),
        Some(p) => {
            let after = cut.skip(p + 3);
            let hostq = match find_from(after, '?', 0) {
                Some(q) => after.take(q),
                None => after,
            };
            match find_from(hostq, '/', 0) {
                None => Err(ParseFault::ExpectedIssueUrl { input: s }),
                Some(sl) => {
                    let segs = segments_of(hostq.skip(sl), '/');
                    if segs.len() != 4 || segs[2] != "issues"@ {
                        Err(ParseFault::ExpectedIssueUrl { input: s })
                    } else if !u64_string(segs[3]) {
                        Err(ParseFault::InvalidUrlNumber { text: segs[3] })
                    } else {
                        Ok(
                            IssueId::GitHub {
                                owner: segs[0],
                                repo: segs[1],
                                number: u64_string_val(segs[3]) as u64,
                            },
                        )
                    }
                },
            }
        },
    }
}

/// The identity a shorthand denotes, or `None` when the input is not
/// shorthand-shaped at all. An `@` anywhere makes the input a Linear
/// shorthand, split at the last `@`; otherwise a `#` makes it a GitHub
/// shorthand. The part before the separator must split at its first
/// `/` into a nonempty owner and repo.
pub open spec fn shorthand_spec(s: Seq<char>) -> Option<Result<IssueId, ParseFault>> {
    match rfind_char(s, '@') {
        Some(k) => {
            let left = s.take(k);
            let id = s.skip(k + 1);
            match find_from(left, '/', 0) {
                None => None,
                Some(sl) => {
                    let owner = left.take(sl);
                    let repo = left.skip(sl + 1);
                    if owner.len() == 0 || repo.len() == 0 {
                        Some(Err(ParseFault::InvalidShorthand { input: s }))
                    } else if !is_uuid_seq(id) {
                        Some(Err(ParseFault::InvalidShorthandUuid { id }))
                    } else {
                        Some(Ok(IssueId::Linear { owner, repo, id }))
                    }
                },
            }
        },
        None => match find_from(s, '#', 0) {
            None => None,
            Some(h) => {
                let left = s.take(h);
                let num = s.skip(h + 1);
                match find_from(left, '/', 0) {
                    None => None,
                    Some(sl) => {
                        let owner = left.take(sl);
                        let repo = left.skip(sl + 1);
                        if owner.len() == 0 || repo.len() == 0 {
                            Some(Err(ParseFault::InvalidShorthand { input: s }))
                        } else if !u64_string(num) {
                            Some(Err(ParseFault::InvalidShorthandNumber { text: num }))
                        } else {
                            Some(
                                Ok(
                                    IssueId::GitHub {
                                        owner,
                                        repo,
                                        number: u64_string_val(num) as u64,
                                    },
                                ),
                            )
                        }
                    },
                }
            },
        },
    }
}

/// What the recognized query parameters of a deep link resolved to.
pub struct QueryAcc {
    pub owner: Option<Seq<char>>,
    pub repo: Option<Seq<char>>,
    pub issue: Option<u64>,
    pub linear: Option<Seq<char>>,
    pub url: Option<Seq<char>>,
    pub editor: Option<Seq<char>>,
}

/// The state before any query pair is read.
pub open spec fn empty_acc() -> QueryAcc {
    QueryAcc { owner: None, repo: None, issue: None, linear: None, url: None, editor: None }
}

/// Fold one `key=value` piece into the accumulator. Keys and values
/// are percent-decoded first; a later occurrence of a key overwrites
/// an earlier one; an invalid `issue` or `linear_id` value is a hard
/// error at the pair itself.
pub open spec fn apply_pair(acc: QueryAcc, piece: Seq<char>) -> Result<QueryAcc, ParseFault> {
    if piece.len() == 0 {
        Ok(acc)
    } else {
        let raw_key = match find_from(piece, '=', 0) {
            Some(e) => piece.take(e),
            None => piece,
        };
        let raw_val = match find_from(piece, '=', 0) {
            Some(e) => piece.skip(e + 1),
            None => Seq::empty(),
        };
        let key = pct_decode_spec(raw_key);
        let val = pct_decode_spec(raw_val);
        if key == "owner"@ {
            Ok(QueryAcc { owner: Some(val), ..acc })
        } else if key == "repo"@ {
            Ok(QueryAcc { repo: Some(val), ..acc })
        } else if key == "issue"@ {
            if u64_string(val) {
                Ok(QueryAcc { issue: Some(u64_string_val(val) as u64), ..acc })
            } else {
                Err(ParseFault::InvalidQueryNumber { text: val })
            }
        } else if key == "linear_id"@ {
            if is_uuid_seq(val) {
                Ok(QueryAcc { linear: Some(val), ..acc })
            } else {
                Err(ParseFault::InvalidUuid { id: val })
            }
        } else if key == "url"@ {
            Ok(QueryAcc { url: Some(val), ..acc })
        } else if key == "editor"@ {
            Ok(QueryAcc { editor: Some(val), ..acc })
        } else {
            Ok(acc)
        }
    }
}

/// Fold the `&`-separated pieces of a query string, in order, from
/// position `i`.
pub open spec fn fold_query(q: Seq<char>, i: int, acc: QueryAcc) -> Result<QueryAcc, ParseFault>
    decreases q.len() - i,
{
    if i < 0 || i >= q.len() {
        Ok(acc)
    } else {
        let j = match find_from(q, '&', i) {
            Some(j) => j,
            None => q.len() as int,
        };
        if j < i || j > q.len() {
            Ok(acc)
        } else {
            match apply_pair(acc, q.subrange(i, j)) {
                Err(f) => Err(f),
                Ok(acc2) => if j == q.len() {
                    Ok(acc2)
                } else {
                    fold_query(q, j + 1, acc2)
                },
            }
        }
    }
}

/// Build the identity from the resolved query parameters. A `url`
/// parameter overrides everything and re-enters the GitHub-URL
/// grammar; otherwise `linear_id` wins over `issue`. Missing required
/// fields are named; a present `owner` or `repo` must be nonempty
/// (an empty value counts as missing) and must hold no `/`, so that
/// every identity can stand verbatim in paths and clone URLs.
pub open spec fn assemble(acc: QueryAcc) -> Result<(IssueId, Option<Seq<char>>), ParseFault> {
    match acc.url {
        Some(u) => match github_url_spec(u) {
            Ok(id) => Ok((id, acc.editor)),
            Err(f) => Err(f),
        },
        None => match acc.owner {
            None => Err(ParseFault::MissingOwner),
            Some(o) => if o.len() == 0 {
                Err(ParseFault::MissingOwner)
            } else if text::has_char(o, '/') {
                Err(ParseFault::InvalidOwner { text: o })
            } else {
                match acc.repo {
                    None => Err(ParseFault::MissingRepo),
                    Some(r) => if r.len() == 0 {
                        Err(ParseFault::MissingRepo)
                    } else if text::has_char(r, '/') {
                        Err(ParseFault::InvalidRepo { text: r })
                    } else {
                        match acc.linear {
                            Some(id) => Ok(
                                (IssueId::Linear { owner: o, repo: r, id }, acc.editor),
                            ),
                            None => match acc.issue {
                                Some(n) => Ok(
                                    (IssueId::GitHub { owner: o, repo: r, number: n }, acc.editor),
                                ),
                                None => Err(ParseFault::MissingIssue),
                            },
                        }
                    },
                }
            },
        },
    }
}

/// The query component of a deep link: what stands between the first
/// `?` and any fragment.
pub open spec fn deep_link_query(s: Seq<char>) -> Seq<char> {
    let cut = match find_from(s, '#', 0) {
        Some(h) => s.take(h),
        None => s,
    };
    match find_from(cut, '?', 0) {
        Some(qi) => cut.skip(qi + 1),
        None => Seq::empty(),
    }
}

/// The identity and options a `worktree://` deep link denotes: its
/// query is folded pair by pair, then assembled.
pub open spec fn deep_link_spec(s: Seq<char>) -> Result<
    (IssueId, Option<Seq<char>>),
    ParseFault,
> {
    match fold_query(deep_link_query(s), 0, empty_acc()) {
        Ok(acc) => assemble(acc),
        Err(f) => Err(f),
    }
}

/// The whole grammar: after trimming, the forms are tried in fixed
/// precedence order — deep link, web URL, shorthand — and an input
/// matching none of them is rejected with the list of accepted forms.
pub open spec fn parse_spec(raw: Seq<char>) -> Result<IssueId, ParseFault> {
    let s = trim_spec(raw);
    if matches_at(s, "worktree://"@, 0) {
        match deep_link_spec(s) {
            Ok((id, _)) => Ok(id),
            Err(f) => Err(f),
        }
    } else if matches_at(s, "https://github.com"@, 0) || matches_at(s, "http://github.com"@, 0) {
        github_url_spec(s)
    } else {
        match shorthand_spec(s) {
            Some(r) => r,
            None => Err(ParseFault::Unrecognized { input: s }),
        }
    }
}

/// Like [`parse_spec`], but a deep link also yields its embedded
/// options; every other form yields empty options.
pub open spec fn parse_with_options_spec(raw: Seq<char>) -> Result<
    (IssueId, Option<Seq<char>>),
    ParseFault,
> {
    let s = trim_spec(raw);
    if matches_at(s, "worktree://"@, 0) {
        deep_link_spec(s)
    } else {
        match parse_spec(raw) {
            Ok(id) => Ok((id, None)),
            Err(f) => Err(f),
        }
    }
}

/// The mathematical value of an executable parse result.
pub open spec fn res_view(r: Result<IssueRef, ParseError>) -> Result<IssueId, ParseFault> {
    match r {
        Ok(i) => Ok(i@),
        Err(e) => Err(e@),
    }
}

/// The mathematical value of an executable parse-with-options result.
pub open spec fn opts_view(r: Result<(IssueRef, DeepLinkOptions), ParseError>) -> Result<
    (IssueId, Option<Seq<char>>),
    ParseFault,
> {
    match r {
        Ok((i, o)) => Ok((i@, o@)),
        Err(e) => Err(e@),
    }
}

/// Parse a GitHub issue URL held in `s`.
#[verifier::loop_isolation(false)]
fn github_url_chars(s: &[char]) -> (r: Result<IssueRef, ParseError>)
    ensures
        res_view(r) == github_url_spec(s@),
{
    let n = s.len();
    proof {
        reveal_strlit("://");
        assert(s@.subrange(0, n as int) =~= s@);
    }
    let cend = match text::find_char(s, '#', 0) {
        Some(h) => h,
        None => n,
    };
    let cut = text::sub_chars(s, 0, cend);
    proof {
        match find_from(s@, '#', 0) {
            Some(h) => assert(cut@ =~= s@.take(h)),
            None => assert(cut@ =~= s@),
        }
    }
    let p = match text::find_sub(cut.as_slice(), "://", 0) {
        Some(p) => p,
        None => {
            return Err(ParseError::InvalidUrl { input: text::chars_to_string(s, 0, n) });
        },
    };
    let after = text::sub_chars(cut.as_slice(), p + 3, cut.len());
    proof {
        assert(after@ =~= cut@.skip(p + 3));
    }
    let qend = match text::find_char(after.as_slice(), '?', 0) {
        Some(q) => q,
        None => after.len(),
    };
    let hostq = text::sub_chars(after.as_slice(), 0, qend);
    proof {
        match find_from(after@, '?', 0) {
            Some(q) => assert(hostq@ =~= after@.take(q)),
            None => assert(hostq@ =~= after@),
        }
    }
    let sl = match text::find_char(hostq.as_slice(), '/', 0) {
        Some(sl) => sl,
        None => {
            return Err(ParseError::ExpectedIssueUrl { input: text::chars_to_string(s, 0, n) });
        },
    };
    let segs = text::split_nonempty(hostq.as_slice(), sl, hostq.len(), '/');
    proof {
        assert(hostq@.subrange(sl as int, hostq@.len() as int) =~= hostq@.skip(sl as int));
    }
    let ghost sspec = segments_of(hostq@.skip(sl as int), '/');
    if segs.len() != 4 {
        proof {
            assert(segs.deep_view().len() == segs@.len());
        }
        return Err(ParseError::ExpectedIssueUrl { input: text::chars_to_string(s, 0, n) });
    }
    proof {
        assert(segs@.len() == 4);
        assert(segs.deep_view()[2] == segs@[2].deep_view());
        assert(segs@[2].deep_view() =~= segs@[2]@);
        assert(segs.deep_view()[3] == segs@[3].deep_view());
        assert(segs@[3].deep_view() =~= segs@[3]@);
        assert(segs.deep_view()[0] == segs@[0].deep_view());
        assert(segs@[0].deep_view() =~= segs@[0]@);
        assert(segs.deep_view()[1] == segs@[1].deep_view());
        assert(segs@[1].deep_view() =~= segs@[1]@);
    }
    let seg2 = &segs[2];
    if !text::range_eq_lit(seg2.as_slice(), 0, seg2.len(), "issues") {
        proof {
            assert(segs@[2]@.subrange(0, segs@[2]@.len() as int) =~= segs@[2]@);
        }
        return Err(ParseError::ExpectedIssueUrl { input: text::chars_to_string(s, 0, n) });
    }
    proof {
        assert(segs@[2]@.subrange(0, segs@[2]@.len() as int) =~= segs@[2]@);
    }
    let seg3 = &segs[3];
    let number = match text::parse_u64_range(seg3.as_slice(), 0, seg3.len()) {
        Some(v) => v,
        None => {
            proof {
                assert(segs@[3]@.subrange(0, segs@[3]@.len() as int) =~= segs@[3]@);
            }
            return Err(
                ParseError::InvalidUrlNumber {
                    text: text::chars_to_string(seg3.as_slice(), 0, seg3.len()),
                },
            );
        },
    };
    proof {
        assert(segs@[3]@.subrange(0, segs@[3]@.len() as int) =~= segs@[3]@);
    }
    let owner = text::chars_to_string(segs[0].as_slice(), 0, segs[0].len());
    let repo = text::chars_to_string(segs[1].as_slice(), 0, segs[1].len());
    proof {
        assert(owner@ =~= sspec[0]);
        assert(repo@ =~= sspec[1]);
    }
    Ok(IssueRef::GitHub { owner, repo, number })
}

/// Try the two shorthand forms on `s`.
#[verifier::loop_isolation(false)]
fn shorthand_chars(s: &[char]) -> (r: Option<Result<IssueRef, ParseError>>)
    ensures
        match r {
            Some(res) => shorthand_spec(s@) == Some(res_view(res)),
            None => shorthand_spec(s@) is None,
        },
{
    let n = s.len();
    proof {
        assert(s@.subrange(0, n as int) =~= s@);
    }
    if let Some(k) = text::rfind_char_at(s, '@') {
        let left = text::sub_chars(s, 0, k);
        proof {
            assert(left@ =~= s@.take(k as int));
        }
        let sl = match text::find_char(left.as_slice(), '/', 0) {
            Some(sl) => sl,
            None => {
                return None;
            },
        };
        if sl == 0 || sl + 1 == left.len() {
            proof {
                assert(s@.take(k as int).skip(sl + 1) =~= left@.skip(sl + 1));
            }
            return Some(Err(ParseError::InvalidShorthand { input: text::chars_to_string(s, 0, n) }));
        }
        proof {
            assert(s@.take(k as int).take(sl as int) =~= left@.subrange(0, sl as int));
            assert(s@.take(k as int).skip(sl + 1) =~= left@.subrange(sl + 1, left@.len() as int));
            assert(s@.skip(k + 1) =~= s@.subrange(k + 1, n as int));
        }
        if !crate::issue::is_uuid_range(s, k + 1, n) {
            return Some(
                Err(ParseError::InvalidShorthandUuid { id: text::chars_to_string(s, k + 1, n) }),
            );
        }
        let owner = text::chars_to_string(left.as_slice(), 0, sl);
        let repo = text::chars_to_string(left.as_slice(), sl + 1, left.len());
        let id = text::chars_to_string(s, k + 1, n);
        Some(Ok(IssueRef::Linear { owner, repo, id }))
    } else {
        let h = match text::find_char(s, '#', 0) {
            Some(h) => h,
            None => {
                return None;
            },
        };
        let left = text::sub_chars(s, 0, h);
        proof {
            assert(left@ =~= s@.take(h as int));
        }
        let sl = match text::find_char(left.as_slice(), '/', 0) {
            Some(sl) => sl,
            None => {
                return None;
            },
        };
        if sl == 0 || sl + 1 == left.len() {
            proof {
                assert(s@.take(h as int).skip(sl + 1) =~= left@.skip(sl + 1));
            }
            return Some(Err(ParseError::InvalidShorthand { input: text::chars_to_string(s, 0, n) }));
        }
        proof {
            assert(s@.take(h as int).take(sl as int) =~= left@.subrange(0, sl as int));
            assert(s@.take(h as int).skip(sl + 1) =~= left@.subrange(sl + 1, left@.len() as int));
            assert(s@.skip(h + 1) =~= s@.subrange(h + 1, n as int));
        }
        let number = match text::parse_u64_range(s, h + 1, n) {
            Some(v) => v,
            None => {
                return Some(
                    Err(
                        ParseError::InvalidShorthandNumber {
                            text: text::chars_to_string(s, h + 1, n),
                        },
                    ),
                );
            },
        };
        let owner = text::chars_to_string(left.as_slice(), 0, sl);
        let repo = text::chars_to_string(left.as_slice(), sl + 1, left.len());
        Some(Ok(IssueRef::GitHub { owner, repo, number }))
    }
}

/// The mathematical value of an optional owned string.
pub open spec fn opt_view(o: Option<String>) -> Option<Seq<char>> {
    match o {
        Some(s) => Some(s@),
        None => None,
    }
}

/// Parse a `worktree://` deep link held in `s`.
#[verifier::loop_isolation(false)]
#[verifier::rlimit(100)]
fn worktree_url_chars(s: &[char]) -> (r: Result<(IssueRef, DeepLinkOptions), ParseError>)
    ensures
        opts_view(r) == deep_link_spec(s@),
{
    let n = s.len();
    let cend = match text::find_char(s, '#', 0) {
        Some(h) => h,
        None => n,
    };
    let cut = text::sub_chars(s, 0, cend);
    proof {
        match find_from(s@, '#', 0) {
            Some(h) => assert(cut@ =~= s@.take(h)),
            None => assert(cut@ =~= s@),
        }
    }
    let q: Vec<char> = match text::find_char(cut.as_slice(), '?', 0) {
        Some(qi) => text::sub_chars(cut.as_slice(), qi + 1, cut.len()),
        None => Vec::new(),
    };
    proof {
        match find_from(cut@, '?', 0) {
            Some(qi) => assert(q@ =~= cut@.skip(qi + 1)),
            None => assert(q@ =~= Seq::<char>::empty()),
        }
    }
    let qn = q.len();
    let mut owner: Option<String> = None;
    let mut repo: Option<String> = None;
    let mut issue: Option<u64> = None;
    let mut linear: Option<String> = None;
    let mut url: Option<String> = None;
    let mut editor: Option<String> = None;
    let mut i: usize = 0;
    while i < qn
        invariant
            i <= qn == q@.len(),
            fold_query(q@, 0, empty_acc()) == fold_query(
                q@,
                i as int,
                QueryAcc {
                    owner: opt_view(owner),
                    repo: opt_view(repo),
                    issue: issue,
                    linear: opt_view(linear),
                    url: opt_view(url),
                    editor: opt_view(editor),
                },
            ),
        decreases qn - i,
    {
        let ghost acc_old = QueryAcc {
            owner: opt_view(owner),
            repo: opt_view(repo),
            issue: issue,
            linear: opt_view(linear),
            url: opt_view(url),
            editor: opt_view(editor),
        };
        let j = match text::find_char(q.as_slice(), '&', i) {
            Some(j) => j,
            None => qn,
        };
        let ghost piece_spec = q@.subrange(i as int, j as int);
        if j > i {
            let piece = text::sub_chars(q.as_slice(), i, j);
            let e = text::find_char(piece.as_slice(), '=', 0);
            let key: String = match e {
                Some(e) => text::pct_decode_range(piece.as_slice(), 0, e),
                None => text::pct_decode_range(piece.as_slice(), 0, piece.len()),
            };
            let val: String = match e {
                Some(e) => text::pct_decode_range(piece.as_slice(), e + 1, piece.len()),
                None => String::new(),
            };
            proof {
                match find_from(piece_spec, '=', 0) {
                    Some(e) => {
                        assert(piece_spec.subrange(0, e) =~= piece_spec.take(e));
                        assert(piece_spec.subrange(e + 1, piece_spec.len() as int)
                            =~= piece_spec.skip(e + 1));
                    },
                    None => {
                        assert(piece_spec.subrange(0, piece_spec.len() as int) =~= piece_spec);
                        assert(pct_decode_spec(Seq::<char>::empty()) =~= Seq::<char>::empty());
                    },
                }
            }
            if text::string_eq_lit(&key, "owner") {
                owner = Some(val);
            } else if text::string_eq_lit(&key, "repo") {
                repo = Some(val);
            } else if text::string_eq_lit(&key, "issue") {
                let vc = text::to_chars(val.as_str());
                proof {
                    assert(vc@.subrange(0, vc@.len() as int) =~= val@);
                }
                match text::parse_u64_range(vc.as_slice(), 0, vc.len()) {
                    Some(v) => {
                        issue = Some(v);
                    },
                    None => {
                        return Err(ParseError::InvalidQueryNumber { text: val });
                    },
                }
            } else if text::string_eq_lit(&key, "linear_id") {
                if crate::issue::is_uuid(val.as_str()) {
                    linear = Some(val);
                } else {
                    return Err(ParseError::InvalidUuid { id: val });
                }
            } else if text::string_eq_lit(&key, "url") {
                url = Some(val);
            } else if text::string_eq_lit(&key, "editor") {
                editor = Some(val);
            }
        }
        proof {
            assert(piece_spec.len() == 0 ==> apply_pair(acc_old, piece_spec) == Ok::<
                QueryAcc,
                ParseFault,
            >(acc_old));
        }
        if j == qn {
            i = qn;
        } else {
            i = j + 1;
        }
    }
    let acc_editor = editor;
    let opts = DeepLinkOptions { editor: acc_editor };
    if let Some(u) = url {
        let uc = text::to_chars(u.as_str());
        proof {
            assert(uc@ =~= u@);
        }
        match github_url_chars(uc.as_slice()) {
            Ok(id) => Ok((id, opts)),
            Err(e) => Err(e),
        }
    } else {
        let o = match owner {
            Some(o) => o,
            None => {
                return Err(ParseError::MissingOwner);
            },
        };
        if o.as_str().is_empty() {
            return Err(ParseError::MissingOwner);
        }
        let oc = text::to_chars(o.as_str());
        if text::find_char(oc.as_slice(), '/', 0).is_some() {
            return Err(ParseError::InvalidOwner { text: o });
        }
        let rp = match repo {
            Some(rp) => rp,
            None => {
                return Err(ParseError::MissingRepo);
            },
        };
        if rp.as_str().is_empty() {
            return Err(ParseError::MissingRepo);
        }
        let rc = text::to_chars(rp.as_str());
        if text::find_char(rc.as_slice(), '/', 0).is_some() {
            return Err(ParseError::InvalidRepo { text: rp });
        }
        if let Some(id) = linear {
            Ok((IssueRef::Linear { owner: o, repo: rp, id }, opts))
        } else {
            let num = match issue {
                Some(num) => num,
                None => {
                    return Err(ParseError::MissingIssue);
                },
            };
            Ok((IssueRef::GitHub { owner: o, repo: rp, number: num }, opts))
        }
    }
}

impl IssueRef {
    /// Parse any of the supported input formats:
    /// - `https://github.com/owner/repo/issues/42`
    /// - `worktree://open?owner=X&repo=Y&issue=42`
    /// - `worktree://open?url=<encoded-github-url>`
    /// - `worktree://open?owner=X&repo=Y&linear_id=<uuid>`
    /// - `owner/repo#42`
    /// - `owner/repo@<linear-uuid>`
    pub fn parse(s: &str) -> (r: Result<IssueRef, ParseError>)
        ensures
            res_view(r) == parse_spec(s@),
            (r matches Ok(i) ==> crate::issue::id_wf(i@)),
    {
        proof {
            crate::issue::laws::lemma_parsed_identity_wf(s@);
        }
        let cs = text::to_chars(s);
        let (lo, hi) = text::trim_bounds(cs.as_slice());
        let t = text::sub_chars(cs.as_slice(), lo, hi);
        let tn = t.len();
        proof {
            assert(t@ == trim_spec(s@));
            assert(t@.subrange(0, tn as int) =~= t@);
        }
        if text::matches_at_lit(t.as_slice(), "worktree://", 0) {
            match worktree_url_chars(t.as_slice()) {
                Ok((id, _)) => Ok(id),
                Err(e) => Err(e),
            }
        } else if text::matches_at_lit(t.as_slice(), "https://github.com", 0)
            || text::matches_at_lit(t.as_slice(), "http://github.com", 0) {
            github_url_chars(t.as_slice())
        } else {
            match shorthand_chars(t.as_slice()) {
                Some(res) => res,
                None => Err(ParseError::Unrecognized { input: text::chars_to_string(t.as_slice(), 0, tn) }),
            }
        }
    }

    /// Like [`IssueRef::parse`] but also returns any [`DeepLinkOptions`]
    /// embedded in a `worktree://` URL (e.g. the `editor` query param).
    /// Every other input form yields empty options.
    pub fn parse_with_options(s: &str) -> (r: Result<(IssueRef, DeepLinkOptions), ParseError>)
        ensures
            opts_view(r) == parse_with_options_spec(s@),
            (r matches Ok(p) ==> crate::issue::id_wf(p.0@)),
            !matches_at(trim_spec(s@), "worktree://"@, 0) ==> (r matches Ok(p) ==> p.1@ is None),
    {
        proof {
            crate::issue::laws::lemma_parsed_identity_wf(s@);
        }
        let cs = text::to_chars(s);
        let (lo, hi) = text::trim_bounds(cs.as_slice());
        let t = text::sub_chars(cs.as_slice(), lo, hi);
        proof {
            assert(t@ == trim_spec(s@));
        }
        if text::matches_at_lit(t.as_slice(), "worktree://", 0) {
            worktree_url_chars(t.as_slice())
        } else {
            match Self::parse(s) {
                Ok(id) => Ok((id, DeepLinkOptions { editor: None })),
                Err(e) => Err(e),
            }
        }
    }
}

} // verus!
