use worktree_io::issue::ParseError;
use worktree_io::IssueRef;

#[test]
fn shorthand_example_scenario() {
    let r = IssueRef::parse("acme/widgets#417").unwrap();
    assert_eq!(
        r,
        IssueRef::GitHub {
            owner: "acme".into(),
            repo: "widgets".into(),
            number: 417
        }
    );
    assert_eq!(r.clone_url(), "https://github.com/acme/widgets.git");
    assert_eq!(r.branch_name(), "issue-417");
}

#[test]
fn linear_example_scenario() {
    let uuid = "9cad7a4b-9426-4788-9dbc-e784df999053";
    let r = IssueRef::parse(&format!("acme/widgets@{uuid}")).unwrap();
    assert_eq!(
        r,
        IssueRef::Linear {
            owner: "acme".into(),
            repo: "widgets".into(),
            id: uuid.into(),
        }
    );
    assert_eq!(r.branch_name(), format!("linear-{uuid}"));
}

#[test]
fn url_param_wins_over_linear_id() {
    let uuid = "9cad7a4b-9426-4788-9dbc-e784df999053";
    let url = format!(
        "worktree://open?owner=other&repo=other&linear_id={uuid}&issue=5\
         &url=https%3A%2F%2Fgithub.com%2Facme%2Fwidgets%2Fissues%2F9"
    );
    let r = IssueRef::parse(&url).unwrap();
    assert_eq!(
        r,
        IssueRef::GitHub {
            owner: "acme".into(),
            repo: "widgets".into(),
            number: 9
        }
    );
}

#[test]
fn linear_id_wins_over_issue() {
    let uuid = "9cad7a4b-9426-4788-9dbc-e784df999053";
    let url = format!("worktree://open?owner=acme&repo=api&issue=3&linear_id={uuid}");
    let r = IssueRef::parse(&url).unwrap();
    assert_eq!(
        r,
        IssueRef::Linear {
            owner: "acme".into(),
            repo: "api".into(),
            id: uuid.into(),
        }
    );
}

#[test]
fn later_query_param_overwrites_earlier() {
    let r = IssueRef::parse("worktree://open?owner=a&owner=b&repo=r&issue=1").unwrap();
    assert_eq!(
        r,
        IssueRef::GitHub {
            owner: "b".into(),
            repo: "r".into(),
            number: 1
        }
    );
}

#[test]
fn input_is_trimmed() {
    let r = IssueRef::parse("  acme/api#42\n").unwrap();
    assert_eq!(
        r,
        IssueRef::GitHub {
            owner: "acme".into(),
            repo: "api".into(),
            number: 42
        }
    );
}

#[test]
fn percent_decoding_in_query_values() {
    let (r, opts) =
        IssueRef::parse_with_options("worktree://open?owner=ac%6De&repo=api&issue=2&editor=a+b")
            .unwrap();
    assert_eq!(
        r,
        IssueRef::GitHub {
            owner: "acme".into(),
            repo: "api".into(),
            number: 2
        }
    );
    assert_eq!(opts.editor.as_deref(), Some("a b"));
}

#[test]
fn largest_issue_number_parses() {
    let r = IssueRef::parse("a/b#18446744073709551615").unwrap();
    assert_eq!(
        r,
        IssueRef::GitHub {
            owner: "a".into(),
            repo: "b".into(),
            number: u64::MAX
        }
    );
    let err = IssueRef::parse("a/b#18446744073709551616").unwrap_err();
    assert!(matches!(err, ParseError::InvalidShorthandNumber { .. }));
}

#[test]
fn unrecognized_input_lists_the_formats() {
    let err = IssueRef::parse("hello").unwrap_err();
    assert!(matches!(err, ParseError::Unrecognized { .. }));
    let msg = err.message();
    assert!(msg.contains("Could not parse issue reference"));
    assert!(msg.contains("owner/repo#42"));
    assert!(msg.contains("worktree://open?owner=owner&repo=repo&issue=42"));
}

#[test]
fn error_variants_and_messages() {
    // A nested url param that is no URL at all.
    let err = IssueRef::parse("worktree://open?url=nonsense").unwrap_err();
    assert!(matches!(err, ParseError::InvalidUrl { .. }));
    assert!(err.message().contains("Invalid URL: nonsense"));

    // A GitHub URL without the issues path.
    let err = IssueRef::parse("https://github.com/acme/api").unwrap_err();
    assert!(matches!(err, ParseError::ExpectedIssueUrl { .. }));
    assert!(err.message().contains("Expected GitHub issue URL"));

    // A GitHub URL with a bad number segment.
    let err = IssueRef::parse("https://github.com/acme/api/issues/xyz").unwrap_err();
    assert!(matches!(err, ParseError::InvalidUrlNumber { .. }));
    assert!(err.message().contains("Invalid issue number in URL: xyz"));

    // A deep link with a bad issue number.
    let err = IssueRef::parse("worktree://open?owner=a&repo=b&issue=abc").unwrap_err();
    assert!(matches!(err, ParseError::InvalidQueryNumber { .. }));
    assert!(err.message().contains("Invalid issue number: abc"));

    // A deep link with a bad linear id.
    let err = IssueRef::parse("worktree://open?owner=a&repo=b&linear_id=zzz").unwrap_err();
    assert!(matches!(err, ParseError::InvalidUuid { .. }));
    assert!(err.message().contains("Invalid Linear issue UUID: zzz"));

    // A shorthand with an empty owner.
    let err = IssueRef::parse("/repo#1").unwrap_err();
    assert!(matches!(err, ParseError::InvalidShorthand { .. }));
    assert!(err.message().contains("Invalid shorthand format"));

    // A shorthand with a bad number.
    let err = IssueRef::parse("a/b#x1").unwrap_err();
    assert!(matches!(err, ParseError::InvalidShorthandNumber { .. }));
    assert!(err.message().contains("Invalid issue number in shorthand: x1"));

    // Deep links missing required params, in resolution order.
    let err = IssueRef::parse("worktree://open?issue=1").unwrap_err();
    assert!(matches!(err, ParseError::MissingOwner));
    assert_eq!(err.message(), "Missing 'owner' query param");
    let err = IssueRef::parse("worktree://open?owner=a&issue=1").unwrap_err();
    assert!(matches!(err, ParseError::MissingRepo));
    assert_eq!(err.message(), "Missing 'repo' query param");
    let err = IssueRef::parse("worktree://open?owner=a&repo=b").unwrap_err();
    assert!(matches!(err, ParseError::MissingIssue));
    assert_eq!(err.message(), "Missing 'issue' query param");
}

#[test]
fn deep_link_owner_and_repo_must_be_usable() {
    // A present-but-empty owner or repo counts as missing: every
    // parsed identity has a nonempty owner and repo.
    let err = IssueRef::parse("worktree://open?owner=&repo=x&issue=1").unwrap_err();
    assert!(matches!(err, ParseError::MissingOwner));
    let err = IssueRef::parse("worktree://open?owner=a&repo=&issue=1").unwrap_err();
    assert!(matches!(err, ParseError::MissingRepo));
    // A percent-encoded path separator cannot smuggle a slash into a
    // component, which would break the path layout.
    let err = IssueRef::parse("worktree://open?owner=a%2Fb&repo=x&issue=1").unwrap_err();
    assert!(matches!(err, ParseError::InvalidOwner { .. }));
    assert_eq!(err.message(), "Invalid 'owner' query param: a/b");
    let err = IssueRef::parse("worktree://open?owner=a&repo=x%2Fy&issue=1").unwrap_err();
    assert!(matches!(err, ParseError::InvalidRepo { .. }));
    assert_eq!(err.message(), "Invalid 'repo' query param: x/y");
    let uuid = "9cad7a4b-9426-4788-9dbc-e784df999053";
    let err =
        IssueRef::parse(&format!("worktree://open?owner=&repo=x&linear_id={uuid}")).unwrap_err();
    assert!(matches!(err, ParseError::MissingOwner));
}

#[test]
fn invalid_uuid_never_falls_through() {
    // Even though `a/b@x#3` holds a `#`, the `@` commits it to the
    // Linear form and the bad UUID is a hard error.
    let err = IssueRef::parse("a/b@x#3").unwrap_err();
    assert!(matches!(err, ParseError::InvalidShorthandUuid { .. }));
    assert!(err.message().contains("Invalid Linear issue UUID in shorthand"));
}

#[test]
fn query_edges_fragments_and_stray_separators() {
    // A fragment ends the query.
    let r = IssueRef::parse("worktree://open?owner=a&repo=b&issue=3#frag&issue=9").unwrap();
    assert_eq!(
        r,
        IssueRef::GitHub {
            owner: "a".into(),
            repo: "b".into(),
            number: 3
        }
    );
    // Empty pairs between separators are skipped.
    let r = IssueRef::parse("worktree://open?owner=a&&repo=b&issue=3&").unwrap();
    assert_eq!(
        r,
        IssueRef::GitHub {
            owner: "a".into(),
            repo: "b".into(),
            number: 3
        }
    );
    // Only the first `=` separates key and value.
    let (_r, opts) =
        IssueRef::parse_with_options("worktree://open?owner=a&repo=b&issue=3&editor=vi=m")
            .unwrap();
    assert_eq!(opts.editor.as_deref(), Some("vi=m"));
    // A key without `=` has an empty value.
    let (_r, opts) =
        IssueRef::parse_with_options("worktree://open?owner=a&repo=b&issue=3&editor").unwrap();
    assert_eq!(opts.editor.as_deref(), Some(""));
}

#[test]
fn github_url_tolerates_query_fragment_and_trailing_slash() {
    let r = IssueRef::parse("https://github.com/acme/api/issues/42?tab=all#comment-1").unwrap();
    assert_eq!(
        r,
        IssueRef::GitHub {
            owner: "acme".into(),
            repo: "api".into(),
            number: 42
        }
    );
    let r = IssueRef::parse("https://github.com/acme/api/issues/42/").unwrap();
    assert_eq!(
        r,
        IssueRef::GitHub {
            owner: "acme".into(),
            repo: "api".into(),
            number: 42
        }
    );
}

#[test]
fn derived_paths_are_reproducible_and_distinct() {
    let a = IssueRef::parse("acme/api#7").unwrap();
    let b = IssueRef::parse("acme/api#8").unwrap();
    let root = "/home/user";
    assert_eq!(a.temp_path(root), a.temp_path(root));
    assert_eq!(a.bare_clone_path(root), b.bare_clone_path(root));
    assert_ne!(a.temp_path(root), b.temp_path(root));
    assert_eq!(a.temp_path(root), "/home/user/worktrees/github/acme/api/issue-7");
    let c = IssueRef::parse("acme/api@9cad7a4b-9426-4788-9dbc-e784df999053").unwrap();
    assert_ne!(a.temp_path(root), c.temp_path(root));
    assert_eq!(
        c.temp_path(root),
        "/home/user/worktrees/github/acme/api/linear-9cad7a4b-9426-4788-9dbc-e784df999053"
    );
}
