use worktree_io::issue::is_uuid;
use worktree_io::IssueRef;

#[test]
fn test_parse_shorthand() {
    let r = IssueRef::parse("owner/repo#42").unwrap();
    assert_eq!(
        r,
        IssueRef::GitHub {
            owner: "owner".into(),
            repo: "repo".into(),
            number: 42
        }
    );
}

#[test]
fn test_parse_github_url() {
    let r = IssueRef::parse("https://github.com/microsoft/vscode/issues/12345").unwrap();
    assert_eq!(
        r,
        IssueRef::GitHub {
            owner: "microsoft".into(),
            repo: "vscode".into(),
            number: 12345
        }
    );
}

#[test]
fn test_parse_worktree_url() {
    let r = IssueRef::parse("worktree://open?owner=acme&repo=api&issue=7").unwrap();
    assert_eq!(
        r,
        IssueRef::GitHub {
            owner: "acme".into(),
            repo: "api".into(),
            number: 7
        }
    );
}

#[test]
fn test_parse_worktree_url_with_editor_symbolic() {
    let (r, opts) =
        IssueRef::parse_with_options("worktree://open?owner=acme&repo=api&issue=42&editor=cursor")
            .unwrap();
    assert_eq!(
        r,
        IssueRef::GitHub {
            owner: "acme".into(),
            repo: "api".into(),
            number: 42,
        }
    );
    assert_eq!(opts.editor.as_deref(), Some("cursor"));
}

#[test]
fn test_parse_worktree_url_with_editor_raw_command() {
    let (r, opts) = IssueRef::parse_with_options(
        "worktree://open?owner=acme&repo=api&issue=42&editor=my-editor%20.",
    )
    .unwrap();
    assert_eq!(
        r,
        IssueRef::GitHub {
            owner: "acme".into(),
            repo: "api".into(),
            number: 42
        }
    );
    assert_eq!(opts.editor.as_deref(), Some("my-editor ."));
}

#[test]
fn test_parse_with_options_no_editor() {
    let (_r, opts) =
        IssueRef::parse_with_options("worktree://open?owner=acme&repo=api&issue=42").unwrap();
    assert!(opts.editor.is_none());
}

#[test]
fn test_parse_with_options_non_deep_link() {
    let (_r, opts) = IssueRef::parse_with_options("acme/api#42").unwrap();
    assert!(opts.editor.is_none());
}

#[test]
fn test_paths() {
    let r = IssueRef::GitHub {
        owner: "acme".into(),
        repo: "api".into(),
        number: 7,
    };
    assert!(r.bare_clone_path("/home/user").ends_with("worktrees/github/acme/api"));
    assert!(r.temp_path("/home/user").ends_with("worktrees/github/acme/api/issue-7"));
}

#[test]
fn test_clone_url() {
    let r = IssueRef::GitHub {
        owner: "acme".into(),
        repo: "api".into(),
        number: 7,
    };
    assert_eq!(r.clone_url(), "https://github.com/acme/api.git");
}

#[test]
fn test_parse_linear_shorthand() {
    let uuid = "9cad7a4b-9426-4788-9dbc-e784df999053";
    let r = IssueRef::parse(&format!("acme/api@{uuid}")).unwrap();
    assert_eq!(
        r,
        IssueRef::Linear {
            owner: "acme".into(),
            repo: "api".into(),
            id: uuid.into(),
        }
    );
}

#[test]
fn test_parse_linear_shorthand_invalid_uuid() {
    let err = IssueRef::parse("acme/api@not-a-uuid").unwrap_err();
    assert!(err.message().contains("Invalid Linear issue UUID"));
}

#[test]
fn test_parse_linear_worktree_url() {
    let uuid = "9cad7a4b-9426-4788-9dbc-e784df999053";
    let url = format!("worktree://open?owner=acme&repo=api&linear_id={uuid}");
    let r = IssueRef::parse(&url).unwrap();
    assert_eq!(
        r,
        IssueRef::Linear {
            owner: "acme".into(),
            repo: "api".into(),
            id: uuid.into(),
        }
    );
}

#[test]
fn test_parse_linear_worktree_url_with_editor() {
    let uuid = "9cad7a4b-9426-4788-9dbc-e784df999053";
    let url = format!("worktree://open?owner=acme&repo=api&linear_id={uuid}&editor=cursor");
    let (r, opts) = IssueRef::parse_with_options(&url).unwrap();
    assert_eq!(
        r,
        IssueRef::Linear {
            owner: "acme".into(),
            repo: "api".into(),
            id: uuid.into(),
        }
    );
    assert_eq!(opts.editor.as_deref(), Some("cursor"));
}

#[test]
fn test_linear_workspace_dir_name() {
    let uuid = "9cad7a4b-9426-4788-9dbc-e784df999053";
    let r = IssueRef::Linear {
        owner: "acme".into(),
        repo: "api".into(),
        id: uuid.into(),
    };
    assert_eq!(r.workspace_dir_name(), format!("linear-{uuid}"));
    assert_eq!(r.branch_name(), format!("linear-{uuid}"));
}

#[test]
fn test_linear_clone_url() {
    let r = IssueRef::Linear {
        owner: "acme".into(),
        repo: "api".into(),
        id: "9cad7a4b-9426-4788-9dbc-e784df999053".into(),
    };
    assert_eq!(r.clone_url(), "https://github.com/acme/api.git");
}

#[test]
fn test_linear_paths() {
    let uuid = "9cad7a4b-9426-4788-9dbc-e784df999053";
    let r = IssueRef::Linear {
        owner: "acme".into(),
        repo: "api".into(),
        id: uuid.into(),
    };
    assert!(r.bare_clone_path("/home/user").ends_with("worktrees/github/acme/api"));
    assert!(r
        .temp_path("/home/user")
        .ends_with(&format!("worktrees/github/acme/api/linear-{uuid}")));
}

#[test]
fn test_is_uuid_valid() {
    assert!(is_uuid("9cad7a4b-9426-4788-9dbc-e784df999053"));
    assert!(is_uuid("00000000-0000-0000-0000-000000000000"));
    assert!(is_uuid("FFFFFFFF-FFFF-FFFF-FFFF-FFFFFFFFFFFF"));
}

#[test]
fn test_is_uuid_invalid() {
    assert!(!is_uuid("not-a-uuid"));
    assert!(!is_uuid("9cad7a4b-9426-4788-9dbc"));
    assert!(!is_uuid("9cad7a4b94264788-9dbc-e784df999053"));
    assert!(!is_uuid("9cad7a4b-9426-4788-9dbc-e784df99905z"));
}

#[test]
fn test_uuid_parse_valid() {
    assert!(is_uuid("9cad7a4b-9426-4788-9dbc-e784df999053"));
    assert!(is_uuid("00000000-0000-0000-0000-000000000000"));
    assert!(is_uuid("FFFFFFFF-FFFF-FFFF-FFFF-FFFFFFFFFFFF"));
}

#[test]
fn test_uuid_parse_invalid() {
    assert!(!is_uuid("not-a-uuid"));
    assert!(!is_uuid("9cad7a4b-9426-4788-9dbc"));
    assert!(!is_uuid("9cad7a4b94264788-9dbc-e784df999053"));
    assert!(!is_uuid("9cad7a4b-9426-4788-9dbc-e784df99905z"));
}
