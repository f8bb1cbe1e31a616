use worktree_io::config::{Config, ConfigError};
use worktree_io::daemon::DaemonStatus;
use worktree_io::git::{default_branch_from_remote_show, default_branch_from_symbolic_ref, origin_ref};
use worktree_io::hooks::{build_hook_context, HookContext};
use worktree_io::opener::{augmented_path, editor_launch_command, resolve_editor_symbol, shlex_split};
use worktree_io::scheme::{applescript_quoted, SchemeStatus};
use worktree_io::IssueRef;

#[test]
fn config_defaults_and_round_trip() {
    let mut c = Config::default();
    assert_eq!(c.get_value("editor.command").unwrap(), "");
    assert_eq!(c.get_value("open.editor").unwrap(), "false");
    assert_eq!(c.get_value("open.terminal").unwrap(), "true");

    c.set_value("editor.command", "code .").unwrap();
    assert_eq!(c.get_value("editor.command").unwrap(), "code .");
    c.set_value("editor.command", "").unwrap();
    assert!(c.editor.command.is_none());

    c.set_value("open.explorer", "true").unwrap();
    assert_eq!(c.get_value("open.explorer").unwrap(), "true");

    let err = c.set_value("open.editor", "yes").unwrap_err();
    assert!(matches!(err, ConfigError::InvalidBool { .. }));
    assert_eq!(err.message(), "Invalid boolean value: yes");

    let err = c.get_value("no.such.key").unwrap_err();
    assert!(matches!(err, ConfigError::UnknownKey { .. }));
    assert_eq!(err.message(), "Unknown config key: no.such.key");
}

#[test]
fn hook_render_substitutes_every_variable() {
    let ctx = HookContext {
        owner: "acme".into(),
        repo: "api".into(),
        issue: "7".into(),
        branch: "issue-7".into(),
        worktree_path: "/tmp/wt".into(),
    };
    let out = ctx.render("cd {{worktree_path}} && echo {{owner}}/{{repo}}#{{issue}} on {{branch}}");
    assert_eq!(out, "cd /tmp/wt && echo acme/api#7 on issue-7");
}

#[test]
fn hook_context_is_built_from_the_identity() {
    let issue = IssueRef::parse("acme/api#7").unwrap();
    let ctx = build_hook_context(&issue, "/tmp/wt");
    assert_eq!(ctx.owner, "acme");
    assert_eq!(ctx.repo, "api");
    assert_eq!(ctx.issue, "7");
    assert_eq!(ctx.branch, "issue-7");
    assert_eq!(ctx.worktree_path, "/tmp/wt");
}

#[test]
fn symbolic_ref_output_is_stripped() {
    assert_eq!(
        default_branch_from_symbolic_ref("refs/remotes/origin/main\n").as_deref(),
        Some("main")
    );
    assert_eq!(default_branch_from_symbolic_ref("something else\n"), None);
}

#[test]
fn remote_show_report_yields_the_head_branch() {
    let report = "* remote origin\n  Fetch URL: git@github.com:acme/api.git\n  HEAD branch: develop\n  Remote branches:\n";
    assert_eq!(default_branch_from_remote_show(report).as_deref(), Some("develop"));
    assert_eq!(default_branch_from_remote_show("nothing here"), None);
}

#[test]
fn origin_ref_prefixes_the_branch() {
    assert_eq!(origin_ref("issue-7"), "refs/remotes/origin/issue-7");
}

#[test]
fn editor_symbols_resolve_case_insensitively() {
    assert_eq!(resolve_editor_symbol("cursor").as_deref(), Some("cursor ."));
    assert_eq!(resolve_editor_symbol("Code").as_deref(), Some("code ."));
    assert_eq!(resolve_editor_symbol("ITERM2").as_deref(), Some("open -a iTerm ."));
    assert_eq!(resolve_editor_symbol("wezterm").as_deref(), Some("wezterm start --cwd ."));
    assert_eq!(resolve_editor_symbol("my-editor ."), None);
}

#[test]
fn launch_command_substitutes_the_path() {
    assert_eq!(editor_launch_command("code .", "/tmp/wt"), "code /tmp/wt");
    assert_eq!(
        editor_launch_command("alacritty --working-directory .", "/tmp/wt"),
        "alacritty --working-directory /tmp/wt"
    );
    assert_eq!(editor_launch_command("myedit", "/tmp/wt"), "myedit /tmp/wt");
}

#[test]
fn shlex_split_respects_quotes() {
    let parts = shlex_split("open -a \"Sublime Text\" file");
    assert_eq!(parts, vec!["open", "-a", "Sublime Text", "file"]);
    let parts = shlex_split("  spaced\tout  ");
    assert_eq!(parts, vec!["spaced", "out"]);
}

#[test]
fn augmented_path_seeds_and_dedups() {
    let p = augmented_path("/usr/bin:/usr/local/bin:/usr/bin");
    assert_eq!(p, "/usr/local/bin:/opt/homebrew/bin:/opt/homebrew/sbin:/usr/bin");
    let p = augmented_path("");
    assert_eq!(p, "/usr/local/bin:/opt/homebrew/bin:/opt/homebrew/sbin");
}

#[test]
fn applescript_quoting_escapes_specials() {
    assert_eq!(applescript_quoted("plain"), "\"plain\"");
    assert_eq!(applescript_quoted("a\"b\\c"), "\"a\\\"b\\\\c\"");
}

#[test]
fn status_messages() {
    let s = SchemeStatus::Installed { path: "/apps/handler".into() };
    assert_eq!(s.message(), "Installed at /apps/handler");
    assert_eq!(SchemeStatus::NotInstalled.message(), "Not installed");
    let d = DaemonStatus::Installed { path: "/apps/daemon".into() };
    assert_eq!(d.message(), "Installed at /apps/daemon");
    assert_eq!(DaemonStatus::NotInstalled.message(), "Not installed");
}
