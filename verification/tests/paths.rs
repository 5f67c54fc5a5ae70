use git_progress_sync::config::Config;
use git_progress_sync::error::{RunGitErrorKind, StdErr};
use git_progress_sync::git::{get_git_current_repo_name, parse_query_output};
use git_progress_sync::text::{file_name_of, trim_spaces};

#[test]
fn stash_filepath_concrete() {
    let config = Config::new(String::from("/root/stashes"));
    let path = config.get_stash_filepath("foo", "main");
    assert_eq!(path, "/root/stashes/foo - main.stash");
}

#[test]
fn stash_filepath_uses_configured_root() {
    let old = Config::new(String::from("/old"));
    let new = Config::new(String::from("/new"));
    let old_path = old.get_stash_filepath("repo", "dev");
    let new_path = new.get_stash_filepath("repo", "dev");
    assert_eq!(new_path, "/new/repo - dev.stash");
    assert!(new_path.starts_with("/new/"));
    assert!(!new_path.starts_with("/old"));
    assert_eq!(old_path, "/old/repo - dev.stash");
}

#[test]
fn stash_filepath_distinct_branches() {
    let config = Config::new(String::from("/r"));
    let a = config.get_stash_filepath("repo", "main");
    let b = config.get_stash_filepath("repo", "feature");
    assert_ne!(a, b);
}

#[test]
fn default_config_filepath_ends_with_config_toml() {
    if let Some(path) = Config::get_default_config_filepath() {
        assert!(path.ends_with("/config.toml"));
    }
}

#[test]
fn default_root_directory_ends_with_stashes() {
    if let Some(path) = Config::get_default_root_directory() {
        assert!(path.ends_with("/stashes"));
    }
}

#[test]
fn default_config_points_at_stashes() {
    if let Some(config) = Config::default() {
        assert!(config.root_directory.ends_with("/stashes"));
    }
}

#[test]
fn repo_name_is_final_component() {
    let name = get_git_current_repo_name("/home/user/foo").unwrap();
    assert_eq!(name, "foo");
}

#[test]
fn repo_name_ignores_trailing_slashes() {
    let name = get_git_current_repo_name("/home/user/foo//").unwrap();
    assert_eq!(name, "foo");
}

#[test]
fn repo_name_without_separators() {
    let name = get_git_current_repo_name("foo").unwrap();
    assert_eq!(name, "foo");
}

#[test]
fn repo_name_of_root_fails() {
    let err = get_git_current_repo_name("/").unwrap_err();
    assert!(err.args.is_empty());
    match err.kind {
        RunGitErrorKind::StdioError(message) => {
            assert_eq!(message, "failed to get root git repo directory filename");
        }
        RunGitErrorKind::NonZeroExitCode { .. } => panic!("expected a stdio error"),
    }
}

#[test]
fn repo_name_of_dot_dot_fails() {
    assert!(get_git_current_repo_name("/a/..").is_err());
    assert!(get_git_current_repo_name("/a/.").is_err());
    assert!(get_git_current_repo_name("").is_err());
}

#[test]
fn file_name_cases() {
    assert_eq!(file_name_of("/a/b/c"), Some(String::from("c")));
    assert_eq!(file_name_of("/a/b/"), Some(String::from("b")));
    assert_eq!(file_name_of("c"), Some(String::from("c")));
    assert_eq!(file_name_of("/"), None);
    assert_eq!(file_name_of("///"), None);
    assert_eq!(file_name_of(""), None);
    assert_eq!(file_name_of("/a/.."), None);
    assert_eq!(file_name_of("."), None);
    assert_eq!(file_name_of("..hidden"), Some(String::from("..hidden")));
}

#[test]
fn trim_removes_surrounding_whitespace() {
    assert_eq!(trim_spaces(" \t hello \n"), "hello");
    assert_eq!(trim_spaces("main\n"), "main");
    assert_eq!(trim_spaces("a b"), "a b");
    assert_eq!(trim_spaces("   "), "");
    assert_eq!(trim_spaces(""), "");
}

#[test]
fn parse_query_output_trims_newline() {
    let out = parse_query_output(&b"main\n".to_vec());
    assert_eq!(out, "main");
}

#[test]
fn parse_query_output_trims_spaces_and_tabs() {
    let out = parse_query_output(&b" \t/home/user/repo \n".to_vec());
    assert_eq!(out, "/home/user/repo");
}

#[test]
fn parse_query_output_replaces_invalid_bytes() {
    let out = parse_query_output(&vec![0xff, b'a']);
    assert_eq!(out, "\u{fffd}a");
}

#[test]
fn stderr_text_is_lenient() {
    let plain = StdErr::new(b"fatal: oops".to_vec());
    assert_eq!(plain.to_text(), "fatal: oops");
    let broken = StdErr::new(vec![b'x', 0xfe]);
    assert_eq!(broken.to_text(), "x\u{fffd}");
}
