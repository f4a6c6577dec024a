use hyprgreetr::paths::{expand_tilde, expand_tilde_with, join, motd_file_in};

#[test]
fn tilde_slash_is_replaced_by_home() {
    assert_eq!(expand_tilde_with("~/x", Some("/home/u")), "/home/u/x");
}

#[test]
fn lone_tilde_is_home() {
    assert_eq!(expand_tilde_with("~", Some("/home/u")), "/home/u");
}

#[test]
fn absolute_path_is_unchanged() {
    assert_eq!(expand_tilde_with("/abs/path", Some("/home/u")), "/abs/path");
    assert_eq!(expand_tilde("/abs/path"), "/abs/path");
}

#[test]
fn unknown_home_leaves_tilde() {
    assert_eq!(expand_tilde_with("~/x", None), "~/x");
    assert_eq!(expand_tilde_with("~", None), "~");
}

#[test]
fn tilde_user_form_is_unchanged() {
    assert_eq!(expand_tilde_with("~bob/x", Some("/home/u")), "~bob/x");
}

#[test]
fn join_inserts_one_separator() {
    assert_eq!(join("/a", "b"), "/a/b");
    assert_eq!(join("/a/", "b"), "/a/b");
    assert_eq!(join("", "b"), "b");
    assert_eq!(join("/a", "/b"), "/b");
}

#[test]
fn motd_file_under_config_dir() {
    assert_eq!(motd_file_in(Some("/home/u/.config")), "/home/u/.config/hyprgreetr/motd.toml");
    assert_eq!(motd_file_in(None), ".config/hyprgreetr/motd.toml");
}
