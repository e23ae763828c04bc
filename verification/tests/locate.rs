use wasm_bridge::locate::{join_path, resolve_module_path, strip_leading_separator, SEPARATOR};

#[test]
fn separator_is_a_slash() {
    assert_eq!(SEPARATOR, '/');
}

#[test]
fn absolute_first_argument_is_placed_under_root() {
    assert_eq!(resolve_module_path("/rootfs", "/bin/app"), "/rootfs/bin/app");
}

#[test]
fn relative_first_argument_resolves_alike() {
    assert_eq!(resolve_module_path("/rootfs", "bin/app"), "/rootfs/bin/app");
    assert_eq!(
        resolve_module_path("/rootfs", "bin/app"),
        resolve_module_path("/rootfs", "/bin/app")
    );
}

#[test]
fn only_one_separator_is_stripped() {
    assert_eq!(strip_leading_separator("//bin/app"), "/bin/app");
    assert_eq!(strip_leading_separator("/bin/app"), "bin/app");
    assert_eq!(strip_leading_separator("bin/app"), "bin/app");
    assert_eq!(strip_leading_separator("/"), "");
    assert_eq!(strip_leading_separator(""), "");
}

#[test]
fn resolved_path_stays_under_root() {
    for arg in ["/bin/app", "bin/app", "//etc/passwd", "", "/", "app.wasm"] {
        let path = resolve_module_path("/rootfs", arg);
        assert!(path.starts_with("/rootfs"), "{path} leaves the root");
    }
    assert_eq!(resolve_module_path("/rootfs", "//etc/passwd"), "/rootfs//etc/passwd");
}

#[test]
fn join_adds_a_separator_only_where_needed() {
    assert_eq!(join_path("/rootfs", "app"), "/rootfs/app");
    assert_eq!(join_path("/rootfs/", "app"), "/rootfs/app");
    assert_eq!(join_path("/", "app"), "/app");
    assert_eq!(join_path("", "app"), "app");
    assert_eq!(join_path("/rootfs", ""), "/rootfs/");
}

#[test]
fn paths_may_hold_any_characters() {
    assert_eq!(resolve_module_path("/räume", "/größe/app.wasm"), "/räume/größe/app.wasm");
    assert_eq!(strip_leading_separator("/é"), "é");
}
