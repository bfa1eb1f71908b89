use portablesource_core::paths::{join_under, normalize_install_path};

#[test]
fn normalize_appends_canonical_folder() {
    assert_eq!(normalize_install_path("C:\\Tools"), "C:\\Tools/portablesource");
    assert_eq!(normalize_install_path("/opt/apps"), "/opt/apps/portablesource");
}

#[test]
fn normalize_keeps_canonical_leaf() {
    assert_eq!(normalize_install_path("/opt/portablesource"), "/opt/portablesource");
    assert_eq!(normalize_install_path("portablesource"), "portablesource");
}

#[test]
fn normalize_is_case_insensitive_on_the_leaf() {
    assert_eq!(normalize_install_path("C:\\PortableSource"), "C:\\PortableSource");
    assert_eq!(normalize_install_path("/x/PORTABLESOURCE"), "/x/PORTABLESOURCE");
    assert_eq!(normalize_install_path("/x/pOrTaBlEsOuRcE"), "/x/pOrTaBlEsOuRcE");
}

#[test]
fn normalize_of_empty_path_is_the_folder_itself() {
    assert_eq!(normalize_install_path(""), "portablesource");
}

#[test]
fn normalize_after_trailing_separator_adds_no_second_separator() {
    assert_eq!(normalize_install_path("/opt/apps/"), "/opt/apps/portablesource");
    assert_eq!(normalize_install_path("C:\\"), "C:\\portablesource");
}

#[test]
fn normalize_sees_leaf_through_trailing_separators() {
    assert_eq!(normalize_install_path("/opt/portablesource/"), "/opt/portablesource/");
}

#[test]
fn normalize_is_idempotent_on_samples() {
    for p in ["", "/opt/apps", "C:\\Tools\\", "/opt/PortableSource", "relative/dir", "a/"] {
        let once = normalize_install_path(p);
        let twice = normalize_install_path(&once);
        assert_eq!(twice, once);
    }
}

#[test]
fn normalize_ignores_inner_segments_named_like_the_folder() {
    assert_eq!(
        normalize_install_path("/opt/portablesource/tools"),
        "/opt/portablesource/tools/portablesource"
    );
}

#[test]
fn join_under_inserts_separator_only_when_needed() {
    assert_eq!(join_under("/opt", "repos"), "/opt/repos");
    assert_eq!(join_under("/opt/", "repos"), "/opt/repos");
    assert_eq!(join_under("", "repos"), "repos");
    assert_eq!(join_under("C:\\base\\", "x"), "C:\\base\\x");
}
