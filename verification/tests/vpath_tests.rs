use flows_host::vpath::{absolutize_under, is_path_prefix, path_eq};
use flows_host::wasi::Errno;

fn p(parts: &[&str]) -> Vec<String> {
    parts.iter().map(|s| s.to_string()).collect()
}

#[test]
fn relative_path_resolves_below_base() {
    let base = p(&["srv", "work"]);
    assert_eq!(absolutize_under(&base, "a/b/c"), Ok(p(&["srv", "work", "a", "b", "c"])));
}

#[test]
fn dot_and_empty_components_are_skipped() {
    let base = p(&["srv", "work"]);
    assert_eq!(absolutize_under(&base, "./a//b/./"), Ok(p(&["srv", "work", "a", "b"])));
    assert_eq!(absolutize_under(&base, ""), Ok(p(&["srv", "work"])));
    assert_eq!(absolutize_under(&base, "."), Ok(p(&["srv", "work"])));
}

#[test]
fn dotdot_inside_base_is_allowed() {
    let base = p(&["srv", "work"]);
    assert_eq!(absolutize_under(&base, "a/../b"), Ok(p(&["srv", "work", "b"])));
    // Leaving and re-entering the base lexically is still inside it.
    assert_eq!(absolutize_under(&base, "../work/c"), Ok(p(&["srv", "work", "c"])));
}

#[test]
fn escape_is_a_missing_entry() {
    let base = p(&["srv", "work"]);
    assert_eq!(absolutize_under(&base, "../../etc/passwd"), Err(Errno::Noent));
    assert_eq!(absolutize_under(&base, ".."), Err(Errno::Noent));
    // Popping past the host root stays at the root, which is outside the base.
    assert_eq!(absolutize_under(&base, "../../../../../etc"), Err(Errno::Noent));
}

#[test]
fn absolute_path_restarts_from_host_root() {
    let base = p(&["srv", "work"]);
    assert_eq!(absolutize_under(&base, "/srv/work/x"), Ok(p(&["srv", "work", "x"])));
    assert_eq!(absolutize_under(&base, "/etc/passwd"), Err(Errno::Noent));
}

#[test]
fn prefix_and_equality() {
    let a = p(&["srv", "work"]);
    let b = p(&["srv", "work", "x"]);
    assert!(is_path_prefix(&a, &b));
    assert!(!is_path_prefix(&b, &a));
    assert!(is_path_prefix(&a, &a));
    assert!(path_eq(&a, &p(&["srv", "work"])));
    assert!(!path_eq(&a, &b));
    assert!(!path_eq(&a, &p(&["srv", "other"])));
}
