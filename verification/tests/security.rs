use secluso::path_safety::{
    check_path_sandboxed, join_validated_child, parent_path, path_components, path_join,
    path_starts_with, sandbox_walk_parent, validate_path_component, PathError,
};
use std::path::{Component, Path, PathBuf};

// This tests to ensure that normal paths work okay.
#[test]
fn accepts_normal_single_component() {
    validate_path_component("front-door", "camera").unwrap();
}

// This tests to ensure that "." cannot collapse the camera path back to the user root directory.
#[test]
fn rejects_current_directory_component() {
    assert!(validate_path_component(".", "camera").is_err());
}

// This tests to ensure that the attacker cannot escape outside the user root directory
#[test]
fn rejects_parent_directory_component() {
    assert!(validate_path_component("..", "camera").is_err());
}

// This tests to ensure the attacker cannot jump over a folder into a sub-folder
#[test]
fn rejects_nested_component() {
    assert!(validate_path_component("cam/sub", "camera").is_err());
}

// This tests to ensure the helper both preserves normal child joins and rejects special components like "." before they can collapse back to the user root.
#[test]
fn join_validated_child_uses_validated_component() {
    let joined = join_validated_child("/tmp/base", "cam1", "camera").unwrap();
    assert_eq!(PathBuf::from(joined), Path::new("/tmp/base").join("cam1"));
    assert!(join_validated_child("/tmp/base", ".", "camera").is_err());
}

fn std_components(s: &str) -> Vec<String> {
    Path::new(s)
        .components()
        .map(|c| match c {
            Component::RootDir => "/".to_string(),
            Component::CurDir => ".".to_string(),
            Component::ParentDir => "..".to_string(),
            Component::Normal(n) => n.to_str().unwrap().to_string(),
            Component::Prefix(_) => unreachable!(),
        })
        .collect()
}

const SAMPLE_PATHS: &[&str] = &[
    "", "/", "//", ".", "..", "./", "./a", "a", "a/", "a//", "a/.", "a/./b", "/a/b", "/a/b/",
    "a/b/..", "../a", ".a", "...", "a/../b", "/./a", "//a//b//", "./.", "././a/.", "a b/c",
    "/tmp/base", "cam/sub", "front-door", ".hidden/x", "x/./../y/", "./..",
];

#[test]
fn components_agree_with_std() {
    for p in SAMPLE_PATHS {
        assert_eq!(path_components(p), std_components(p), "path {:?}", p);
    }
}

#[test]
fn validation_agrees_with_single_normal_component() {
    for p in SAMPLE_PATHS {
        let mut it = Path::new(p).components();
        let expected = matches!((it.next(), it.next()), (Some(Component::Normal(_)), None));
        assert_eq!(validate_path_component(p, "camera").is_ok(), expected, "path {:?}", p);
    }
}

#[test]
fn validation_accepts_trailing_slash_and_hidden_names() {
    assert!(validate_path_component("cam1/", "camera").is_ok());
    assert!(validate_path_component("cam1/.", "camera").is_ok());
    assert!(validate_path_component(".config", "camera").is_ok());
    assert!(validate_path_component("", "camera").is_err());
    assert!(validate_path_component("/", "camera").is_err());
    assert!(validate_path_component("/cam", "camera").is_err());
    assert!(validate_path_component("./cam", "camera").is_err());
}

#[test]
fn validation_error_names_the_parameter() {
    match validate_path_component("..", "camera") {
        Err(PathError::InvalidInput { message }) => {
            assert_eq!(message, "camera must be a single non-special path component")
        }
        other => panic!("unexpected {:?}", other),
    }
}

#[test]
fn join_agrees_with_std() {
    for base in ["", "/", "/tmp/base", "/tmp/base/", "rel", "rel/", "."] {
        for child in ["cam1", "cam1/", "a b", ".x"] {
            let ours = PathBuf::from(path_join(base, child));
            assert_eq!(ours, Path::new(base).join(child), "{:?} {:?}", base, child);
            assert_eq!(
                path_join(base, child),
                Path::new(base).join(child).to_str().unwrap(),
                "{:?} {:?}",
                base,
                child
            );
        }
    }
    assert_eq!(path_join("/tmp/base", "/etc"), "/etc");
}

#[test]
fn joined_child_stays_under_base() {
    for base in ["", "/", "/tmp/base", "/tmp/base/", "rel", "."] {
        let joined = join_validated_child(base, "cam1", "camera").unwrap();
        assert!(path_starts_with(&joined, base));
        assert!(!path_starts_with(base, &joined));
        assert!(Path::new(&joined).starts_with(base));
    }
}

#[test]
fn parent_agrees_with_std_components() {
    for p in SAMPLE_PATHS {
        let ours = parent_path(p);
        let theirs = Path::new(p).parent();
        match (ours, theirs) {
            (Some(a), Some(b)) => {
                assert_eq!(std_components(&a), std_components(b.to_str().unwrap()), "path {:?}", p)
            }
            (None, None) => {}
            (a, b) => panic!("path {:?}: ours {:?}, std {:?}", p, a, b),
        }
    }
    assert_eq!(parent_path("/a/b").as_deref(), Some("/a"));
    assert_eq!(parent_path("a").as_deref(), Some(""));
    assert_eq!(parent_path("/a").as_deref(), Some("/"));
    assert_eq!(parent_path("/"), None);
    assert_eq!(parent_path(""), None);
}

#[test]
fn walk_parent_reports_missing_parent() {
    assert_eq!(sandbox_walk_parent("/srv/data/x").unwrap(), "/srv/data");
    match sandbox_walk_parent("/") {
        Err(PathError::InvalidInput { message }) => {
            assert_eq!(message, "No valid parent for target path")
        }
        other => panic!("unexpected {:?}", other),
    }
}

#[test]
fn starts_with_agrees_with_std() {
    for a in SAMPLE_PATHS {
        for b in SAMPLE_PATHS {
            assert_eq!(path_starts_with(a, b), Path::new(a).starts_with(b), "{:?} {:?}", a, b);
        }
    }
}

#[test]
fn sandbox_decision() {
    assert!(check_path_sandboxed("/srv/users/alice", "/srv/users/alice").is_ok());
    assert!(check_path_sandboxed("/srv/users/alice", "/srv/users/alice/cam1").is_ok());
    match check_path_sandboxed("/srv/users/alice", "/srv/users/alicex") {
        Err(PathError::PermissionDenied { message }) => {
            assert_eq!(message, "Access outside allowed directory")
        }
        other => panic!("unexpected {:?}", other),
    }
    assert!(check_path_sandboxed("/srv/users/alice", "/srv/users").is_err());
}

#[test]
fn valid_component_lands_one_level_below_base() {
    for (base, child) in [("/srv/users/alice", "cam1"), ("/srv/users/alice/", "cam1/"), ("rel", "cam.d")] {
        assert!(validate_path_component(child, "camera").is_ok());
        assert!(!child.starts_with('/') && !child.split('/').any(|x| x == ".."));
        let joined = join_validated_child(base, child, "camera").unwrap();
        assert_eq!(Path::new(&joined).parent(), Some(Path::new(base)));
        assert_ne!(Path::new(&joined), Path::new(base));
    }
}
