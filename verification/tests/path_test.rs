use std::path::{Path, PathBuf};
use yad_tui::error::AppError;
use yad_tui::utils::common::read_f_name;
use yad_tui::utils::path::{file_name, join, parent, same_path};

const SAMPLES: &[&str] = &[
    "", "/", "//", ".", "..", "./", "a", "a/", "a/b", "a/b/", "a/b/.", "a/./b", "./a", "/a",
    "/a/b", "/a/..", "a/..", "/a/b/..", "...", "a/...", "/.", "/..", "a//b", "a//", "x/y/z.txt",
    "/home/user/dir name", "/a/b/", "/a/./b", "/a/b/.", "//a", "/a//b", "./.", "./a/", ".//a",
    "a/./", "/./a", "../a", ".a/b", "./../a", "/a/b//./",
];

#[test]
fn file_name_matches_std_path() {
    for s in SAMPLES {
        let expected = Path::new(s).file_name().map(|n| n.to_str().unwrap().to_string());
        assert_eq!(file_name(s), expected, "path {:?}", s);
    }
}

#[test]
fn join_matches_std_path() {
    for base in SAMPLES {
        for name in ["x", "", "/abs", "y/z", "."] {
            let expected = PathBuf::from(base).join(name).to_str().unwrap().to_string();
            assert_eq!(join(base, name), expected, "join {:?} {:?}", base, name);
        }
    }
}

#[test]
fn parent_matches_std_path() {
    for s in SAMPLES {
        let expected = Path::new(s).parent().map(|p| p.to_str().unwrap().to_string());
        assert_eq!(parent(s), expected, "path {:?}", s);
    }
}

#[test]
fn parent_of_joined_is_base() {
    for base in ["/", "/a", "/a/b", "rel"] {
        let p = join(base, "child");
        assert_eq!(parent(&p), Some(base.to_string()));
        assert_eq!(file_name(&p), Some("child".to_string()));
    }
}

#[test]
fn read_f_name_of_root_and_dirs() {
    assert_eq!(read_f_name("/".to_string()).unwrap(), "/");
    assert_eq!(read_f_name("/current".to_string()).unwrap(), "current");
    assert_eq!(read_f_name("/a/b/".to_string()).unwrap(), "b");
    match read_f_name("/a/..".to_string()) {
        Err(AppError::InvalidFileName(m)) => assert_eq!(m, "Can't read file name - /a/.."),
        other => panic!("unexpected {:?}", other),
    }
    match read_f_name("".to_string()) {
        Err(AppError::InvalidFileName(m)) => assert_eq!(m, "Can't read file name - "),
        other => panic!("unexpected {:?}", other),
    }
}

#[test]
fn same_path_matches_std_path_buf_equality() {
    for a in SAMPLES {
        for b in SAMPLES {
            let expected = PathBuf::from(a) == PathBuf::from(b);
            assert_eq!(same_path(a, b), expected, "paths {:?} {:?}", a, b);
        }
    }
    assert!(same_path("/docs/", "/docs"));
    assert!(same_path("/a/./b", "/a/b"));
    assert!(!same_path("/a", "a"));
    assert!(!same_path("./a", "a"));
}
