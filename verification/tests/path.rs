use spot_gitlab_driver::path::{copy, join, parent};

fn parent_text(path: &str) -> Option<String> {
    parent(path.as_bytes()).map(|p| String::from_utf8(p).unwrap())
}

#[test]
fn joins() {
    assert_eq!(join(b"/builds", b"a.pem"), b"/builds/a.pem");
    assert_eq!(join(b"/builds/", b"a.pem"), b"/builds/a.pem");
    assert_eq!(join(b"", b"a.pem"), b"a.pem");
    assert_eq!(join(b"/", b"a.pem"), b"/a.pem");
    assert_eq!(join(b"/builds", b"/etc/a.pem"), b"/etc/a.pem");
    assert_eq!(join(b"/builds", b""), b"/builds/");
}

#[test]
fn parents() {
    assert_eq!(parent_text("/a/b"), Some("/a".to_string()));
    assert_eq!(parent_text("/a"), Some("/".to_string()));
    assert_eq!(parent_text("a"), Some("".to_string()));
    assert_eq!(parent_text("/"), None);
    assert_eq!(parent_text(""), None);
    assert_eq!(parent_text("/a//b/"), Some("/a".to_string()));
    assert_eq!(parent_text("/a/./b/."), Some("/a".to_string()));
}

/// The same paths, taken apart and put together by the standard library.
#[test]
fn paths_are_those_of_the_standard_library() {
    let paths = [
        "", "/", "//", ".", "..", "/.", "./", "./.", "/..", "a", "a/", "a/.", "a/./", "a/..", "/a",
        "/a/", "//a", "/./a", "./a", "a/b", "a//b", "a/./b", "a/b//", "/a/b/.", "../a", ".a", "/.a",
        "/a/.b", "a/...", "/x/.spot-gitlab-driver/1.state",
    ];
    for path in paths {
        let expected = std::path::Path::new(path).parent().map(|p| p.to_str().unwrap().to_string());
        assert_eq!(parent_text(path), expected, "{}", path);
        for part in paths {
            let expected = std::path::Path::new(path).join(part);
            let joined = join(path.as_bytes(), part.as_bytes());
            assert_eq!(String::from_utf8(joined).unwrap(), expected.to_str().unwrap());
        }
    }
}

#[test]
fn copies_hold_the_same_bytes() {
    assert_eq!(copy(b"/a\xff"), b"/a\xff");
}

#[test]
fn relative_paths_stay_apart() {
    assert_ne!(join(b"/d", b"a"), join(b"/d", b"b"));
    assert_eq!(join(b"/d", b"a"), join(b"/d", b"a"));
}
