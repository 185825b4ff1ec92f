//! Path keys: parsing, pushing, printing and prefix comparison.

use bevy_httpserver::http_path::contains_separator;
use bevy_httpserver::http_path::is_root_text;
use bevy_httpserver::http_path::split;
use bevy_httpserver::http_path::HttpPath;

#[test]
fn http_path_new() {
    let _ = HttpPath::new();
}

#[test]
fn new_is_empty() {
    let path = HttpPath::new();
    let facit = Vec::<String>::new();
    assert_eq!(format!("{:?}", path.parts()), format!("{:?}",facit))
}

#[test]
fn default() {
    let _ = HttpPath::default();
}

#[test]
fn default_is_empty() {
    let path = HttpPath::default();
    let facit = Vec::<String>::new();
    assert_eq!(format!("{:?}", path.parts()), format!("{:?}",facit))
}

#[test]
fn from_emptystring() {
    let path = HttpPath::from("");
    let facit = Vec::<String>::new();
    assert_eq!(format!("{:?}", path.parts()), format!("{:?}",facit))
}

#[test]
fn from_root() {
    let path = HttpPath::from("/");
    let mut facit = Vec::<String>::new();
    facit.push(String::from(""));
    assert_eq!(format!("{:?}", path.parts()), format!("{:?}",facit))
}

#[test]
fn from_foo() {
    let path = HttpPath::from("/foo");
    let mut facit = Vec::<String>::new();
    facit.push(String::from(""));
    facit.push(String::from("foo"));
    assert_eq!(format!("{:?}", path.parts()), format!("{:?}",facit))
}

#[test]
fn from_foo_bar() {
    let path = HttpPath::from("/foo/bar");
    let mut facit = Vec::<String>::new();
    facit.push(String::from(""));
    facit.push(String::from("foo"));
    facit.push(String::from("bar"));
    assert_eq!(format!("{:?}", path.parts()), format!("{:?}",facit))
}

#[test]
fn from_foo_bar_baz() {
    let path = HttpPath::from("/foo/bar/baz");
    let mut facit = Vec::<String>::new();
    facit.push(String::from(""));
    facit.push(String::from("foo"));
    facit.push(String::from("bar"));
    facit.push(String::from("baz"));
    assert_eq!(format!("{:?}", path.parts()), format!("{:?}",facit))
}

#[test]
fn push_on_empty() {
    let mut path = HttpPath::from("");
    path.push("foo");
    let mut facit = Vec::<String>::new();
    facit.push(String::from(""));
    facit.push(String::from("foo"));
    assert_eq!(format!("{:?}", path.parts()), format!("{:?}",facit))
}

#[test]
fn push_on_root() {
    let mut path = HttpPath::from("/");
    path.push("foo");
    let mut facit = Vec::<String>::new();
    facit.push(String::from(""));
    facit.push(String::from("foo"));
    assert_eq!(format!("{:?}", path.parts()), format!("{:?}",facit))
}

#[test]
fn push_on_foo() {
    let mut path = HttpPath::from("/foo");
    path.push("bar");
    let mut facit = Vec::<String>::new();
    facit.push(String::from(""));
    facit.push(String::from("foo"));
    facit.push(String::from("bar"));
    assert_eq!(format!("{:?}", path.parts()), format!("{:?}",facit))
}

#[test]
fn push_on_foo_bar() {
    let mut path = HttpPath::from("/foo/bar");
    path.push("baz");
    let mut facit = Vec::<String>::new();
    facit.push(String::from(""));
    facit.push(String::from("foo"));
    facit.push(String::from("bar"));
    facit.push(String::from("baz"));
    assert_eq!(format!("{:?}", path.parts()), format!("{:?}",facit))
}

#[test]
fn empty_to_string() {
    let path = HttpPath::from("");
    let facit = String::from("");
    assert_eq!(format!("{}",path.to_string()), format!("{}",facit))
}

#[test]
fn root_to_string() {
    let path = HttpPath::from("/");
    let facit = String::from("/");
    assert_eq!(format!("{}",path.to_string()), format!("{}",facit))
}

#[test]
fn foo_to_string() {
    let path = HttpPath::from("/foo");
    let facit = String::from("/foo");
    assert_eq!(format!("{}",path.to_string()), format!("{}",facit))
}

#[test]
fn foo_bar_to_string() {
    let path = HttpPath::from("/foo/bar");
    let facit = String::from("/foo/bar");
    assert_eq!(format!("{}",path.to_string()), format!("{}",facit))
}

#[test]
fn foo_bar_baz_to_string() {
    let path = HttpPath::from("/foo/bar/baz");
    let facit = String::from("/foo/bar/baz");
    assert_eq!(format!("{}",path.to_string()), format!("{}",facit))
}

#[test]
fn empty_starts_with_empty() {
    let a = HttpPath::from("");
    let b = HttpPath::from("");
    assert_eq!(a.starts_with(&b), true)
}

#[test]
fn root_starts_with_root() {
    let a = HttpPath::from("/");
    let b = HttpPath::from("/");
    assert_eq!(a.starts_with(&b), true)
}

#[test]
fn foo_starts_with_foo() {
    let a = HttpPath::from("/foo");
    let b = HttpPath::from("/foo");
    assert_eq!(a.starts_with(&b), true)
}

#[test]
fn foobar_starts_with_foobar() {
    let a = HttpPath::from("/foo/bar");
    let b = HttpPath::from("/foo/bar");
    assert_eq!(a.starts_with(&b), true)
}

#[test]
fn foobar_starts_with_empty() {
    let a = HttpPath::from("/foo/bar");
    let b = HttpPath::from("");
    assert_eq!(a.starts_with(&b), true)
}

#[test]
fn foobar_starts_with_root() {
    let a = HttpPath::from("/foo/bar");
    let b = HttpPath::from("/");
    assert_eq!(a.starts_with(&b), true)
}

#[test]
fn foobar_starts_with_foo() {
    let a = HttpPath::from("/foo/bar");
    let b = HttpPath::from("/foo");
    assert_eq!(a.starts_with(&b), true)
}

#[test]
fn empty_starts_with_root() {
    let a = HttpPath::from("");
    let b = HttpPath::from("/");
    assert_eq!(a.starts_with(&b), false)
}

#[test]
fn empty_starts_with_foo() {
    let a = HttpPath::from("");
    let b = HttpPath::from("/foo");
    assert_eq!(a.starts_with(&b), false)
}

#[test]
fn empty_starts_with_foobar() {
    let a = HttpPath::from("");
    let b = HttpPath::from("/foo/bar");
    assert_eq!(a.starts_with(&b), false)
}

#[test]
fn root_starts_with_foo() {
    let a = HttpPath::from("/");
    let b = HttpPath::from("/foo");
    assert_eq!(a.starts_with(&b), false)
}

#[test]
fn root_starts_with_foobar() {
    let a = HttpPath::from("/");
    let b = HttpPath::from("/foo/bar");
    assert_eq!(a.starts_with(&b), false)
}

#[test]
fn foo_starts_with_foobar() {
    let a = HttpPath::from("/foo");
    let b = HttpPath::from("/foo/bar");
    assert_eq!(a.starts_with(&b), false)
}

#[test]
fn foobar_starts_with_foobaz() {
    let a = HttpPath::from("/foo/bar");
    let b = HttpPath::from("/foo/baz");
    assert_eq!(a.starts_with(&b), false)
}

#[test]
fn barfoo_starts_with_bazfoo() {
    let a = HttpPath::from("/bar/foo");
    let b = HttpPath::from("/baz/foo");
    assert_eq!(a.starts_with(&b), false)
}

#[test]
fn every_text_comes_back_as_it_was() {
    for text in
        ["", "/", "foo", "f", "/foo", "/foo/bar", "foo/bar", "/foo/", "//", "a//b", "/foo/bar/baz/"]
    {
        assert_eq!(HttpPath::from(text).to_string(), text);
    }
}

#[test]
fn a_single_segment_is_its_own_text() {
    assert_eq!(HttpPath::from("foo").to_string(), "foo");
    assert_eq!(HttpPath::from("/").to_string(), "/");
    assert_eq!(HttpPath::from("").to_string(), "");
}

#[test]
fn every_path_starts_with_itself() {
    for text in ["", "/", "/foo", "/foo/bar", "foo", "//"] {
        assert!(HttpPath::from(text).starts_with(&HttpPath::from(text)));
    }
}

#[test]
fn foo_starts_with_empty_and_with_root() {
    assert!(HttpPath::from("/foo").starts_with(&HttpPath::from("")));
    assert!(HttpPath::from("/foo").starts_with(&HttpPath::from("/")));
}

#[test]
fn push_makes_the_path_longer() {
    let mut path = HttpPath::new();
    let mut length = path.parts().len();
    for segment in ["foo", "", "bar"] {
        path.push(segment);
        assert!(path.parts().len() > length);
        length = path.parts().len();
    }
    assert_eq!(path.parts(), &vec!["", "foo", "", "bar"]);
    assert_eq!(path.to_string(), "/foo//bar");
}

#[test]
fn parse_splits_at_every_separator() {
    assert_eq!(HttpPath::parse("/foo/").parts(), &vec!["", "foo", ""]);
    assert_eq!(HttpPath::parse("//").parts(), &vec!["", "", ""]);
    assert_eq!(HttpPath::parse("foo").parts(), &vec!["foo"]);
    assert_eq!(HttpPath::parse("/f\u{f6}\u{f6}/b\u{e4}r").parts(), &vec!["", "f\u{f6}\u{f6}", "b\u{e4}r"]);
}

#[test]
fn equal_paths_are_equal() {
    assert!(HttpPath::from("/foo/bar") == HttpPath::from("/foo/bar"));
    assert!(HttpPath::from("/foo/bar") != HttpPath::from("/foo/baz"));
    assert!(HttpPath::from("/foo") != HttpPath::from("/foo/bar"));
    assert!(HttpPath::from("") != HttpPath::from("/"));
    assert!(HttpPath::from("/foo").clone() == HttpPath::from("/foo"));
}

#[test]
fn separators_are_found() {
    assert!(contains_separator("/"));
    assert!(contains_separator("foo/bar"));
    assert!(!contains_separator("foo"));
    assert!(!contains_separator(""));
    assert_eq!(split("a/b"), vec!["a", "b"]);
    assert_eq!(split(""), vec![""]);
}

#[test]
fn only_the_single_separator_is_the_root_text() {
    assert!(is_root_text("/"));
    assert!(!is_root_text(""));
    assert!(!is_root_text("//"));
    assert!(!is_root_text("/foo"));
    assert!(!is_root_text("f"));
    assert!(!is_root_text("foo/"));
}

#[test]
fn a_path_comes_back_from_its_text() {
    for text in ["", "/", "foo", "/foo", "/foo/bar", "foo/bar", "//", "/foo/"] {
        let path = HttpPath::from(text);
        assert!(HttpPath::from(path.to_string().as_str()) == path);
    }
    let mut pushed = HttpPath::new();
    pushed.push("foo");
    pushed.push("bar");
    assert!(HttpPath::from(pushed.to_string().as_str()) == pushed);
}

#[test]
fn two_empty_segments_do_not_come_back() {
    let mut two_empty = HttpPath::new();
    two_empty.push("");
    assert_eq!(two_empty.parts(), &vec!["", ""]);
    assert_eq!(two_empty.to_string(), "/");
    assert!(HttpPath::from(two_empty.to_string().as_str()) != two_empty);
}
