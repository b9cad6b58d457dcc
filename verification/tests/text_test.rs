use flint::paths::{join_path, last_segment, parent_dir};
use flint::scan::is_whitespace;
use flint::text::{chars_of, contains, copy_texts, ends_with, starts_with};
use std::path::Path;

const SAMPLES: [&str; 14] = [
    "",
    "a",
    "ab",
    "abc",
    "abcabc",
    "bc",
    "cab",
    "homebrew.mxcl.nginx",
    "mxcl.",
    ".plist",
    "com.example.test.plist",
    "\u{e9}t\u{e9}",
    "t\u{e9}",
    "\u{1f600}.plist",
];

#[test]
fn test_chars_of_gives_the_characters_in_order() {
    assert_eq!(chars_of(""), Vec::<char>::new());
    assert_eq!(chars_of("a\u{e9}\u{1f600}z"), vec!['a', '\u{e9}', '\u{1f600}', 'z']);
}

#[test]
fn test_comparisons_agree_with_the_standard_library() {
    for a in SAMPLES {
        for b in SAMPLES {
            assert_eq!(starts_with(a, b), a.starts_with(b), "{:?} starts with {:?}", a, b);
            assert_eq!(ends_with(a, b), a.ends_with(b), "{:?} ends with {:?}", a, b);
            assert_eq!(contains(a, b), a.contains(b), "{:?} contains {:?}", a, b);
        }
    }
}

#[test]
fn test_the_empty_text_stands_everywhere() {
    assert!(starts_with("", ""));
    assert!(ends_with("", ""));
    assert!(contains("", ""));
    assert!(contains("abc", ""));
    assert!(!contains("", "a"));
}

#[test]
fn test_join_path_puts_one_separator_between() {
    assert_eq!(join_path("/tmp/flint", "demo.state.json"), "/tmp/flint/demo.state.json");
    assert_eq!(join_path("/tmp/flint/", "demo.state.json"), "/tmp/flint/demo.state.json");
    assert_eq!(join_path("", "Library"), "Library");
    assert_eq!(join_path("/", "Library"), "/Library");
    assert_eq!(join_path("/home/me", "/etc/passwd"), "/etc/passwd");
    assert_eq!(join_path("/home/me", ""), "/home/me/");
}

#[test]
fn test_join_path_agrees_with_the_standard_library() {
    let bases = ["", "/", "a", "a/", "/a/b", "/a/b/", "a//", ".", "..", "\u{e9}"];
    let names = ["", "x", "x/y", "/x", "/", ".", "..", "x/", "\u{e9}.json"];
    for base in bases {
        for name in names {
            let expected = Path::new(base).join(name).display().to_string();
            assert_eq!(join_path(base, name), expected, "{:?} joined with {:?}", base, name);
        }
    }
}

fn file_name_of(path: &str) -> String {
    Path::new(path).file_name().and_then(|name| name.to_str()).unwrap_or("").to_string()
}

#[test]
fn test_last_segment_of_usual_paths() {
    assert_eq!(last_segment("/usr/bin/foo"), "foo");
    assert_eq!(last_segment("/bin/echo"), "echo");
    assert_eq!(last_segment("foo"), "foo");
    assert_eq!(last_segment("/usr/bin/"), "bin");
    assert_eq!(last_segment("tmp/foo.txt"), "foo.txt");
    assert_eq!(last_segment("foo.txt/."), "foo.txt");
    assert_eq!(last_segment("foo.txt/.//"), "foo.txt");
    assert_eq!(last_segment("foo.txt/.."), "");
    assert_eq!(last_segment("/"), "");
    assert_eq!(last_segment(""), "");
}

#[test]
fn test_last_segment_agrees_with_the_standard_library() {
    let paths = [
        "", "/", "//", "///", ".", "..", "...", "./", "../", "/.", "/..", "./.", "./..", "../.",
        "a", "a/", "a//", "a/.", "a/./", "a/./.", "a/..", "a/../", "a/b", "a/b/", "a//b", "/a",
        "/a/", "/a/b", "/a/b/.", "/a/b/..", "/a/b/./.", "./a", "./a/", "../a", ".a", "a.", "a/.b",
        "a/b.", "a/..b", "a/b..", "a/...", "/usr/bin/true", "/opt/homebrew/opt/nginx/bin/nginx",
        "name with space", "dir/na\u{ef}ve", "/\u{1f600}/\u{e9}", "a/./b/./", ".//", "..//",
        "a/./../.", "//a", "a///.///",
    ];
    for path in paths {
        assert_eq!(last_segment(path), file_name_of(path), "last segment of {:?}", path);
    }
}

fn parent_of(path: &str) -> Option<String> {
    Path::new(path).parent().map(|parent| parent.display().to_string())
}

#[test]
fn test_parent_dir_of_usual_paths() {
    assert_eq!(parent_dir("/foo/bar"), Some("/foo".to_string()));
    assert_eq!(parent_dir("/foo"), Some("/".to_string()));
    assert_eq!(parent_dir("/"), None);
    assert_eq!(parent_dir("foo"), Some("".to_string()));
    assert_eq!(parent_dir(""), None);
    assert_eq!(parent_dir("foo/bar/"), Some("foo".to_string()));
    assert_eq!(parent_dir("./log"), Some(".".to_string()));
    assert_eq!(
        parent_dir("/Users/me/Library/Logs/Flint/demo.log"),
        Some("/Users/me/Library/Logs/Flint".to_string())
    );
}

#[test]
fn test_parent_dir_agrees_with_the_standard_library() {
    let paths = [
        "", "/", "//", "///", ".", "..", "...", "./", "../", "/.", "/..", "./.", "./..", "../.",
        "a", "a/", "a//", "a/.", "a/./", "a/./.", "a/..", "a/../", "a/b", "a/b/", "a//b", "/a",
        "/a/", "/a/b", "/a/b/.", "/a/b/..", "/a/b/./.", "./a", "./a/", "../a", ".a", "a.", "a/.b",
        "a/b.", "a/..b", "a/b..", "a/...", "//a", "//a//b", "a/./b", "a/././b", ".//a", "./.a",
        "./a/.", "/./a", "/././a", "/var/log/foo_stdout.log", "a/./../.", "a///.///", "..//a",
    ];
    for path in paths {
        assert_eq!(parent_dir(path), parent_of(path), "parent of {:?}", path);
    }
}

#[test]
fn test_white_space_is_what_the_standard_library_calls_so() {
    let mut code: u32 = 0;
    while code <= 0x10FFFF {
        if let Some(c) = char::from_u32(code) {
            assert_eq!(is_whitespace(c), c.is_whitespace(), "U+{:04X}", code);
        }
        code += 1;
    }
}

#[test]
fn test_copy_texts_copies_every_string() {
    let list = vec!["--option".to_string(), "".to_string(), "value".to_string()];
    assert_eq!(copy_texts(&list), list);
    assert_eq!(copy_texts(&list[1..]), vec!["".to_string(), "value".to_string()]);
    assert_eq!(copy_texts(&[]), Vec::<String>::new());
}

/// A small generator of texts over an alphabet, the same at every run.
struct Texts(u64);

impl Texts {
    fn number(&mut self) -> u64 {
        self.0 = self.0.wrapping_mul(6364136223846793005).wrapping_add(1442695040888963407);
        self.0 >> 33
    }

    fn text(&mut self, alphabet: &[char], longest: u64) -> String {
        let length = self.number() % (longest + 1);
        (0..length)
            .map(|_| alphabet[(self.number() % alphabet.len() as u64) as usize])
            .collect()
    }
}

#[test]
fn test_paths_agree_with_the_standard_library_on_generated_texts() {
    let mut texts = Texts(7);
    let alphabet = ['/', '.', 'a', 'b', '/', '.', '\u{e9}'];
    for _ in 0..50000 {
        let path = texts.text(&alphabet, 9);
        assert_eq!(last_segment(&path), file_name_of(&path), "last segment of {:?}", path);
        assert_eq!(parent_dir(&path), parent_of(&path), "parent of {:?}", path);
        let name = texts.text(&alphabet, 5);
        let expected = Path::new(&path).join(&name).display().to_string();
        assert_eq!(join_path(&path, &name), expected, "{:?} joined with {:?}", path, name);
    }
}

#[test]
fn test_searches_agree_with_the_standard_library_on_generated_texts() {
    let mut texts = Texts(11);
    let alphabet = ['a', 'b', 'a', '.', 'c'];
    for _ in 0..20000 {
        let hay = texts.text(&alphabet, 8);
        let needle = texts.text(&alphabet, 4);
        assert_eq!(contains(&hay, &needle), hay.contains(&needle), "{:?} {:?}", hay, needle);
        assert_eq!(starts_with(&hay, &needle), hay.starts_with(&needle), "{:?} {:?}", hay, needle);
        assert_eq!(ends_with(&hay, &needle), hay.ends_with(&needle), "{:?} {:?}", hay, needle);
    }
}
