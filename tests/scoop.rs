use scoop_search::path::{file_name_of, file_stem_of, parent_path_of};
use scoop_search::scoop::join_path;
use scoop_search::text::{name_matches, str_contains, str_ends_with, str_equal};
use scoop_search::Scoop;

fn some(s: &str) -> Option<String> {
    Some(String::from(s))
}

#[test]
fn override_variable_comes_first() {
    let scoop = Scoop::new(&some("D:\\scoop"), &some(r#"{"rootPath": "E:\\x"}"#), &some("C:\\Users\\u"))
        .unwrap();
    assert_eq!(
        scoop,
        Scoop { dir: String::from("D:\\scoop"), buckets_dir: String::from("D:\\scoop\\buckets") }
    );
}

#[test]
fn configured_root_comes_next() {
    let config = some(r#"{"lastUpdate": "2020-11-01", "rootPath": "E:\\apps\\scoop"}"#);
    let scoop = Scoop::new(&None, &config, &some("C:\\Users\\u")).unwrap();
    assert_eq!(scoop.dir, "E:\\apps\\scoop");
    assert_eq!(scoop.buckets_dir, "E:\\apps\\scoop\\buckets");
}

#[test]
fn home_directory_is_the_fallback() {
    let expect = Scoop {
        dir: String::from("C:\\Users\\u\\scoop"),
        buckets_dir: String::from("C:\\Users\\u\\scoop\\buckets"),
    };
    assert_eq!(Scoop::new(&None, &None, &some("C:\\Users\\u")), Some(expect));
    let odd = some(r#"{"rootPath": 7}"#);
    assert_eq!(Scoop::new(&None, &odd, &some("C:\\Users\\u\\")).unwrap().dir, "C:\\Users\\u\\scoop");
    assert_eq!(Scoop::new(&None, &some("not json"), &None), None);
}

#[test]
fn root_path_of_a_configuration() {
    assert_eq!(Scoop::has_root_path(r#"{"rootPath": "D:\\s"}"#), some("D:\\s"));
    assert_eq!(Scoop::has_root_path(r#"{"proxy": "none"}"#), None);
    assert_eq!(Scoop::has_root_path(r#"{"rootPath": ["D:\\s"]}"#), None);
}

#[test]
fn files_under_home_and_root() {
    assert_eq!(Scoop::config_file("C:\\Users\\u"), "C:\\Users\\u\\.config\\scoop\\config.json");
    let scoop = Scoop::new(&some("D:\\scoop"), &None, &None).unwrap();
    assert_eq!(scoop.registry_file(), "D:\\scoop\\apps\\scoop\\current\\buckets.json");
    assert_eq!(join_path("", "a"), "a");
    assert_eq!(join_path("/opt/", "a"), "/opt/a");
}

#[test]
fn path_components() {
    let name = |p: &str| file_name_of(p);
    let some = |n: &str| Some(String::from(n));
    assert_eq!(name("C:\\a\\b.json"), some("b.json"));
    assert_eq!(name("a/b//"), some("b"));
    assert_eq!(name("plain"), some("plain"));
    assert_eq!(name("a/."), some("a"));
    assert_eq!(name("a/./b/./"), some("b"));
    assert_eq!(name("a/.."), None);
    assert_eq!(name(".."), None);
    assert_eq!(name("."), None);
    assert_eq!(name("/"), None);
    assert_eq!(name(""), None);
    assert_eq!(name("a/.hidden"), some(".hidden"));
    assert_eq!(name("a/b.."), some("b.."));
    assert_eq!(parent_path_of("https://github.com/ScoopInstaller/Main"), "https://github.com/ScoopInstaller");
    assert_eq!(parent_path_of("a\\\\b\\"), "a");
    assert_eq!(parent_path_of("a/./b/."), "a");
    assert_eq!(parent_path_of("plain"), "");
    assert_eq!(file_stem_of("x/archive.tar.gz"), some("archive.tar"));
    assert_eq!(file_stem_of("x/.profile"), some(".profile"));
    assert_eq!(file_stem_of("x/name."), some("name"));
    assert_eq!(file_stem_of("x/.."), None);
}

#[test]
fn string_tests() {
    assert!(str_contains("bucket/7zip", "7zip"));
    assert!(str_contains("abc", ""));
    assert!(!str_contains("7zi", "7zip"));
    assert!(str_ends_with("a.json", ".json"));
    assert!(!str_ends_with("json", ".json"));
    assert!(str_equal("--bin", "--bin"));
    assert!(!str_equal("--bin", "--bi"));
}

#[test]
fn lowercasing_makes_matching_case_blind() {
    assert!(name_matches("NeoVim", "VIM"));
    assert!(name_matches("ÉCLAIR", "éclair"));
    assert!(!name_matches("vim", "neovim"));
}
