use scoop_search::app::RemoteError;
use scoop_search::bucket::{LocalBucket, ManifestFile};
use scoop_search::search::{start, Action, ArgsError, Event, Phase};
use scoop_search::{display_buckets, parse_args, run, App, Args, Bucket};

fn app(name: &str, version: &str, bin: &[&str]) -> App {
    App {
        name: String::from(name),
        version: String::from(version),
        bin: bin.iter().map(|b| String::from(*b)).collect(),
    }
}

fn manifest(path: &str, text: &str) -> ManifestFile {
    ManifestFile { path: String::from(path), text: Some(String::from(text)) }
}

fn local(path: &str, manifests: Vec<ManifestFile>) -> LocalBucket {
    LocalBucket { path: String::from(path), manifests }
}

fn lines(v: &[&str]) -> Vec<String> {
    v.iter().map(|s| String::from(*s)).collect()
}

const ROOT: &str = "C:\\Users\\user\\scoop\\buckets";

fn installed_buckets() -> Vec<LocalBucket> {
    vec![
        local(
            &format!("{}\\extras", ROOT),
            vec![manifest(
                &format!("{}\\extras\\bucket\\vscode.json", ROOT),
                r#"{"version": "1.50.0", "bin": "bin\\code.cmd"}"#,
            )],
        ),
        local(&format!("{}\\games", ROOT), vec![]),
        local(
            &format!("{}\\java", ROOT),
            vec![manifest(
                &format!("{}\\java\\bucket\\openjdk.json", ROOT),
                r#"{"version": "15.0.1"}"#,
            )],
        ),
        local(
            &format!("{}\\main", ROOT),
            vec![
                manifest(
                    &format!("{}\\main\\bucket\\7zip.json", ROOT),
                    r#"{"version": "19.00", "bin": "7z.exe"}"#,
                ),
                manifest(
                    &format!("{}\\main\\bucket\\git.json", ROOT),
                    r#"{"version": "2.29.2", "bin": ["bin\\git.exe", "bin\\bash.exe"]}"#,
                ),
            ],
        ),
        local(&format!("{}\\nerd-fonts", ROOT), vec![]),
    ]
}

#[test]
fn test_search_apps() {
    let apps = vec![App {
        name: String::from("test_app"),
        version: String::from("test_version"),
        bin: vec![String::from("test_bin")],
    }];
    let query = String::from("test");

    let expect = vec![App {
        name: String::from("test_app"),
        version: String::from("test_version"),
        bin: Vec::new(),
    }];

    let actual = App::search_apps(&apps, &query);

    assert_eq!(expect, actual);
}

#[test]
fn test_search_remote_apps() {
    // The shape of what the Main bucket's tree address answers.
    let body = r#"{"sha": "f00d", "url": "https://api.github.com/repos/ScoopInstaller/Main/git/trees/HEAD",
        "tree": [
            {"path": "bucket", "mode": "040000", "type": "tree"},
            {"path": "bucket/7zip.json", "mode": "100644", "type": "blob"},
            {"path": "bucket/git.json", "mode": "100644", "type": "blob"},
            {"path": "README.md", "mode": "100644", "type": "blob"}
        ],
        "truncated": false}"#;
    let query = "7zip";
    let actual = App::search_remote_apps(body, query).unwrap();

    let expect = vec![App {
        name: String::from("bucket/7zip"),
        version: String::new(),
        bin: Vec::new(),
    }];

    assert_eq!(expect, actual);
}

#[test]
fn test_search_exclude_bin() {
    let bucket_paths = installed_buckets();
    let query = "7zip";

    let actual = Bucket::search_exclude_bin(&bucket_paths, query);

    let expect = Some(vec![
        Bucket { name: String::from("extras"), apps: Vec::new() },
        Bucket { name: String::from("games"), apps: Vec::new() },
        Bucket { name: String::from("java"), apps: Vec::new() },
        Bucket {
            name: String::from("main"),
            apps: vec![App {
                name: String::from("7zip"),
                version: String::from("19.00"),
                bin: Vec::new(),
            }],
        },
        Bucket { name: String::from("nerd-fonts"), apps: Vec::new() },
    ]);

    assert_eq!(expect, actual);
}

#[test]
fn include_mode_reports_one_row_per_matching_binary() {
    let actual = Bucket::search_local_buckets(&installed_buckets(), "bash").unwrap();
    assert_eq!(actual.len(), 5);
    assert_eq!(actual[3].name, "main");
    assert_eq!(actual[3].apps, vec![app("git", "2.29.2", &["bash.exe"])]);
    assert!(actual[4].apps.is_empty());
}

#[test]
fn include_mode_name_match_clears_binaries() {
    let actual = Bucket::search_local_buckets(&installed_buckets(), "git").unwrap();
    assert_eq!(actual[3].apps, vec![app("git", "2.29.2", &[])]);
}

#[test]
fn include_mode_matches_binary_file_names_only() {
    // "bin" stands in every binary's directory, but never in a file name.
    let actual = Bucket::search_local_buckets(&installed_buckets(), "bin");
    assert_eq!(actual, None);
}

#[test]
fn several_binaries_give_several_rows() {
    let apps = vec![app("busybox", "5.0", &["bin\\ls.exe", "bin\\lsof.exe", "bin\\cat.exe"])];
    let actual = App::search_apps(&apps, "ls");
    assert_eq!(
        actual,
        vec![app("busybox", "5.0", &["ls.exe"]), app("busybox", "5.0", &["lsof.exe"])]
    );
}

#[test]
fn matching_ignores_case() {
    let apps = vec![app("7Zip", "19.00", &[])];
    assert_eq!(App::search_apps(&apps, "7ZIP"), vec![app("7Zip", "19.00", &[])]);
}

#[test]
fn unreadable_bucket_is_reported_with_no_apps() {
    let buckets = vec![
        local("C:\\scoop\\buckets\\broken", vec![]),
        local(
            "C:\\scoop\\buckets\\main",
            vec![manifest("C:\\scoop\\buckets\\main\\bucket\\7zip.json", r#"{"version": "19.00"}"#)],
        ),
    ];
    for found in [
        Bucket::search_exclude_bin(&buckets, "7zip").unwrap(),
        Bucket::search_local_buckets(&buckets, "7zip").unwrap(),
    ] {
        assert_eq!(found.len(), 2);
        assert_eq!(found[0], Bucket { name: String::from("broken"), apps: vec![] });
        assert_eq!(found[1].apps, vec![app("7zip", "19.00", &[])]);
    }
}

#[test]
fn unreadable_or_malformed_manifests_are_skipped() {
    let buckets = vec![local(
        "C:\\scoop\\buckets\\main",
        vec![
            ManifestFile { path: String::from("C:\\b\\7zip.json"), text: None },
            manifest("C:\\b\\7zip-zstd.json", "{ not json"),
            manifest("C:\\b\\7zip19.json", r#"{"version": "19.00"}"#),
        ],
    )];
    let expect = vec![app("7zip19", "19.00", &[])];
    assert_eq!(Bucket::search_exclude_bin(&buckets, "7zip").unwrap()[0].apps, expect);
    assert_eq!(Bucket::search_local_buckets(&buckets, "7zip").unwrap()[0].apps, expect);
}

#[test]
fn no_local_match_gives_none() {
    assert_eq!(Bucket::search_exclude_bin(&installed_buckets(), "nonexistent-pkg-xyz"), None);
    assert_eq!(Bucket::search_local_buckets(&installed_buckets(), "nonexistent-pkg-xyz"), None);
    assert_eq!(Bucket::search_exclude_bin(&vec![], "7zip"), None);
}

#[test]
fn single_string_bin_is_one_binary() {
    let (version, bin) = App::get_version_bin(r#"{"version": "1.0", "bin": "tool.exe"}"#).unwrap();
    assert_eq!(version, "1.0");
    assert_eq!(bin, vec![String::from("tool.exe")]);
}

#[test]
fn string_array_bin_is_kept_verbatim() {
    let (_, bin) =
        App::get_version_bin(r#"{"version": "1.0", "bin": ["b\\two.exe", "a.exe", "c\\\u00e9.exe"]}"#)
            .unwrap();
    assert_eq!(bin, lines(&["b\\two.exe", "a.exe", "c\\é.exe"]));
}

#[test]
fn non_string_bin_items_become_empty() {
    let (_, bin) =
        App::get_version_bin(r#"{"bin": ["a.exe", ["shim.exe", "alias"], 3, null]}"#).unwrap();
    assert_eq!(bin, lines(&["a.exe", "", "", ""]));
}

#[test]
fn bin_of_other_kind_or_missing_is_empty() {
    assert!(App::get_version_bin(r#"{"version": "1", "bin": 5}"#).unwrap().1.is_empty());
    assert!(App::get_version_bin(r#"{"version": "1"}"#).unwrap().1.is_empty());
    assert_eq!(App::get_version_bin("[1, 2]").unwrap(), (String::new(), vec![]));
}

#[test]
fn missing_version_is_empty_and_shown_bare() {
    let a = App::new("C:\\b\\tool.json", r#"{"bin": "tool.exe"}"#).unwrap();
    assert_eq!(a, app("tool", "", &["tool.exe"]));
    let shown = display_buckets(&vec![Bucket { name: String::from("main"), apps: vec![a] }]);
    assert_eq!(shown, lines(&["'main' bucket:", "    tool", ""]));
}

#[test]
fn version_that_is_not_a_string_is_empty() {
    let (version, _) = App::get_version_bin(r#"{"version": 19}"#).unwrap();
    assert_eq!(version, "");
}

#[test]
fn manifest_that_is_not_json_is_none() {
    assert_eq!(App::get_version_bin("version: 1"), None);
    assert_eq!(App::new("C:\\b\\x.json", ""), None);
}

#[test]
fn app_name_is_the_file_stem() {
    assert_eq!(App::get_name("C:\\scoop\\buckets\\main\\bucket\\7zip.json"), Some(String::from("7zip")));
    assert_eq!(App::get_name("bucket/python.3.json"), Some(String::from("python.3")));
    assert_eq!(App::get_name("bucket/.hidden"), Some(String::from(".hidden")));
    assert_eq!(App::get_name(""), None);
    assert_eq!(App::get_name("a/.."), None);
    assert_eq!(App::get_name("bucket/git.json/."), Some(String::from("git")));
}

#[test]
fn bucket_name_is_the_last_component() {
    assert_eq!(Bucket::get_name("C:\\scoop\\buckets\\nerd-fonts"), "nerd-fonts");
    assert_eq!(Bucket::get_name("/home/u/scoop/buckets/main/"), "main");
    assert_eq!(Bucket::get_name("/home/u/scoop/buckets/main/."), "main");
}

#[test]
fn display_formats_each_kind_of_row() {
    let buckets = vec![
        Bucket { name: String::from("empty"), apps: vec![] },
        Bucket {
            name: String::from("main"),
            apps: vec![
                app("git", "2.29.2", &["bash.exe"]),
                app("7zip", "19.00", &[]),
                app("bucket/neovim", "", &[]),
            ],
        },
    ];
    assert_eq!(
        display_buckets(&buckets),
        lines(&[
            "'main' bucket:",
            "    git (2.29.2) --> includes 'bash.exe'",
            "    7zip (19.00)",
            "    bucket/neovim",
            "",
        ])
    );
}

#[test]
fn remote_listing_errors() {
    assert_eq!(App::search_remote_apps("<html>", "x"), Err(RemoteError::NotJson));
    assert_eq!(App::search_remote_apps(r#"{"message": "rate limited"}"#, "x"), Err(RemoteError::NoTree));
    assert_eq!(App::search_remote_apps("[]", "x"), Err(RemoteError::NoTree));
    assert_eq!(App::search_remote_apps(r#"{"tree": {}}"#, "x"), Err(RemoteError::TreeNotArray));
}

#[test]
fn remote_listing_keeps_json_paths_that_match() {
    let body = r#"{"tree": [{"path": "bucket/7ZIP.json"}, {"path": "bucket/7zip.txt"}, {"type": "blob"},
        7, {"path": 3}, {"path": "deprecated/7zip-old.json"}]}"#;
    assert_eq!(
        App::search_remote_apps(body, "7zip").unwrap(),
        vec![app("bucket/7ZIP", "", &[]), app("deprecated/7zip-old", "", &[])]
    );
}

const REGISTRY: &str = r#"{
    "main": "https://github.com/ScoopInstaller/Main",
    "extras": "https://github.com/lukesampson/scoop-extras",
    "versions": "https://github.com/ScoopInstaller/Versions.git"
}"#;

#[test]
fn remote_targets_are_the_registered_buckets_not_local() {
    let local_names = vec![String::from("main")];
    let actual = Bucket::get_remote_names_urls(REGISTRY, &local_names).unwrap();
    assert_eq!(
        actual,
        vec![
            (
                String::from("extras"),
                String::from(
                    "https://api.github.com/repos/lukesampson/scoop-extras/git/trees/HEAD?recursive=1"
                ),
            ),
            (
                String::from("versions"),
                String::from("https://api.github.com/repos/ScoopInstaller/Versions.git/git/trees/HEAD?recursive=1"),
            ),
        ]
    );
}

#[test]
fn malformed_registry_gives_none() {
    let none: Vec<String> = vec![];
    assert_eq!(Bucket::get_remote_names_urls("not json", &none), None);
    assert_eq!(Bucket::get_remote_names_urls("[]", &none), None);
    assert_eq!(Bucket::get_remote_names_urls(r#"{"main": 5}"#, &none), None);
    assert_eq!(Bucket::get_remote_names_urls(r#"{"main": 5}"#, &vec![String::from("main")]), None);
    let registry = r#"{"a": 5, "b": "u/r"}"#;
    assert_eq!(Bucket::get_remote_names_urls(registry, &none), None);
    assert_eq!(Bucket::get_remote_names_urls(registry, &vec![String::from("a")]), None);
    assert_eq!(Bucket::get_remote_names_urls(r#"{"a": "plain"}"#, &none), None);
    assert_eq!(Bucket::get_remote_names_urls(r#"{"a": "u/r/.."}"#, &none), None);
}

#[test]
fn remote_address_keeps_dotted_components() {
    let registry = r#"{"dots": "C:\\clones\\some.one\\dotfiles.nvim"}"#;
    assert_eq!(
        Bucket::get_remote_names_urls(registry, &vec![]),
        Some(vec![(
            String::from("dots"),
            String::from("https://api.github.com/repos/some.one/dotfiles.nvim/git/trees/HEAD?recursive=1"),
        )])
    );
}

#[test]
fn remote_buckets_degrade_failures_to_no_apps() {
    let hit = r#"{"tree": [{"path": "bucket/firefox.json"}]}"#;
    let fetched = vec![
        (String::from("extras"), None),
        (String::from("broken"), Some(String::from("{}"))),
        (String::from("versions"), Some(String::from(hit))),
    ];
    let actual = Bucket::search_remote_buckets(&fetched, "fire").unwrap();
    assert_eq!(
        actual,
        vec![
            Bucket { name: String::from("extras"), apps: vec![] },
            Bucket { name: String::from("broken"), apps: vec![] },
            Bucket { name: String::from("versions"), apps: vec![app("bucket/firefox", "", &[])] },
        ]
    );
    assert_eq!(Bucket::search_remote_buckets(&fetched, "chrome"), None);
}

#[test]
fn parse_args_reads_the_command_line() {
    let args = |v: &[&str]| parse_args(&lines(v));
    assert_eq!(args(&["scoop-search", "7Zip"]), Ok(Args { query: String::from("7zip"), exclude_bin: true }));
    assert_eq!(
        args(&["scoop-search", "--bin", "Bash"]),
        Ok(Args { query: String::from("bash"), exclude_bin: false })
    );
    assert_eq!(args(&["scoop-search"]), Err(ArgsError::MissingQuery));
    assert_eq!(args(&["scoop-search", "-b", "x"]), Err(ArgsError::InvalidOption));
    assert_eq!(args(&["scoop-search", "a", "b", "c"]), Err(ArgsError::WrongCount));
    assert_eq!(args(&[]), Err(ArgsError::WrongCount));
    assert_eq!(ArgsError::InvalidOption.message(), "option is not valid");
}

#[test]
fn get_query_takes_the_first_argument() {
    assert_eq!(scoop_search::get_query(&lines(&["s", "GIT"])), Ok(String::from("git")));
    assert_eq!(scoop_search::get_query(&lines(&["s"])), Err(ArgsError::NoQuery));
    assert_eq!(ArgsError::NoQuery.message(), "Didn't get a query");
}

fn search_args(query: &str) -> Args {
    Args { query: String::from(query), exclude_bin: true }
}

#[test]
fn local_hit_is_printed_without_any_remote_call() {
    let main = local(
        "C:\\scoop\\buckets\\main",
        vec![manifest("C:\\scoop\\buckets\\main\\bucket\\7zip.json", r#"{"version": "19.00"}"#)],
    );
    let found = Bucket::search_exclude_bin(&vec![main.clone()], "7zip").unwrap();
    assert_eq!(found, vec![Bucket { name: String::from("main"), apps: vec![app("7zip", "19.00", &[])] }]);

    let (phase, action) = start();
    assert_eq!(action, Action::ListLocal);
    let (phase, action) = run(&search_args("7zip"), &phase, &Event::Listed(vec![main]));
    assert_eq!(phase, Phase::Done);
    assert_eq!(action, Action::Print(lines(&["'main' bucket:", "    7zip (19.00)", ""])));
}

#[test]
fn no_match_anywhere_asks_every_unlisted_bucket_then_reports_none() {
    let args = search_args("nonexistent-pkg-xyz");
    let buckets = vec![local("C:\\scoop\\buckets\\main", vec![])];
    let (phase, action) = run(&args, &Phase::Listing, &Event::Listed(buckets));
    assert_eq!(phase, Phase::Resolving(lines(&["main"])));
    assert_eq!(action, Action::ReadRegistry);

    let (phase, action) = run(&args, &phase, &Event::RegistryRead(Some(String::from(REGISTRY))));
    assert_eq!(phase, Phase::Fetching(lines(&["extras", "versions"])));
    assert_eq!(
        action,
        Action::Fetch(lines(&[
            "https://api.github.com/repos/lukesampson/scoop-extras/git/trees/HEAD?recursive=1",
            "https://api.github.com/repos/ScoopInstaller/Versions.git/git/trees/HEAD?recursive=1",
        ]))
    );

    let listing = String::from(r#"{"tree": [{"path": "bucket/firefox.json"}]}"#);
    let (phase, action) = run(&args, &phase, &Event::Fetched(vec![Some(listing), None]));
    assert_eq!(phase, Phase::Done);
    assert_eq!(action, Action::Print(lines(&["No matches found."])));
}

#[test]
fn remote_hit_is_printed_under_a_notice() {
    let args = Args { query: String::from("fire"), exclude_bin: false };
    let phase = Phase::Fetching(lines(&["extras"]));
    let listing = String::from(r#"{"tree": [{"path": "bucket/firefox.json"}]}"#);
    let (_, action) = run(&args, &phase, &Event::Fetched(vec![Some(listing)]));
    assert_eq!(
        action,
        Action::Print(lines(&[
            "Results from other known buckets...",
            "(add them using 'scoop bucket add <name>')",
            "",
            "'extras' bucket:",
            "    bucket/firefox",
            "",
        ]))
    );
}

#[test]
fn missing_registry_reports_no_match() {
    let phase = Phase::Resolving(lines(&["main"]));
    let (phase, action) = run(&search_args("x"), &phase, &Event::RegistryRead(None));
    assert_eq!(phase, Phase::Done);
    assert_eq!(action, Action::Print(lines(&["No matches found."])));
}

#[test]
fn same_search_twice_gives_the_same_output() {
    let args = search_args("git");
    let event = Event::Listed(installed_buckets());
    let first = run(&args, &Phase::Listing, &event);
    let second = run(&args, &Phase::Listing, &event);
    assert_eq!(first, second);
    assert_eq!(
        first.1,
        Action::Print(lines(&["'main' bucket:", "    git (2.29.2)", ""]))
    );
}
