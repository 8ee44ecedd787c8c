//! Where the package manager lives.
use vstd::prelude::*;
use vstd::string::*;

use crate::json::{get_member, json_of, json_string, member, parse_json, read_string};
use crate::path::is_sep;

verus! {

/// The root directory and the directory of its buckets.
#[derive(Debug, PartialEq)]
pub struct Scoop {
    pub dir: String,
    pub buckets_dir: String,
}

/// `part` under `base`, with a backslash between them where `base` does not
/// already end in a separator.
pub open spec fn join(base: Seq<char>, part: Seq<char>) -> Seq<char> {
    if base.len() == 0 {
        part
    } else if is_sep(base.last()) {
        base + part
    } else {
        base + "\\"@ + part
    }
}

/// The `rootPath` string of a configuration text, where it has one.
pub open spec fn root_path(config: Seq<char>) -> Option<Seq<char>> {
    match member(json_of(config), "rootPath"@) {
        Some(t) => json_string(t),
        None => None,
    }
}

/// The root directory: the override variable, else the configured root path,
/// else `scoop` under the user's home; `None` where none of them is known.
pub open spec fn scoop_dir(
    scoop_env: Option<Seq<char>>,
    config: Option<Seq<char>>,
    user_profile: Option<Seq<char>>,
) -> Option<Seq<char>> {
    if scoop_env is Some {
        scoop_env
    } else if config is Some && root_path(config->0) is Some {
        root_path(config->0)
    } else if user_profile is Some {
        Some(join(user_profile->0, "scoop"@))
    } else {
        None
    }
}

/// `part` under `base`.
pub fn join_path(base: &str, part: &str) -> (r: String)
    ensures
        r@ == join(base@, part@),
{
    let n = base.unicode_len();
    if n == 0 {
        return part.to_owned();
    }
    let last = base.get_char(n - 1);
    let mut s = base.to_owned();
    if !(last == '/' || last == '\\') {
        s.append("\\");
    }
    s.append(part);
    s
}

impl Scoop {
    /// The package manager found from the override variable, the
    /// configuration text and the user's home, in that order of precedence;
    /// `None` where none of them gives a root.
    pub fn new(
        scoop_env: &Option<String>,
        config: &Option<String>,
        user_profile: &Option<String>,
    ) -> (r: Option<Scoop>)
        ensures
            r is Some <==> scoop_dir(
                scoop_env.deep_view(),
                config.deep_view(),
                user_profile.deep_view(),
            ) is Some,
            r matches Some(s) ==> Some(s.dir@) == scoop_dir(
                scoop_env.deep_view(),
                config.deep_view(),
                user_profile.deep_view(),
            ) && s.buckets_dir@ == join(s.dir@, "buckets"@),
    {
        match Scoop::get_scoop_dir(scoop_env, config, user_profile) {
            Some(dir) => {
                let buckets_dir = join_path(dir.as_str(), "buckets");
                Some(Scoop { dir, buckets_dir })
            },
            None => None,
        }
    }

    /// The root directory, as `scoop_dir` says.
    pub fn get_scoop_dir(
        scoop_env: &Option<String>,
        config: &Option<String>,
        user_profile: &Option<String>,
    ) -> (r: Option<String>)
        ensures
            r.deep_view() == scoop_dir(
                scoop_env.deep_view(),
                config.deep_view(),
                user_profile.deep_view(),
            ),
    {
        if let Some(e) = scoop_env {
            return Some(e.clone());
        }
        if let Some(c) = config {
            if let Some(root) = Scoop::has_root_path(c.as_str()) {
                return Some(root);
            }
        }
        match user_profile {
            Some(home) => Some(join_path(home.as_str(), "scoop")),
            None => None,
        }
    }

    /// The `rootPath` string of a configuration text, where it has one.
    pub fn has_root_path(config: &str) -> (r: Option<String>)
        ensures
            r.deep_view() == root_path(config@),
    {
        let doc = parse_json(config);
        match get_member(&doc, "rootPath") {
            Some(t) => read_string(t.as_str()),
            None => None,
        }
    }

    /// The configuration file under the user's home.
    pub fn config_file(user_profile: &str) -> (r: String)
        ensures
            r@ == join(join(join(user_profile@, ".config"@), "scoop"@), "config.json"@),
    {
        let a = join_path(user_profile, ".config");
        let b = join_path(a.as_str(), "scoop");
        join_path(b.as_str(), "config.json")
    }

    /// The registry of known buckets under the root directory.
    pub fn registry_file(&self) -> (r: String)
        ensures
            r@ == join(
                join(join(join(self.dir@, "apps"@), "scoop"@), "current"@),
                "buckets.json"@,
            ),
    {
        let a = join_path(self.dir.as_str(), "apps");
        let b = join_path(a.as_str(), "scoop");
        let c = join_path(b.as_str(), "current");
        join_path(c.as_str(), "buckets.json")
    }
}

} // verus!
