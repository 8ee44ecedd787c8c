//! Buckets: the local ones as listed, and the remote ones that the registry
//! names.
use vstd::prelude::*;
use vstd::string::*;

use crate::app::{
    lemma_drop_last_prefix, manifest_app, manifest_version, remote_result, search_rows, App,
    AppView,
};
use crate::json::{json_of, json_string, parse_json, read_string, Json};
use crate::path::{file_name, file_name_of, file_stem, file_stem_of, name_or_empty, parent_path, parent_path_of};
use crate::text::{matches_query, name_matches, str_equal};

verus! {

/// A bucket and the applications found in it.
#[derive(Debug, PartialEq)]
pub struct Bucket {
    pub name: String,
    pub apps: Vec<App>,
}

pub struct BucketView {
    pub name: Seq<char>,
    pub apps: Seq<AppView>,
}

impl DeepView for Bucket {
    type V = BucketView;

    open spec fn deep_view(&self) -> BucketView {
        BucketView { name: self.name@, apps: self.apps.deep_view() }
    }
}

/// A manifest file of a local bucket: its path, and its text where it could
/// be read.
#[derive(Debug, PartialEq, Clone)]
pub struct ManifestFile {
    pub path: String,
    pub text: Option<String>,
}

pub struct ManifestFileView {
    pub path: Seq<char>,
    pub text: Option<Seq<char>>,
}

impl DeepView for ManifestFile {
    type V = ManifestFileView;

    open spec fn deep_view(&self) -> ManifestFileView {
        ManifestFileView { path: self.path@, text: self.text.deep_view() }
    }
}

/// A local bucket directory: its path, and the manifest files listed in it
/// (none where the directory could not be listed).
#[derive(Debug, PartialEq, Clone)]
pub struct LocalBucket {
    pub path: String,
    pub manifests: Vec<ManifestFile>,
}

pub struct LocalBucketView {
    pub path: Seq<char>,
    pub manifests: Seq<ManifestFileView>,
}

impl DeepView for LocalBucket {
    type V = LocalBucketView;

    open spec fn deep_view(&self) -> LocalBucketView {
        LocalBucketView { path: self.path@, manifests: self.manifests.deep_view() }
    }
}

/// The manifest has been read and is JSON.
pub open spec fn readable(m: ManifestFileView) -> bool {
    m.text is Some && json_of(m.text->0) is Some
}

/// The applications of the readable manifests, in order.
pub open spec fn bucket_apps(ms: Seq<ManifestFileView>) -> Seq<AppView>
    decreases ms.len(),
{
    if ms.len() == 0 {
        Seq::empty()
    } else {
        let rest = bucket_apps(ms.drop_last());
        let m = ms.last();
        if readable(m) {
            rest.push(manifest_app(m.path, m.text->0))
        } else {
            rest
        }
    }
}

/// The applications whose names match, without binaries: one for each
/// readable manifest whose file name (without extension) matches.
pub open spec fn name_rows(ms: Seq<ManifestFileView>, query: Seq<char>) -> Seq<AppView>
    decreases ms.len(),
{
    if ms.len() == 0 {
        Seq::empty()
    } else {
        let rest = name_rows(ms.drop_last(), query);
        let m = ms.last();
        if matches_query(name_or_empty(file_stem(m.path)), query) && readable(m) {
            rest.push(
                AppView {
                    name: name_or_empty(file_stem(m.path)),
                    version: manifest_version(json_of(m.text->0)),
                    bin: Seq::empty(),
                },
            )
        } else {
            rest
        }
    }
}

/// The name of a bucket: the file name of its path, or empty where it has
/// none.
pub open spec fn bucket_name(path: Seq<char>) -> Seq<char> {
    name_or_empty(file_name(path))
}

/// A local bucket searched by application names and binary names.
pub open spec fn include_bucket(b: LocalBucketView, query: Seq<char>) -> BucketView {
    BucketView { name: bucket_name(b.path), apps: search_rows(bucket_apps(b.manifests), query) }
}

/// A local bucket searched by application names alone.
pub open spec fn exclude_bucket(b: LocalBucketView, query: Seq<char>) -> BucketView {
    BucketView { name: bucket_name(b.path), apps: name_rows(b.manifests, query) }
}

pub open spec fn include_results(bs: Seq<LocalBucketView>, query: Seq<char>) -> Seq<BucketView> {
    bs.map_values(|b: LocalBucketView| include_bucket(b, query))
}

pub open spec fn exclude_results(bs: Seq<LocalBucketView>, query: Seq<char>) -> Seq<BucketView> {
    bs.map_values(|b: LocalBucketView| exclude_bucket(b, query))
}

/// Some bucket has an application.
pub open spec fn any_hit(bs: Seq<BucketView>) -> bool {
    exists|i: int| 0 <= i < bs.len() && bs[i].apps.len() > 0
}

/// The API address that lists the files of repository `repo` of `user`.
pub open spec fn api_url(user: Seq<char>, repo: Seq<char>) -> Seq<char> {
    "https://api.github.com/repos/"@ + user + "/"@ + repo + "/git/trees/HEAD?recursive=1"@
}

/// The remote target of a registry entry: its name and the API address made
/// from the last two components of its path, where the value is a string
/// with two such components.
pub open spec fn remote_target(name: Seq<char>, value: Seq<char>) -> Option<
    (Seq<char>, Seq<char>),
> {
    match json_string(value) {
        Some(p) => {
            match (file_name(parent_path(p)), file_name(p)) {
                (Some(user), Some(repo)) => Some((name, api_url(user, repo))),
                _ => None,
            }
        },
        None => None,
    }
}

/// The remote targets of the registry entries whose names are not local, in
/// order; `None` where any entry, local or not, is malformed.
pub open spec fn remote_targets(
    fields: Seq<(Seq<char>, Seq<char>)>,
    local: Seq<Seq<char>>,
) -> Option<Seq<(Seq<char>, Seq<char>)>>
    decreases fields.len(),
{
    if fields.len() == 0 {
        Some(Seq::empty())
    } else {
        match remote_targets(fields.drop_last(), local) {
            None => None,
            Some(rest) => {
                let (k, v) = fields.last();
                match remote_target(k, v) {
                    None => None,
                    Some(t) => if local.contains(k) {
                        Some(rest)
                    } else {
                        Some(rest.push(t))
                    },
                }
            },
        }
    }
}

/// The remote targets that a registry text gives; `None` where it is not a
/// JSON object or an entry is malformed.
pub open spec fn registry_targets(text: Seq<char>, local: Seq<Seq<char>>) -> Option<
    Seq<(Seq<char>, Seq<char>)>,
> {
    match json_of(text) {
        Some(Json::Object(fields)) => remote_targets(fields.deep_view(), local),
        _ => None,
    }
}

/// A remote bucket searched: the applications of its listing, none where the
/// request or the listing failed.
pub open spec fn remote_bucket(name: Seq<char>, body: Option<Seq<char>>, query: Seq<char>) -> BucketView {
    BucketView {
        name: name,
        apps: match body {
            Some(b) => match remote_result(b, query) {
                Ok(apps) => apps,
                Err(_) => Seq::empty(),
            },
            None => Seq::empty(),
        },
    }
}

pub open spec fn remote_results(fetched: Seq<(Seq<char>, Option<Seq<char>>)>, query: Seq<char>) -> Seq<
    BucketView,
> {
    fetched.map_values(|f: (Seq<char>, Option<Seq<char>>)| remote_bucket(f.0, f.1, query))
}

/// Every local bucket is reported, in order and under its own name, whether
/// binaries are matched or not; a bucket whose directory could not be listed
/// is reported with no applications.
pub proof fn lemma_every_bucket_reported(bs: Seq<LocalBucketView>, query: Seq<char>)
    ensures
        include_results(bs, query).len() == bs.len(),
        exclude_results(bs, query).len() == bs.len(),
        forall|i: int|
            0 <= i < bs.len() ==> (#[trigger] include_results(bs, query)[i]).name == bucket_name(
                bs[i].path,
            ) && exclude_results(bs, query)[i].name == bucket_name(bs[i].path),
        forall|i: int|
            0 <= i < bs.len() && (#[trigger] bs[i]).manifests.len() == 0 ==> include_results(
                bs,
                query,
            )[i].apps.len() == 0 && exclude_results(bs, query)[i].apps.len() == 0,
{
    assert forall|i: int| 0 <= i < bs.len() && (#[trigger] bs[i]).manifests.len() == 0 implies include_results(
        bs,
        query,
    )[i].apps.len() == 0 && exclude_results(bs, query)[i].apps.len() == 0 by {
        assert(bucket_apps(bs[i].manifests) =~= Seq::<AppView>::empty());
        assert(search_rows(Seq::<AppView>::empty(), query) =~= Seq::<AppView>::empty());
    }
}

/// The remote buckets are the registered ones that are not local, in the
/// order of the registry: each registered name that is not local is looked
/// up remotely, and no local name is.
pub proof fn lemma_remote_names_are_unlisted(
    fields: Seq<(Seq<char>, Seq<char>)>,
    local: Seq<Seq<char>>,
)
    requires
        remote_targets(fields, local) is Some,
    ensures
        remote_targets(fields, local)->0.map_values(|t: (Seq<char>, Seq<char>)| t.0)
            == fields.map_values(|f: (Seq<char>, Seq<char>)| f.0).filter(
            |k: Seq<char>| !local.contains(k),
        ),
    decreases fields.len(),
{
    reveal(Seq::filter);
    let keys = fields.map_values(|f: (Seq<char>, Seq<char>)| f.0);
    if fields.len() > 0 {
        lemma_remote_names_are_unlisted(fields.drop_last(), local);
        assert(keys.drop_last() =~= fields.drop_last().map_values(
            |f: (Seq<char>, Seq<char>)| f.0,
        ));
        let rest = remote_targets(fields.drop_last(), local)->0;
        let ts = remote_targets(fields, local)->0;
        if local.contains(fields.last().0) {
            assert(ts == rest);
        } else {
            assert(ts.map_values(|t: (Seq<char>, Seq<char>)| t.0) =~= rest.map_values(
                |t: (Seq<char>, Seq<char>)| t.0,
            ).push(fields.last().0));
        }
    } else {
        assert(keys =~= Seq::<Seq<char>>::empty());
        assert(remote_targets(fields, local)->0.map_values(|t: (Seq<char>, Seq<char>)| t.0)
            =~= Seq::<Seq<char>>::empty());
    }
}

/// Whether a registry is well formed does not depend on the local names: a
/// malformed entry makes remote resolution fail whatever its name.
pub proof fn lemma_registry_fails_whatever_local(
    fields: Seq<(Seq<char>, Seq<char>)>,
    local: Seq<Seq<char>>,
    other: Seq<Seq<char>>,
)
    ensures
        remote_targets(fields, local) is Some <==> remote_targets(fields, other) is Some,
    decreases fields.len(),
{
    if fields.len() > 0 {
        lemma_registry_fails_whatever_local(fields.drop_last(), local, other);
    }
}

proof fn lemma_targets_none_extends(
    fields: Seq<(Seq<char>, Seq<char>)>,
    i: int,
    local: Seq<Seq<char>>,
)
    requires
        0 <= i <= fields.len(),
        remote_targets(fields.subrange(0, i), local) is None,
    ensures
        remote_targets(fields, local) is None,
    decreases fields.len() - i,
{
    if i == fields.len() {
        assert(fields.subrange(0, i) =~= fields);
    } else {
        assert(fields.drop_last().subrange(0, i) =~= fields.subrange(0, i));
        lemma_targets_none_extends(fields.drop_last(), i, local);
    }
}

/// The name of a bucket: the file name of its path, or empty where it has
/// none.
pub(crate) fn bucket_name_of(path: &str) -> (r: String)
    ensures
        r@ == bucket_name(path@),
{
    match file_name_of(path) {
        Some(n) => n,
        None => String::new(),
    }
}

/// Whether some bucket has an application.
fn has_hit(buckets: &Vec<Bucket>) -> (r: bool)
    ensures
        r == any_hit(buckets.deep_view()),
{
    let mut i: usize = 0;
    while i < buckets.len()
        invariant
            i <= buckets@.len(),
            forall|k: int| 0 <= k < i ==> buckets.deep_view()[k].apps.len() == 0,
        decreases buckets.len() - i,
    {
        if buckets[i].apps.len() > 0 {
            assert(buckets.deep_view()[i as int].apps.len() > 0);
            return true;
        }
        i = i + 1;
    }
    false
}

/// Whether `name` is one of `names`.
fn is_listed(names: &Vec<String>, name: &str) -> (r: bool)
    ensures
        r == names.deep_view().contains(name@),
{
    let mut i: usize = 0;
    while i < names.len()
        invariant
            i <= names@.len(),
            forall|k: int| 0 <= k < i ==> names.deep_view()[k] != name@,
        decreases names.len() - i,
    {
        if str_equal(names[i].as_str(), name) {
            assert(names.deep_view()[i as int] == name@);
            return true;
        }
        i = i + 1;
    }
    false
}

/// The API address that lists the files of repository `repo` of `user`.
fn make_api_url(user: &str, repo: &str) -> (r: String)
    ensures
        r@ == api_url(user@, repo@),
{
    let mut s = String::from_str("https://api.github.com/repos/");
    s.append(user);
    s.append("/");
    s.append(repo);
    s.append("/git/trees/HEAD?recursive=1");
    s
}

impl Bucket {
    fn new(name: String, apps: Vec<App>) -> (r: Bucket)
        ensures
            r.name == name,
            r.apps == apps,
    {
        Bucket { name, apps }
    }

    /// The name of the bucket at `path`: the file name of the path, which it
    /// must have.
    pub fn get_name(path: &str) -> (r: String)
        requires
            file_name(path@) is Some,
        ensures
            Some(r@) == file_name(path@),
    {
        bucket_name_of(path)
    }

    /// One local bucket searched by application names and binary names.
    fn search_include_one(b: &LocalBucket, query: &str) -> (r: Bucket)
        ensures
            r.deep_view() == include_bucket(b.deep_view(), query@),
    {
        let ms = &b.manifests;
        let mut apps: Vec<App> = Vec::new();
        let mut i: usize = 0;
        while i < ms.len()
            invariant
                i <= ms@.len(),
                apps.deep_view() == bucket_apps(ms.deep_view().subrange(0, i as int)),
            decreases ms.len() - i,
        {
            proof {
                lemma_drop_last_prefix(ms.deep_view(), i as int);
            }
            let ghost before = apps.deep_view();
            let m = &ms[i];
            match &m.text {
                Some(t) => match App::new(m.path.as_str(), t.as_str()) {
                    Some(a) => {
                        apps.push(a);
                        assert(apps.deep_view() =~= before.push(
                            manifest_app(m.path@, t@),
                        ));
                    },
                    None => {},
                },
                None => {},
            }
            i = i + 1;
        }
        assert(ms.deep_view().subrange(0, ms@.len() as int) =~= ms.deep_view());
        let found = App::search_apps(&apps, query);
        Bucket::new(bucket_name_of(b.path.as_str()), found)
    }

    /// One local bucket searched by application names alone.
    fn search_exclude_one(b: &LocalBucket, query: &str) -> (r: Bucket)
        ensures
            r.deep_view() == exclude_bucket(b.deep_view(), query@),
    {
        let ms = &b.manifests;
        let mut apps: Vec<App> = Vec::new();
        let mut i: usize = 0;
        while i < ms.len()
            invariant
                i <= ms@.len(),
                apps.deep_view() == name_rows(ms.deep_view().subrange(0, i as int), query@),
            decreases ms.len() - i,
        {
            proof {
                lemma_drop_last_prefix(ms.deep_view(), i as int);
            }
            let ghost before = apps.deep_view();
            let m = &ms[i];
            let name = match file_stem_of(m.path.as_str()) {
                Some(n) => n,
                None => String::new(),
            };
            if name_matches(name.as_str(), query) {
                match &m.text {
                    Some(t) => match App::get_version_bin(t.as_str()) {
                        Some((version, _)) => {
                            apps.push(App { name, version, bin: Vec::new() });
                            assert(apps.deep_view().last().bin =~= Seq::<Seq<char>>::empty());
                            assert(apps.deep_view() =~= before.push(apps.deep_view().last()));
                        },
                        None => {},
                    },
                    None => {},
                }
            }
            i = i + 1;
        }
        assert(ms.deep_view().subrange(0, ms@.len() as int) =~= ms.deep_view());
        Bucket::new(bucket_name_of(b.path.as_str()), apps)
    }

    /// Searches every local bucket by application names and by the file names
    /// of their binaries. Each bucket is reported, in order, with the rows it
    /// gives (possibly none); `None` where no bucket gives a row.
    pub fn search_local_buckets(buckets: &Vec<LocalBucket>, query: &str) -> (r: Option<Vec<Bucket>>)
        ensures
            r is Some <==> any_hit(include_results(buckets.deep_view(), query@)),
            r matches Some(v) ==> v.deep_view() == include_results(buckets.deep_view(), query@),
    {
        let ghost want = include_results(buckets.deep_view(), query@);
        let mut result: Vec<Bucket> = Vec::new();
        let mut i: usize = 0;
        while i < buckets.len()
            invariant
                i <= buckets@.len(),
                want == include_results(buckets.deep_view(), query@),
                result.deep_view() =~= want.subrange(0, i as int),
            decreases buckets.len() - i,
        {
            let b = Bucket::search_include_one(&buckets[i], query);
            let ghost before = result.deep_view();
            result.push(b);
            assert(result.deep_view() =~= before.push(want[i as int]));
            i = i + 1;
        }
        assert(result.deep_view() =~= want);
        if has_hit(&result) {
            Some(result)
        } else {
            None
        }
    }

    /// Searches every local bucket by application names alone. Each bucket is
    /// reported, in order, with the applications whose names match (possibly
    /// none); `None` where no bucket has one.
    pub fn search_exclude_bin(buckets: &Vec<LocalBucket>, query: &str) -> (r: Option<Vec<Bucket>>)
        ensures
            r is Some <==> any_hit(exclude_results(buckets.deep_view(), query@)),
            r matches Some(v) ==> v.deep_view() == exclude_results(buckets.deep_view(), query@),
    {
        let ghost want = exclude_results(buckets.deep_view(), query@);
        let mut result: Vec<Bucket> = Vec::new();
        let mut i: usize = 0;
        while i < buckets.len()
            invariant
                i <= buckets@.len(),
                want == exclude_results(buckets.deep_view(), query@),
                result.deep_view() =~= want.subrange(0, i as int),
            decreases buckets.len() - i,
        {
            let b = Bucket::search_exclude_one(&buckets[i], query);
            let ghost before = result.deep_view();
            result.push(b);
            assert(result.deep_view() =~= before.push(want[i as int]));
            i = i + 1;
        }
        assert(result.deep_view() =~= want);
        if has_hit(&result) {
            Some(result)
        } else {
            None
        }
    }

    /// The remote buckets to look in: for each entry of the registry whose
    /// name is not among the local ones, in order, its name and the API
    /// address made from the last two components of its path. `None` where the
    /// registry is not a JSON object or any entry, local or not, is malformed.
    pub fn get_remote_names_urls(registry: &str, local_bucket_names: &Vec<String>) -> (r: Option<
        Vec<(String, String)>,
    >)
        ensures
            r is None <==> registry_targets(registry@, local_bucket_names.deep_view()) is None,
            r matches Some(v) ==> registry_targets(registry@, local_bucket_names.deep_view())
                == Some(v.deep_view()),
    {
        let fields = match parse_json(registry) {
            Some(Json::Object(fields)) => fields,
            _ => {
                return None;
            },
        };
        let ghost local = local_bucket_names.deep_view();
        let mut result: Vec<(String, String)> = Vec::new();
        let mut i: usize = 0;
        assert(fields.deep_view().subrange(0, 0) =~= Seq::<(Seq<char>, Seq<char>)>::empty());
        assert(result.deep_view() =~= Seq::<(Seq<char>, Seq<char>)>::empty());
        while i < fields.len()
            invariant
                i <= fields@.len(),
                local == local_bucket_names.deep_view(),
                registry_targets(registry@, local) == remote_targets(fields.deep_view(), local),
                remote_targets(fields.deep_view().subrange(0, i as int), local) == Some(
                    result.deep_view(),
                ),
            decreases fields.len() - i,
        {
            proof {
                lemma_drop_last_prefix(fields.deep_view(), i as int);
            }
            let ghost before = result.deep_view();
            let name = &fields[i].0;
            let value = &fields[i].1;
            assert(fields.deep_view()[i as int] == (name@, value@));
            let path = match read_string(value.as_str()) {
                Some(p) => p,
                None => {
                    proof {
                        lemma_targets_none_extends(fields.deep_view(), i + 1, local);
                    }
                    return None;
                },
            };
            let parent = parent_path_of(path.as_str());
            let (user, repo) = match (file_name_of(parent.as_str()), file_name_of(path.as_str())) {
                (Some(user), Some(repo)) => (user, repo),
                _ => {
                    proof {
                        lemma_targets_none_extends(fields.deep_view(), i + 1, local);
                    }
                    return None;
                },
            };
            if !is_listed(local_bucket_names, name.as_str()) {
                let url = make_api_url(user.as_str(), repo.as_str());
                result.push((name.clone(), url));
                assert(result.deep_view() =~= before.push((name@, url@)));
            }
            i = i + 1;
        }
        assert(fields.deep_view().subrange(0, fields@.len() as int) =~= fields.deep_view());
        Some(result)
    }

    /// Searches the remote buckets, given each one's name and the body of its
    /// listing (`None` where the request failed). Each bucket is reported, in
    /// order; one whose listing failed or could not be read has no
    /// applications. `None` where no bucket has one.
    pub fn search_remote_buckets(fetched: &Vec<(String, Option<String>)>, query: &str) -> (r: Option<
        Vec<Bucket>,
    >)
        ensures
            r is Some <==> any_hit(remote_results(fetched.deep_view(), query@)),
            r matches Some(v) ==> v.deep_view() == remote_results(fetched.deep_view(), query@),
    {
        let ghost want = remote_results(fetched.deep_view(), query@);
        let mut result: Vec<Bucket> = Vec::new();
        let mut i: usize = 0;
        while i < fetched.len()
            invariant
                i <= fetched@.len(),
                want == remote_results(fetched.deep_view(), query@),
                result.deep_view() =~= want.subrange(0, i as int),
            decreases fetched.len() - i,
        {
            let name = &fetched[i].0;
            let ghost f = fetched.deep_view()[i as int];
            assert(f.0 == name@);
            let apps: Vec<App> = match &fetched[i].1 {
                Some(body) => {
                    assert(f.1 == Some(body@));
                    match App::search_remote_apps(body.as_str(), query) {
                        Ok(apps) => apps,
                        Err(_) => {
                            let none: Vec<App> = Vec::new();
                            assert(none.deep_view() =~= Seq::<AppView>::empty());
                            none
                        },
                    }
                },
                None => {
                    let none: Vec<App> = Vec::new();
                    assert(none.deep_view() =~= Seq::<AppView>::empty());
                    none
                },
            };
            let b = Bucket::new(name.clone(), apps);
            assert(b.deep_view() =~= want[i as int]);
            let ghost before = result.deep_view();
            result.push(b);
            assert(result.deep_view() =~= before.push(want[i as int]));
            i = i + 1;
        }
        assert(result.deep_view() =~= want);
        if has_hit(&result) {
            Some(result)
        } else {
            None
        }
    }
}

} // verus!
