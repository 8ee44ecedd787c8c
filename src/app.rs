//! Applications: what a manifest says, and which ones match a query.
use vstd::prelude::*;

use crate::json::{
    get_member, json_of, json_string, member, parse_json, read_string, string_or_empty, Json,
};
use crate::path::{file_name, file_name_of, file_stem, file_stem_of, name_or_empty};
use crate::text::{ends_with, matches_query, name_matches, str_ends_with};

verus! {

/// An application as a search reports it.
#[derive(Debug, PartialEq, Clone)]
pub struct App {
    pub name: String,
    pub version: String,
    pub bin: Vec<String>,
}

pub struct AppView {
    pub name: Seq<char>,
    pub version: Seq<char>,
    pub bin: Seq<Seq<char>>,
}

impl DeepView for App {
    type V = AppView;

    open spec fn deep_view(&self) -> AppView {
        AppView { name: self.name@, version: self.version@, bin: self.bin.deep_view() }
    }
}

/// Why a remote listing could not be read.
#[derive(Debug, PartialEq, Eq, Structural, Clone, Copy)]
pub enum RemoteError {
    /// The response is not JSON.
    NotJson,
    /// The response has no `tree` member.
    NoTree,
    /// The `tree` member is not an array.
    TreeNotArray,
}

/// The `version` of a manifest document: its string, or empty where it is
/// missing or not a string.
pub open spec fn manifest_version(doc: Option<Json>) -> Seq<char> {
    match member(doc, "version"@) {
        Some(t) => string_or_empty(t),
        None => Seq::empty(),
    }
}

/// The `bin` of a manifest document: one string, the items of an array (an
/// item that is not a string counts as the empty string), or nothing.
pub open spec fn manifest_bins(doc: Option<Json>) -> Seq<Seq<char>> {
    match member(doc, "bin"@) {
        Some(t) => match json_of(t) {
            Some(Json::Str(s)) => seq![s@],
            Some(Json::Array(items)) => items.deep_view().map_values(
                |i: Seq<char>| string_or_empty(i),
            ),
            _ => Seq::empty(),
        },
        None => Seq::empty(),
    }
}

/// The application that a manifest file describes.
pub open spec fn manifest_app(path: Seq<char>, text: Seq<char>) -> AppView {
    AppView {
        name: name_or_empty(file_stem(path)),
        version: manifest_version(json_of(text)),
        bin: manifest_bins(json_of(text)),
    }
}

/// The rows that binaries `bins` of `app` give: one for each binary whose file
/// name matches.
pub open spec fn bin_rows(app: AppView, bins: Seq<Seq<char>>, query: Seq<char>) -> Seq<AppView>
    decreases bins.len(),
{
    if bins.len() == 0 {
        Seq::empty()
    } else {
        let rest = bin_rows(app, bins.drop_last(), query);
        let b = name_or_empty(file_name(bins.last()));
        if matches_query(b, query) {
            rest.push(AppView { name: app.name, version: app.version, bin: seq![b] })
        } else {
            rest
        }
    }
}

/// The rows of one application: itself without binaries where its name
/// matches, else one for each matching binary.
pub open spec fn app_rows(app: AppView, query: Seq<char>) -> Seq<AppView> {
    if matches_query(app.name, query) {
        seq![AppView { name: app.name, version: app.version, bin: Seq::empty() }]
    } else {
        bin_rows(app, app.bin, query)
    }
}

/// The rows of a list of applications, in order.
pub open spec fn search_rows(apps: Seq<AppView>, query: Seq<char>) -> Seq<AppView>
    decreases apps.len(),
{
    if apps.len() == 0 {
        Seq::empty()
    } else {
        search_rows(apps.drop_last(), query) + app_rows(apps.last(), query)
    }
}

/// The `path` string of an entry of a remote tree, or empty.
pub open spec fn entry_path(item: Seq<char>) -> Seq<char> {
    match member(json_of(item), "path"@) {
        Some(t) => string_or_empty(t),
        None => Seq::empty(),
    }
}

/// A path without its `.json` ending.
pub open spec fn strip_json(p: Seq<char>) -> Seq<char> {
    p.subrange(0, p.len() - ".json"@.len())
}

/// The applications that the entries of a remote tree give: each path that
/// ends in `.json` and, without that ending, matches.
pub open spec fn tree_rows(items: Seq<Seq<char>>, query: Seq<char>) -> Seq<AppView>
    decreases items.len(),
{
    if items.len() == 0 {
        Seq::empty()
    } else {
        let rest = tree_rows(items.drop_last(), query);
        let p = entry_path(items.last());
        if ends_with(p, ".json"@) && matches_query(strip_json(p), query) {
            rest.push(AppView { name: strip_json(p), version: Seq::empty(), bin: Seq::empty() })
        } else {
            rest
        }
    }
}

/// What a remote listing gives for a query.
pub open spec fn remote_result(body: Seq<char>, query: Seq<char>) -> Result<
    Seq<AppView>,
    RemoteError,
> {
    match json_of(body) {
        None => Err(RemoteError::NotJson),
        Some(doc) => match member(Some(doc), "tree"@) {
            None => Err(RemoteError::NoTree),
            Some(t) => match json_of(t) {
                Some(Json::Array(items)) => Ok(tree_rows(items.deep_view(), query)),
                _ => Err(RemoteError::TreeNotArray),
            },
        },
    }
}

/// A manifest whose `bin` is one string has that string as its only binary.
pub proof fn lemma_single_bin(text: Seq<char>, s: Seq<char>)
    requires
        member(json_of(text), "bin"@) matches Some(t) && json_string(t) == Some(s),
    ensures
        manifest_bins(json_of(text)) == seq![s],
{
}

/// A manifest whose `bin` is an array of strings has those strings as its
/// binaries, as they stand and in their order.
pub proof fn lemma_string_array_bins(text: Seq<char>, strings: Seq<Seq<char>>)
    requires
        member(json_of(text), "bin"@) matches Some(t) && json_of(t) matches Some(Json::Array(items))
            && items@.len() == strings.len() && forall|i: int|
            0 <= i < strings.len() ==> json_string(#[trigger] items@[i]@) == Some(strings[i]),
    ensures
        manifest_bins(json_of(text)) == strings,
{
    let items = json_of(member(json_of(text), "bin"@)->0)->0->Array_0;
    assert(manifest_bins(json_of(text)) =~= strings) by {
        assert forall|i: int| 0 <= i < strings.len() implies manifest_bins(json_of(text))[i]
            == strings[i] by {
            assert(items.deep_view()[i] == items@[i]@);
        }
    }
}

pub(crate) proof fn lemma_drop_last_prefix<A>(s: Seq<A>, i: int)
    requires
        0 <= i < s.len(),
    ensures
        s.subrange(0, i + 1).drop_last() == s.subrange(0, i),
        s.subrange(0, i + 1).last() == s[i],
{
    assert(s.subrange(0, i + 1).drop_last() =~= s.subrange(0, i));
}

/// The string a JSON text denotes, or the empty string.
fn string_or_empty_of(text: &str) -> (r: String)
    ensures
        r@ == string_or_empty(text@),
{
    match read_string(text) {
        Some(s) => s,
        None => String::new(),
    }
}

impl App {
    /// The application that a manifest file describes, or `None` where the
    /// manifest is not JSON.
    pub fn new(path: &str, manifest: &str) -> (r: Option<App>)
        ensures
            r is None <==> json_of(manifest@) is None,
            r matches Some(a) ==> a.deep_view() == manifest_app(path@, manifest@),
    {
        let name = match App::get_name(path) {
            Some(n) => n,
            None => String::new(),
        };
        assert(name@ =~= name_or_empty(file_stem(path@)));
        match App::get_version_bin(manifest) {
            Some((version, bin)) => Some(App { name, version, bin }),
            None => None,
        }
    }

    /// The name of the application at `path`: its file name without the
    /// extension, or `None` where the path has no file name (it ends in `..`
    /// or has no component).
    pub fn get_name(path: &str) -> (r: Option<String>)
        ensures
            r.deep_view() == file_stem(path@),
    {
        file_stem_of(path)
    }

    /// The version and the binaries of a manifest, or `None` where it is not
    /// JSON.
    pub fn get_version_bin(manifest: &str) -> (r: Option<(String, Vec<String>)>)
        ensures
            r is None <==> json_of(manifest@) is None,
            r matches Some((v, b)) ==> v@ == manifest_version(json_of(manifest@)) && b.deep_view()
                == manifest_bins(json_of(manifest@)),
    {
        let doc = parse_json(manifest);
        if doc.is_none() {
            return None;
        }
        let version = match get_member(&doc, "version") {
            Some(t) => string_or_empty_of(t.as_str()),
            None => String::new(),
        };
        let mut bin: Vec<String> = Vec::new();
        match get_member(&doc, "bin") {
            Some(t) => match parse_json(t.as_str()) {
                Some(Json::Str(s)) => {
                    bin.push(s);
                    assert(bin.deep_view() =~= manifest_bins(doc));
                },
                Some(Json::Array(items)) => {
                    let ghost want = items.deep_view().map_values(
                        |i: Seq<char>| string_or_empty(i),
                    );
                    let mut i: usize = 0;
                    while i < items.len()
                        invariant
                            i <= items@.len(),
                            want == items.deep_view().map_values(
                                |i: Seq<char>| string_or_empty(i),
                            ),
                            bin.deep_view() =~= want.subrange(0, i as int),
                        decreases items.len() - i,
                    {
                        let s = string_or_empty_of(items[i].as_str());
                        assert(items.deep_view()[i as int] == items@[i as int]@);
                        assert(want[i as int] == s@);
                        let ghost old_bin = bin.deep_view();
                        bin.push(s);
                        assert(bin.deep_view() =~= old_bin.push(want[i as int]));
                        assert(want.subrange(0, i + 1) =~= want.subrange(0, i as int).push(
                            want[i as int],
                        ));
                        i = i + 1;
                    }
                    assert(bin.deep_view() =~= want);
                },
                _ => {
                    assert(bin.deep_view() =~= manifest_bins(doc));
                },
            },
            None => {
                assert(bin.deep_view() =~= manifest_bins(doc));
            },
        }
        Some((version, bin))
    }

    /// The rows that `apps` give for `query`. An application whose name
    /// matches gives one row without binaries; any other gives one row for
    /// each binary whose file name matches, with that file name alone.
    pub fn search_apps(apps: &Vec<App>, query: &str) -> (r: Vec<App>)
        ensures
            r.deep_view() == search_rows(apps.deep_view(), query@),
    {
        let mut result: Vec<App> = Vec::new();
        let mut i: usize = 0;
        while i < apps.len()
            invariant
                i <= apps@.len(),
                result.deep_view() == search_rows(apps.deep_view().subrange(0, i as int), query@),
            decreases apps.len() - i,
        {
            let app = &apps[i];
            proof {
                lemma_drop_last_prefix(apps.deep_view(), i as int);
            }
            let ghost before = result.deep_view();
            if name_matches(app.name.as_str(), query) {
                result.push(
                    App { name: app.name.clone(), version: app.version.clone(), bin: Vec::new() },
                );
                assert(result.deep_view().last().bin =~= Seq::<Seq<char>>::empty());
                assert(result.deep_view() =~= before + app_rows(app.deep_view(), query@));
            } else {
                let mut j: usize = 0;
                while j < app.bin.len()
                    invariant
                        j <= app.bin@.len(),
                        !matches_query(app.name@, query@),
                        result.deep_view() == before + bin_rows(
                            app.deep_view(),
                            app.bin.deep_view().subrange(0, j as int),
                            query@,
                        ),
                    decreases app.bin.len() - j,
                {
                    proof {
                        lemma_drop_last_prefix(app.bin.deep_view(), j as int);
                    }
                    let b = match file_name_of(app.bin[j].as_str()) {
                        Some(b) => b,
                        None => String::new(),
                    };
                    let ghost mid = result.deep_view();
                    if name_matches(b.as_str(), query) {
                        let mut bins: Vec<String> = Vec::new();
                        bins.push(b);
                        result.push(
                            App { name: app.name.clone(), version: app.version.clone(), bin: bins },
                        );
                        assert(result.deep_view() =~= mid.push(result.deep_view().last()));
                        assert(result.deep_view().last().bin =~= seq![b@]);
                    }
                    j = j + 1;
                }
                assert(app.bin.deep_view().subrange(0, app.bin@.len() as int)
                    =~= app.bin.deep_view());
            }
            i = i + 1;
        }
        assert(apps.deep_view().subrange(0, apps@.len() as int) =~= apps.deep_view());
        result
    }

    /// The applications that a remote listing offers for `query`: each entry
    /// whose `path` ends in `.json` and, without that ending, matches.
    pub fn search_remote_apps(body: &str, query: &str) -> (r: Result<Vec<App>, RemoteError>)
        ensures
            r matches Ok(v) ==> remote_result(body@, query@) == Ok::<Seq<AppView>, RemoteError>(
                v.deep_view(),
            ),
            r matches Err(e) ==> remote_result(body@, query@) == Err::<Seq<AppView>, RemoteError>(
                e,
            ),
    {
        let doc = parse_json(body);
        if doc.is_none() {
            return Err(RemoteError::NotJson);
        }
        let tree = match get_member(&doc, "tree") {
            Some(t) => t,
            None => {
                return Err(RemoteError::NoTree);
            },
        };
        let items = match parse_json(tree.as_str()) {
            Some(Json::Array(items)) => items,
            _ => {
                return Err(RemoteError::TreeNotArray);
            },
        };
        let mut result: Vec<App> = Vec::new();
        let mut i: usize = 0;
        while i < items.len()
            invariant
                i <= items@.len(),
                result.deep_view() == tree_rows(items.deep_view().subrange(0, i as int), query@),
            decreases items.len() - i,
        {
            proof {
                lemma_drop_last_prefix(items.deep_view(), i as int);
            }
            let entry = parse_json(items[i].as_str());
            let path = match get_member(&entry, "path") {
                Some(t) => string_or_empty_of(t.as_str()),
                None => String::new(),
            };
            let ghost before = result.deep_view();
            if str_ends_with(path.as_str(), ".json") {
                let n = path.as_str().unicode_len();
                proof {
                    reveal_strlit(".json");
                }
                let name = path.as_str().substring_char(0, n - 5).to_owned();
                if name_matches(name.as_str(), query) {
                    result.push(App { name, version: String::new(), bin: Vec::new() });
                    assert(result.deep_view() =~= before.push(result.deep_view().last()));
                    assert(result.deep_view().last().bin =~= Seq::<Seq<char>>::empty());
                }
            }
            i = i + 1;
        }
        assert(items.deep_view().subrange(0, items@.len() as int) =~= items.deep_view());
        Ok(result)
    }
}

} // verus!
