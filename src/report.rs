//! The text report of a search, line by line.
use vstd::prelude::*;
use vstd::string::*;

use crate::app::{manifest_app, App, AppView};
use crate::json::{json_of, member};
use crate::path::{file_stem, name_or_empty};
use crate::bucket::{Bucket, BucketView};

verus! {

/// The line of one application: the name, then the version in parentheses
/// where there is one, then the first binary where there is one.
pub open spec fn app_line(a: AppView) -> Seq<char> {
    if a.version.len() > 0 {
        if a.bin.len() > 0 {
            "    "@ + a.name + " ("@ + a.version + ") --> includes '"@ + a.bin[0] + "'"@
        } else {
            "    "@ + a.name + " ("@ + a.version + ")"@
        }
    } else {
        "    "@ + a.name
    }
}

/// The lines of one bucket: none where it has no application, else a header,
/// a line for each application and an empty line.
pub open spec fn bucket_lines(name: Seq<char>, apps: Seq<AppView>) -> Seq<Seq<char>> {
    if apps.len() == 0 {
        Seq::empty()
    } else {
        seq!["'"@ + name + "' bucket:"@] + apps.map_values(|a: AppView| app_line(a)) + seq![
            Seq::empty(),
        ]
    }
}

/// The lines of several buckets, in order.
pub open spec fn buckets_lines(bs: Seq<BucketView>) -> Seq<Seq<char>>
    decreases bs.len(),
{
    if bs.len() == 0 {
        Seq::empty()
    } else {
        buckets_lines(bs.drop_last()) + bucket_lines(bs.last().name, bs.last().apps)
    }
}

/// A manifest without `version` reports the empty version, and its line is
/// the bare name, without parentheses.
pub proof fn lemma_missing_version_bare_name(path: Seq<char>, text: Seq<char>)
    requires
        member(json_of(text), "version"@) is None,
    ensures
        manifest_app(path, text).version == Seq::<char>::empty(),
        app_line(manifest_app(path, text)) == "    "@ + name_or_empty(file_stem(path)),
{
}

/// The line of one application.
pub fn app_line_of(a: &App) -> (r: String)
    ensures
        r@ == app_line(a.deep_view()),
{
    let mut s = String::from_str("    ");
    s.append(a.name.as_str());
    if a.version.as_str().unicode_len() > 0 {
        s.append(" (");
        s.append(a.version.as_str());
        if a.bin.len() > 0 {
            s.append(") --> includes '");
            s.append(a.bin[0].as_str());
            s.append("'");
        } else {
            s.append(")");
        }
    }
    s
}

/// The lines that report the applications of one bucket.
pub fn display_apps(bucket_name: &str, apps: &Vec<App>) -> (r: Vec<String>)
    ensures
        r.deep_view() == bucket_lines(bucket_name@, apps.deep_view()),
{
    let mut lines: Vec<String> = Vec::new();
    if apps.len() == 0 {
        assert(lines.deep_view() =~= bucket_lines(bucket_name@, apps.deep_view()));
        return lines;
    }
    let mut header = String::from_str("'");
    header.append(bucket_name);
    header.append("' bucket:");
    let ghost head = header@;
    lines.push(header);
    let ghost first = lines.deep_view();
    assert(first =~= seq![head]);
    let mut i: usize = 0;
    while i < apps.len()
        invariant
            i <= apps@.len(),
            first == seq![head],
            lines.deep_view() =~= first + apps.deep_view().subrange(0, i as int).map_values(
                |a: AppView| app_line(a),
            ),
        decreases apps.len() - i,
    {
        let line = app_line_of(&apps[i]);
        let ghost before = lines.deep_view();
        lines.push(line);
        assert(lines.deep_view() =~= before.push(line@));
        assert(apps.deep_view().subrange(0, i + 1).map_values(|a: AppView| app_line(a))
            =~= apps.deep_view().subrange(0, i as int).map_values(|a: AppView| app_line(a)).push(
            line@,
        ));
        i = i + 1;
    }
    let ghost before_last = lines.deep_view();
    lines.push(String::new());
    assert(lines.deep_view() =~= before_last.push(Seq::empty()));
    assert(apps.deep_view().subrange(0, apps@.len() as int) =~= apps.deep_view());
    assert(lines.deep_view() =~= bucket_lines(bucket_name@, apps.deep_view()));
    lines
}

/// The lines that report several buckets, in order; buckets without
/// applications give none.
pub fn display_buckets(buckets: &Vec<Bucket>) -> (r: Vec<String>)
    ensures
        r.deep_view() == buckets_lines(buckets.deep_view()),
{
    let mut lines: Vec<String> = Vec::new();
    let mut i: usize = 0;
    while i < buckets.len()
        invariant
            i <= buckets@.len(),
            lines.deep_view() == buckets_lines(buckets.deep_view().subrange(0, i as int)),
        decreases buckets.len() - i,
    {
        let b = &buckets[i];
        let more = display_apps(b.name.as_str(), &b.apps);
        let ghost before = lines.deep_view();
        let mut j: usize = 0;
        while j < more.len()
            invariant
                j <= more@.len(),
                lines.deep_view() =~= before + more.deep_view().subrange(0, j as int),
            decreases more.len() - j,
        {
            let ghost mid = lines.deep_view();
            let line = more[j].clone();
            lines.push(line);
            assert(lines.deep_view() =~= mid.push(more.deep_view()[j as int]));
            assert(more.deep_view().subrange(0, j + 1) =~= more.deep_view().subrange(0, j as int).push(
                more.deep_view()[j as int],
            ));
            j = j + 1;
        }
        proof {
            assert(more.deep_view().subrange(0, more@.len() as int) =~= more.deep_view());
            assert(buckets.deep_view().subrange(0, i + 1).drop_last() =~= buckets.deep_view().subrange(
                0,
                i as int,
            ));
        }
        i = i + 1;
    }
    assert(buckets.deep_view().subrange(0, buckets@.len() as int) =~= buckets.deep_view());
    lines
}

} // verus!
