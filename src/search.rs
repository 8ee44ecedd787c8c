//! The command line and the course of a search: the local buckets first, the
//! remote ones only where no local bucket has a match.
use vstd::prelude::*;

use crate::bucket::{
    any_hit, bucket_name, bucket_name_of, exclude_results, include_results, lemma_remote_names_are_unlisted, registry_targets,
    remote_results, remote_targets, Bucket, BucketView, LocalBucket, LocalBucketView,
};
use crate::json::{json_of, Json};
use crate::report::{buckets_lines, display_buckets};
use crate::text::{lower_of, str_equal, to_lower};
use vstd::string::*;

verus! {

/// What the command line asks for.
#[derive(Debug, PartialEq)]
pub struct Args {
    /// The query, lowercased.
    pub query: String,
    /// Match application names alone, not the names of their binaries.
    pub exclude_bin: bool,
}

/// Why the command line was refused.
#[derive(Debug, PartialEq, Eq, Structural, Clone, Copy)]
pub enum ArgsError {
    /// The command line holds no query.
    MissingQuery,
    /// The command line asked of `get_query` holds no query.
    NoQuery,
    InvalidOption,
    WrongCount,
}

impl ArgsError {
    /// The one-line diagnostic for the error.
    pub fn message(&self) -> (r: &'static str)
        ensures
            *self == ArgsError::MissingQuery ==> r@ == "Didn't get query"@,
            *self == ArgsError::NoQuery ==> r@ == "Didn't get a query"@,
            *self == ArgsError::InvalidOption ==> r@ == "option is not valid"@,
            *self == ArgsError::WrongCount ==> r@ == "args number incorrect."@,
    {
        match self {
            ArgsError::MissingQuery => "Didn't get query",
            ArgsError::NoQuery => "Didn't get a query",
            ArgsError::InvalidOption => "option is not valid",
            ArgsError::WrongCount => "args number incorrect.",
        }
    }
}

/// The command line read: the program name, then the query, or `--bin` and
/// the query. Without `--bin` only application names are matched.
pub open spec fn parsed_args(args: Seq<Seq<char>>) -> Result<(Seq<char>, bool), ArgsError> {
    if args.len() == 1 {
        Err(ArgsError::MissingQuery)
    } else if args.len() == 2 {
        Ok((lower_of(args[1]), true))
    } else if args.len() == 3 {
        if args[1] == "--bin"@ {
            Ok((lower_of(args[2]), false))
        } else {
            Err(ArgsError::InvalidOption)
        }
    } else {
        Err(ArgsError::WrongCount)
    }
}

/// Reads the command line (the program name first).
pub fn parse_args(args: &Vec<String>) -> (r: Result<Args, ArgsError>)
    ensures
        r matches Ok(a) ==> parsed_args(args.deep_view()) == Ok::<(Seq<char>, bool), ArgsError>(
            (a.query@, a.exclude_bin),
        ),
        r matches Err(e) ==> parsed_args(args.deep_view()) == Err::<(Seq<char>, bool), ArgsError>(
            e,
        ),
{
    let n = args.len();
    if n == 1 {
        Err(ArgsError::MissingQuery)
    } else if n == 2 {
        Ok(Args { query: to_lower(args[1].as_str()), exclude_bin: true })
    } else if n == 3 {
        if str_equal(args[1].as_str(), "--bin") {
            Ok(Args { query: to_lower(args[2].as_str()), exclude_bin: false })
        } else {
            Err(ArgsError::InvalidOption)
        }
    } else {
        Err(ArgsError::WrongCount)
    }
}

/// The query of a command line (the program name first), lowercased.
pub fn get_query(args: &Vec<String>) -> (r: Result<String, ArgsError>)
    ensures
        args@.len() < 2 <==> r is Err,
        r matches Err(e) ==> e == ArgsError::NoQuery,
        r matches Ok(q) ==> q@ == lower_of(args@[1]@),
{
    if args.len() < 2 {
        Err(ArgsError::NoQuery)
    } else {
        Ok(to_lower(args[1].as_str()))
    }
}

/// Where a search stands.
#[derive(Debug, PartialEq)]
pub enum Phase {
    /// The local buckets are being listed.
    Listing,
    /// No local bucket has a match; the registry is being read. Holds the
    /// names of the local buckets.
    Resolving(Vec<String>),
    /// The listings of these remote buckets are being fetched.
    Fetching(Vec<String>),
    /// The report has been handed out.
    Done,
}

/// What the outside world answered.
#[derive(Debug, PartialEq)]
pub enum Event {
    /// The local buckets, as listed and read.
    Listed(Vec<LocalBucket>),
    /// The registry text, or `None` where it could not be read.
    RegistryRead(Option<String>),
    /// The body of each listing asked for, in order; `None` where the request
    /// failed.
    Fetched(Vec<Option<String>>),
}

/// What the search asks of the outside world next.
#[derive(Debug, PartialEq)]
pub enum Action {
    /// List and read the local buckets.
    ListLocal,
    /// Read the registry of known buckets.
    ReadRegistry,
    /// Fetch these API addresses, in order.
    Fetch(Vec<String>),
    /// Print these lines; the search is over.
    Print(Vec<String>),
}

pub enum PhaseView {
    Listing,
    Resolving(Seq<Seq<char>>),
    Fetching(Seq<Seq<char>>),
    Done,
}

pub enum EventView {
    Listed(Seq<LocalBucketView>),
    RegistryRead(Option<Seq<char>>),
    Fetched(Seq<Option<Seq<char>>>),
}

pub enum ActionView {
    ListLocal,
    ReadRegistry,
    Fetch(Seq<Seq<char>>),
    Print(Seq<Seq<char>>),
}

impl DeepView for Phase {
    type V = PhaseView;

    open spec fn deep_view(&self) -> PhaseView {
        match self {
            Phase::Listing => PhaseView::Listing,
            Phase::Resolving(names) => PhaseView::Resolving(names.deep_view()),
            Phase::Fetching(names) => PhaseView::Fetching(names.deep_view()),
            Phase::Done => PhaseView::Done,
        }
    }
}

impl DeepView for Event {
    type V = EventView;

    open spec fn deep_view(&self) -> EventView {
        match self {
            Event::Listed(bs) => EventView::Listed(bs.deep_view()),
            Event::RegistryRead(text) => EventView::RegistryRead(text.deep_view()),
            Event::Fetched(bodies) => EventView::Fetched(bodies.deep_view()),
        }
    }
}

impl DeepView for Action {
    type V = ActionView;

    open spec fn deep_view(&self) -> ActionView {
        match self {
            Action::ListLocal => ActionView::ListLocal,
            Action::ReadRegistry => ActionView::ReadRegistry,
            Action::Fetch(urls) => ActionView::Fetch(urls.deep_view()),
            Action::Print(lines) => ActionView::Print(lines.deep_view()),
        }
    }
}

pub open spec fn no_match_lines() -> Seq<Seq<char>> {
    seq!["No matches found."@]
}

pub open spec fn remote_header() -> Seq<Seq<char>> {
    seq![
        "Results from other known buckets..."@,
        "(add them using 'scoop bucket add <name>')"@,
        Seq::empty(),
    ]
}

/// The local buckets searched in the mode that the command line chose.
pub open spec fn local_results(exclude_bin: bool, bs: Seq<LocalBucketView>, query: Seq<char>) -> Seq<
    BucketView,
> {
    if exclude_bin {
        exclude_results(bs, query)
    } else {
        include_results(bs, query)
    }
}

/// The remote targets that a registry text gives; none where there is no
/// registry or it is malformed.
pub open spec fn targets_of(text: Option<Seq<char>>, local: Seq<Seq<char>>) -> Seq<
    (Seq<char>, Seq<char>),
> {
    match text {
        Some(t) => match registry_targets(t, local) {
            Some(ts) => ts,
            None => Seq::empty(),
        },
        None => Seq::empty(),
    }
}

/// Each remote bucket with its listing; a listing that is missing counts as a
/// failed request.
pub open spec fn pair_bodies(names: Seq<Seq<char>>, bodies: Seq<Option<Seq<char>>>) -> Seq<
    (Seq<char>, Option<Seq<char>>),
> {
    Seq::new(
        names.len(),
        |i: int|
            (names[i], if i < bodies.len() {
                bodies[i]
            } else {
                None
            }),
    )
}

/// One step of a search: from where it stands and what the outside world
/// answered, where it goes and what it asks next.
pub open spec fn step(query: Seq<char>, exclude_bin: bool, phase: PhaseView, event: EventView) -> (
    PhaseView,
    ActionView,
) {
    match phase {
        PhaseView::Listing => match event {
            EventView::Listed(bs) => {
                let res = local_results(exclude_bin, bs, query);
                if any_hit(res) {
                    (PhaseView::Done, ActionView::Print(buckets_lines(res)))
                } else {
                    (
                        PhaseView::Resolving(bs.map_values(|b: LocalBucketView| bucket_name(b.path))),
                        ActionView::ReadRegistry,
                    )
                }
            },
            _ => (PhaseView::Done, ActionView::Print(Seq::empty())),
        },
        PhaseView::Resolving(local) => match event {
            EventView::RegistryRead(text) => {
                let ts = targets_of(text, local);
                if ts.len() == 0 {
                    (PhaseView::Done, ActionView::Print(no_match_lines()))
                } else {
                    (
                        PhaseView::Fetching(ts.map_values(|t: (Seq<char>, Seq<char>)| t.0)),
                        ActionView::Fetch(ts.map_values(|t: (Seq<char>, Seq<char>)| t.1)),
                    )
                }
            },
            _ => (PhaseView::Done, ActionView::Print(Seq::empty())),
        },
        PhaseView::Fetching(names) => match event {
            EventView::Fetched(bodies) => {
                let res = remote_results(pair_bodies(names, bodies), query);
                if any_hit(res) {
                    (PhaseView::Done, ActionView::Print(remote_header() + buckets_lines(res)))
                } else {
                    (PhaseView::Done, ActionView::Print(no_match_lines()))
                }
            },
            _ => (PhaseView::Done, ActionView::Print(Seq::empty())),
        },
        PhaseView::Done => (PhaseView::Done, ActionView::Print(Seq::empty())),
    }
}

/// The actions that a search takes from `phase` on, for a sequence of
/// answers.
pub open spec fn session_from(
    query: Seq<char>,
    exclude_bin: bool,
    phase: PhaseView,
    events: Seq<EventView>,
) -> Seq<ActionView>
    decreases events.len(),
{
    if events.len() == 0 {
        Seq::empty()
    } else {
        let (next, action) = step(query, exclude_bin, phase, events[0]);
        seq![action] + session_from(query, exclude_bin, next, events.drop_first())
    }
}

/// The actions of a whole search: it asks to list the local buckets, then
/// follows the answers.
pub open spec fn session(query: Seq<char>, exclude_bin: bool, events: Seq<EventView>) -> Seq<
    ActionView,
> {
    seq![ActionView::ListLocal] + session_from(query, exclude_bin, PhaseView::Listing, events)
}

/// A search run twice with the same query, against the same buckets, registry
/// and listings, takes the same actions in the same order, and so prints the
/// same report.
pub proof fn lemma_search_repeatable(
    query: Seq<char>,
    exclude_bin: bool,
    first: Seq<EventView>,
    second: Seq<EventView>,
)
    requires
        first == second,
    ensures
        session(query, exclude_bin, first) == session(query, exclude_bin, second),
{
}

/// Where a local bucket has a match, the search prints the local results and
/// asks for nothing remote; only where none has one does it go on to the
/// registry.
pub proof fn lemma_remote_only_without_local_hit(
    query: Seq<char>,
    exclude_bin: bool,
    bs: Seq<LocalBucketView>,
)
    ensures
        any_hit(local_results(exclude_bin, bs, query)) ==> step(
            query,
            exclude_bin,
            PhaseView::Listing,
            EventView::Listed(bs),
        ) == (PhaseView::Done, ActionView::Print(buckets_lines(local_results(exclude_bin, bs, query)))),
        !any_hit(local_results(exclude_bin, bs, query)) ==> step(
            query,
            exclude_bin,
            PhaseView::Listing,
            EventView::Listed(bs),
        ).1 == ActionView::ReadRegistry,
{
}

/// The names of the local buckets.
pub open spec fn local_names_of(bs: Seq<LocalBucketView>) -> Seq<Seq<char>> {
    bs.map_values(|b: LocalBucketView| bucket_name(b.path))
}

/// Where no local bucket has a match and the registry is a well-formed
/// object, a search asks for the listing of each registered bucket that is
/// not local, once each and in the order of the registry, and of no local
/// one; where none of the listings has a match, it reports that nothing
/// matched. Where the registry names no other bucket, it reports that at once.
pub proof fn lemma_unmatched_search_asks_every_unlisted_bucket(
    query: Seq<char>,
    exclude_bin: bool,
    bs: Seq<LocalBucketView>,
    registry: Seq<char>,
    fields: Seq<(Seq<char>, Seq<char>)>,
    bodies: Seq<Option<Seq<char>>>,
)
    requires
        !any_hit(local_results(exclude_bin, bs, query)),
        json_of(registry) matches Some(Json::Object(f)) && f.deep_view() == fields,
        remote_targets(fields, local_names_of(bs)) is Some,
    ensures
        remote_targets(fields, local_names_of(bs))->0.map_values(
            |t: (Seq<char>, Seq<char>)| t.0,
        ) == fields.map_values(|f: (Seq<char>, Seq<char>)| f.0).filter(
            |k: Seq<char>| !local_names_of(bs).contains(k),
        ),
        remote_targets(fields, local_names_of(bs))->0.len() == 0 ==> session(
            query,
            exclude_bin,
            seq![EventView::Listed(bs), EventView::RegistryRead(Some(registry))],
        ) == seq![
            ActionView::ListLocal,
            ActionView::ReadRegistry,
            ActionView::Print(no_match_lines()),
        ],
        remote_targets(fields, local_names_of(bs))->0.len() > 0 && !any_hit(
            remote_results(
                pair_bodies(
                    remote_targets(fields, local_names_of(bs))->0.map_values(
                        |t: (Seq<char>, Seq<char>)| t.0,
                    ),
                    bodies,
                ),
                query,
            ),
        ) ==> session(
            query,
            exclude_bin,
            seq![
                EventView::Listed(bs),
                EventView::RegistryRead(Some(registry)),
                EventView::Fetched(bodies),
            ],
        ) == seq![
            ActionView::ListLocal,
            ActionView::ReadRegistry,
            ActionView::Fetch(
                remote_targets(fields, local_names_of(bs))->0.map_values(
                    |t: (Seq<char>, Seq<char>)| t.1,
                ),
            ),
            ActionView::Print(no_match_lines()),
        ],
{
    let local = local_names_of(bs);
    lemma_remote_names_are_unlisted(fields, local);
    let ts = remote_targets(fields, local)->0;
    assert(registry_targets(registry, local) == Some(ts));
    assert(targets_of(Some(registry), local) == ts);
    let e2 = seq![EventView::Listed(bs), EventView::RegistryRead(Some(registry))];
    let e3 = seq![
        EventView::Listed(bs),
        EventView::RegistryRead(Some(registry)),
        EventView::Fetched(bodies),
    ];
    let p1 = PhaseView::Resolving(local);
    assert(step(query, exclude_bin, PhaseView::Listing, EventView::Listed(bs)) == (
        p1,
        ActionView::ReadRegistry,
    ));
    assert(e2.drop_first() =~= seq![EventView::RegistryRead(Some(registry))]);
    assert(e2.drop_first().drop_first() =~= Seq::<EventView>::empty());
    assert(e3.drop_first() =~= seq![
        EventView::RegistryRead(Some(registry)),
        EventView::Fetched(bodies),
    ]);
    assert(e3.drop_first().drop_first() =~= seq![EventView::Fetched(bodies)]);
    assert(e3.drop_first().drop_first().drop_first() =~= Seq::<EventView>::empty());
    let p2 = step(query, exclude_bin, p1, EventView::RegistryRead(Some(registry))).0;
    assert(session_from(query, exclude_bin, p2, Seq::<EventView>::empty()) =~= Seq::<
        ActionView,
    >::empty());
    let a2 = step(query, exclude_bin, p1, EventView::RegistryRead(Some(registry))).1;
    assert(session_from(query, exclude_bin, p1, e2.drop_first()) =~= seq![a2]);
    assert(session_from(query, exclude_bin, PhaseView::Listing, e2) =~= seq![
        ActionView::ReadRegistry,
        a2,
    ]);
    assert(session(query, exclude_bin, e2) =~= seq![ActionView::ListLocal, ActionView::ReadRegistry, a2]);
    if ts.len() > 0 {
        let p3 = step(query, exclude_bin, p2, EventView::Fetched(bodies)).0;
        let a3 = step(query, exclude_bin, p2, EventView::Fetched(bodies)).1;
        assert(session_from(query, exclude_bin, p3, Seq::<EventView>::empty()) =~= Seq::<
            ActionView,
        >::empty());
        assert(p2 == PhaseView::Fetching(ts.map_values(|t: (Seq<char>, Seq<char>)| t.0)));
        assert(session_from(query, exclude_bin, p2, e3.drop_first().drop_first()) =~= seq![a3]);
        assert(session_from(query, exclude_bin, p1, e3.drop_first()) =~= seq![a2, a3]);
        assert(session_from(query, exclude_bin, PhaseView::Listing, e3) =~= seq![
            ActionView::ReadRegistry,
            a2,
            a3,
        ]);
        assert(session(query, exclude_bin, e3) =~= seq![
            ActionView::ListLocal,
            ActionView::ReadRegistry,
            a2,
            a3,
        ]);
    }
}

/// Where a search starts: listing the local buckets.
pub fn start() -> (r: (Phase, Action))
    ensures
        r.0.deep_view() == PhaseView::Listing,
        r.1.deep_view() == ActionView::ListLocal,
{
    (Phase::Listing, Action::ListLocal)
}

fn no_match() -> (r: Vec<String>)
    ensures
        r.deep_view() == no_match_lines(),
{
    let mut lines: Vec<String> = Vec::new();
    lines.push(String::from_str("No matches found."));
    assert(lines.deep_view() =~= no_match_lines());
    lines
}

fn remote_report(buckets: &Vec<Bucket>) -> (r: Vec<String>)
    ensures
        r.deep_view() == remote_header() + buckets_lines(buckets.deep_view()),
{
    let mut lines: Vec<String> = Vec::new();
    lines.push(String::from_str("Results from other known buckets..."));
    lines.push(String::from_str("(add them using 'scoop bucket add <name>')"));
    lines.push(String::new());
    assert(lines.deep_view() =~= remote_header());
    let more = display_buckets(buckets);
    let ghost before = lines.deep_view();
    let mut j: usize = 0;
    while j < more.len()
        invariant
            j <= more@.len(),
            lines.deep_view() =~= before + more.deep_view().subrange(0, j as int),
        decreases more.len() - j,
    {
        let ghost mid = lines.deep_view();
        let line = more[j].clone();
        lines.push(line);
        assert(lines.deep_view() =~= mid.push(more.deep_view()[j as int]));
        assert(more.deep_view().subrange(0, j + 1) =~= more.deep_view().subrange(0, j as int).push(
            more.deep_view()[j as int],
        ));
        j = j + 1;
    }
    assert(more.deep_view().subrange(0, more@.len() as int) =~= more.deep_view());
    lines
}

/// The names of the local buckets.
fn local_names(bs: &Vec<LocalBucket>) -> (r: Vec<String>)
    ensures
        r.deep_view() == bs.deep_view().map_values(|b: LocalBucketView| bucket_name(b.path)),
{
    let ghost want = bs.deep_view().map_values(|b: LocalBucketView| bucket_name(b.path));
    let mut names: Vec<String> = Vec::new();
    let mut i: usize = 0;
    while i < bs.len()
        invariant
            i <= bs@.len(),
            want == bs.deep_view().map_values(|b: LocalBucketView| bucket_name(b.path)),
            names.deep_view() =~= want.subrange(0, i as int),
        decreases bs.len() - i,
    {
        let name = bucket_name_of(bs[i].path.as_str());
        let ghost before = names.deep_view();
        names.push(name);
        assert(names.deep_view() =~= before.push(want[i as int]));
        i = i + 1;
    }
    assert(names.deep_view() =~= want);
    names
}

/// One step of a search, as `step` says: from where it stands and what the
/// outside world answered, where it goes and what it asks next.
pub fn run(args: &Args, phase: &Phase, event: &Event) -> (r: (Phase, Action))
    ensures
        (r.0.deep_view(), r.1.deep_view()) == step(
            args.query@,
            args.exclude_bin,
            phase.deep_view(),
            event.deep_view(),
        ),
{
    match (phase, event) {
        (Phase::Listing, Event::Listed(bs)) => {
            let found = if args.exclude_bin {
                Bucket::search_exclude_bin(bs, args.query.as_str())
            } else {
                Bucket::search_local_buckets(bs, args.query.as_str())
            };
            match found {
                Some(buckets) => (Phase::Done, Action::Print(display_buckets(&buckets))),
                None => (Phase::Resolving(local_names(bs)), Action::ReadRegistry),
            }
        },
        (Phase::Resolving(local), Event::RegistryRead(text)) => {
            let targets: Vec<(String, String)> = match text {
                Some(t) => match Bucket::get_remote_names_urls(t.as_str(), local) {
                    Some(ts) => ts,
                    None => Vec::new(),
                },
                None => Vec::new(),
            };
            assert(targets.deep_view() =~= targets_of(text.deep_view(), local.deep_view()));
            if targets.len() == 0 {
                return (Phase::Done, Action::Print(no_match()));
            }
            let ghost ts = targets.deep_view();
            let mut names: Vec<String> = Vec::new();
            let mut urls: Vec<String> = Vec::new();
            let mut i: usize = 0;
            while i < targets.len()
                invariant
                    i <= targets@.len(),
                    ts == targets.deep_view(),
                    names.deep_view() =~= ts.map_values(|t: (Seq<char>, Seq<char>)| t.0).subrange(
                        0,
                        i as int,
                    ),
                    urls.deep_view() =~= ts.map_values(|t: (Seq<char>, Seq<char>)| t.1).subrange(
                        0,
                        i as int,
                    ),
                decreases targets.len() - i,
            {
                let ghost n0 = names.deep_view();
                let ghost u0 = urls.deep_view();
                names.push(targets[i].0.clone());
                urls.push(targets[i].1.clone());
                assert(names.deep_view() =~= n0.push(ts[i as int].0));
                assert(urls.deep_view() =~= u0.push(ts[i as int].1));
                i = i + 1;
            }
            assert(names.deep_view() =~= ts.map_values(|t: (Seq<char>, Seq<char>)| t.0));
            assert(urls.deep_view() =~= ts.map_values(|t: (Seq<char>, Seq<char>)| t.1));
            (Phase::Fetching(names), Action::Fetch(urls))
        },
        (Phase::Fetching(names), Event::Fetched(bodies)) => {
            let ghost want = pair_bodies(names.deep_view(), bodies.deep_view());
            let mut fetched: Vec<(String, Option<String>)> = Vec::new();
            let mut i: usize = 0;
            while i < names.len()
                invariant
                    i <= names@.len(),
                    want == pair_bodies(names.deep_view(), bodies.deep_view()),
                    fetched.deep_view() =~= want.subrange(0, i as int),
                decreases names.len() - i,
            {
                let body: Option<String> = if i < bodies.len() {
                    match &bodies[i] {
                        Some(b) => Some(b.clone()),
                        None => None,
                    }
                } else {
                    None
                };
                let ghost before = fetched.deep_view();
                fetched.push((names[i].clone(), body));
                assert(fetched.deep_view() =~= before.push(want[i as int]));
                i = i + 1;
            }
            assert(fetched.deep_view() =~= want);
            match Bucket::search_remote_buckets(&fetched, args.query.as_str()) {
                Some(buckets) => (Phase::Done, Action::Print(remote_report(&buckets))),
                None => (Phase::Done, Action::Print(no_match())),
            }
        },
        _ => {
            let none: Vec<String> = Vec::new();
            assert(none.deep_view() =~= Seq::<Seq<char>>::empty());
            (Phase::Done, Action::Print(none))
        },
    }
}

} // verus!
