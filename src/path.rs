//! Paths as the library reads them: components are separated by `/` or `\`.
use vstd::prelude::*;

verus! {

pub open spec fn is_sep(c: char) -> bool {
    c == '/' || c == '\\'
}

/// The last character of the path is a separator, or a `.` that makes a
/// component of its own: the standard library's path components drop both.
pub open spec fn droppable(p: Seq<char>) -> bool {
    p.len() > 0 && (is_sep(p.last()) || (p.last() == '.' && (p.len() == 1 || is_sep(
        p[p.len() - 2],
    ))))
}

/// The path without the separators and `.` components at its end.
pub open spec fn trimmed(p: Seq<char>) -> Seq<char>
    decreases p.len(),
{
    if droppable(p) {
        trimmed(p.drop_last())
    } else {
        p
    }
}

/// Position of the last separator, or -1 where there is none.
pub open spec fn last_sep(p: Seq<char>) -> int
    decreases p.len(),
{
    if p.len() == 0 {
        -1
    } else if is_sep(p.last()) {
        p.len() - 1
    } else {
        last_sep(p.drop_last())
    }
}

/// Position of the last `.`, or -1 where there is none.
pub open spec fn last_dot(p: Seq<char>) -> int
    decreases p.len(),
{
    if p.len() == 0 {
        -1
    } else if p.last() == '.' {
        p.len() - 1
    } else {
        last_dot(p.drop_last())
    }
}

/// The last component of a path, after separators and `.` components at its
/// end are dropped; empty where nothing is left.
pub open spec fn last_component(p: Seq<char>) -> Seq<char> {
    let t = trimmed(p);
    t.subrange(last_sep(t) + 1, t.len() as int)
}

/// The file name of a path: its last component, where that is neither
/// missing nor `..`.
pub open spec fn file_name(p: Seq<char>) -> Option<Seq<char>> {
    let c = last_component(p);
    if c.len() == 0 || c == seq!['.', '.'] {
        None
    } else {
        Some(c)
    }
}

/// The text of an optional name, or empty.
pub open spec fn name_or_empty(n: Option<Seq<char>>) -> Seq<char> {
    match n {
        Some(s) => s,
        None => Seq::empty(),
    }
}

/// The path without its last component.
pub open spec fn parent_path(p: Seq<char>) -> Seq<char> {
    let t = trimmed(p);
    if last_sep(t) < 0 {
        Seq::empty()
    } else {
        trimmed(t.subrange(0, last_sep(t)))
    }
}

/// A file name without its extension. A dot that starts the name opens no
/// extension.
pub open spec fn stem(name: Seq<char>) -> Seq<char> {
    if last_dot(name) <= 0 {
        name
    } else {
        name.subrange(0, last_dot(name))
    }
}

/// The file name of a path without its extension, where it has a file name.
pub open spec fn file_stem(p: Seq<char>) -> Option<Seq<char>> {
    match file_name(p) {
        Some(n) => Some(stem(n)),
        None => None,
    }
}

proof fn lemma_last_sep_prefix(p: Seq<char>, i: int)
    requires
        0 <= i <= p.len(),
        forall|k: int| i <= k < p.len() ==> !is_sep(p[k]),
    ensures
        last_sep(p) == last_sep(p.subrange(0, i)),
    decreases p.len() - i,
{
    if i < p.len() {
        lemma_last_sep_prefix(p.drop_last(), i);
        assert(p.drop_last().subrange(0, i) =~= p.subrange(0, i));
    } else {
        assert(p.subrange(0, i) =~= p);
    }
}

proof fn lemma_last_dot_prefix(p: Seq<char>, i: int)
    requires
        0 <= i <= p.len(),
        forall|k: int| i <= k < p.len() ==> p[k] != '.',
    ensures
        last_dot(p) == last_dot(p.subrange(0, i)),
    decreases p.len() - i,
{
    if i < p.len() {
        lemma_last_dot_prefix(p.drop_last(), i);
        assert(p.drop_last().subrange(0, i) =~= p.subrange(0, i));
    } else {
        assert(p.subrange(0, i) =~= p);
    }
}

/// Whether the last character of the first `i` is droppable.
fn droppable_at(p: &str, i: usize) -> (r: bool)
    requires
        i <= p@.len(),
    ensures
        r == droppable(p@.subrange(0, i as int)),
{
    if i == 0 {
        return false;
    }
    let c = p.get_char(i - 1);
    if c == '/' || c == '\\' {
        return true;
    }
    c == '.' && (i == 1 || p.get_char(i - 2) == '/' || p.get_char(i - 2) == '\\')
}

/// Length of the path without the separators and `.` components at its end.
fn trimmed_len(p: &str, len: usize) -> (r: usize)
    requires
        len == p@.len(),
    ensures
        r <= len,
        trimmed(p@) == p@.subrange(0, r as int),
{
    let mut i: usize = len;
    assert(p@.subrange(0, len as int) =~= p@);
    while droppable_at(p, i)
        invariant
            len == p@.len(),
            i <= len,
            trimmed(p@) == trimmed(p@.subrange(0, i as int)),
        decreases i,
    {
        assert(p@.subrange(0, i as int).drop_last() =~= p@.subrange(0, i - 1));
        i = i - 1;
    }
    i
}

/// One past the last separator before `end`, or 0 where there is none.
fn component_start(p: &str, end: usize) -> (r: usize)
    requires
        end <= p@.len(),
    ensures
        r as int == last_sep(p@.subrange(0, end as int)) + 1,
        r <= end,
{
    let mut i: usize = end;
    while i > 0 && !(p.get_char(i - 1) == '/' || p.get_char(i - 1) == '\\')
        invariant
            end <= p@.len(),
            i <= end,
            forall|k: int| i <= k < end ==> !is_sep(p@[k]),
        decreases i,
    {
        i = i - 1;
    }
    proof {
        let q = p@.subrange(0, end as int);
        lemma_last_sep_prefix(q, i as int);
        assert(q.subrange(0, i as int) =~= p@.subrange(0, i as int));
    }
    i
}

/// Position of the last `.` before `end`, or `end` where there is none.
fn dot_position(p: &str, end: usize) -> (r: usize)
    requires
        end <= p@.len(),
    ensures
        r <= end,
        last_dot(p@.subrange(0, end as int)) < 0 ==> r == end,
        last_dot(p@.subrange(0, end as int)) >= 0 ==> r as int == last_dot(
            p@.subrange(0, end as int),
        ),
{
    let mut i: usize = end;
    while i > 0 && p.get_char(i - 1) != '.'
        invariant
            end <= p@.len(),
            i <= end,
            forall|k: int| i <= k < end ==> p@[k] != '.',
        decreases i,
    {
        i = i - 1;
    }
    proof {
        let q = p@.subrange(0, end as int);
        lemma_last_dot_prefix(q, i as int);
        assert(q.subrange(0, i as int) =~= p@.subrange(0, i as int));
    }
    if i == 0 {
        end
    } else {
        i - 1
    }
}

/// The last component of a path, after separators and `.` components at its
/// end are dropped.
fn last_component_of(p: &str) -> (r: String)
    ensures
        r@ == last_component(p@),
{
    let len = p.unicode_len();
    let t = trimmed_len(p, len);
    let s = component_start(p, t);
    proof {
        assert(p@.subrange(0, t as int).subrange(s as int, t as int) =~= p@.subrange(
            s as int,
            t as int,
        ));
    }
    p.substring_char(s, t).to_owned()
}

/// The file name of a path, where it has one.
pub fn file_name_of(p: &str) -> (r: Option<String>)
    ensures
        r.deep_view() == file_name(p@),
{
    let c = last_component_of(p);
    let n = c.as_str().unicode_len();
    if n == 0 {
        return None;
    }
    if n == 2 && c.as_str().get_char(0) == '.' && c.as_str().get_char(1) == '.' {
        assert(c@ =~= seq!['.', '.']);
        return None;
    }
    assert(c@ != seq!['.', '.']) by {
        if c@ == seq!['.', '.'] {
            assert(c@[0] == '.' && c@[1] == '.');
        }
    }
    Some(c)
}

/// The path without its last component.
pub fn parent_path_of(p: &str) -> (r: String)
    ensures
        r@ == parent_path(p@),
{
    let len = p.unicode_len();
    let t = trimmed_len(p, len);
    let s = component_start(p, t);
    if s == 0 {
        return String::new();
    }
    let q = p.substring_char(0, s - 1);
    proof {
        assert(p@.subrange(0, t as int).subrange(0, s - 1) =~= q@);
    }
    let u = trimmed_len(q, s - 1);
    q.substring_char(0, u).to_owned()
}

/// The file name of a path without its extension, where it has a file name.
pub fn file_stem_of(p: &str) -> (r: Option<String>)
    ensures
        r.deep_view() == file_stem(p@),
{
    let name = match file_name_of(p) {
        Some(name) => name,
        None => {
            return None;
        },
    };
    let n = name.as_str().unicode_len();
    let d = dot_position(name.as_str(), n);
    proof {
        assert(name@.subrange(0, n as int) =~= name@);
    }
    if d == 0 || d == n {
        Some(name)
    } else {
        Some(name.as_str().substring_char(0, d).to_owned())
    }
}

} // verus!
