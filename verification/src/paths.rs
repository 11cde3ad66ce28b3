//! Paths as text, with `/` as the separator, taken apart into components as
//! the standard library does on Unix: repeated separators and `.` segments
//! inside a path do not count, and prefixes are compared component by
//! component.

use crate::text::to_chars;
use vstd::prelude::*;
use vstd::string::*;

verus! {

/// The half-open range of positions that one component occupies in a path.
pub type Span = (int, int);

/// The characters of `path` that `span` covers.
pub open spec fn span_text(path: Seq<char>, span: Span) -> Seq<char> {
    path.subrange(span.0, span.1)
}

/// The component, if any, that the segment `start..end` of `path` contributes.
///
/// An empty segment (two separators in a row, or a trailing one) contributes
/// nothing, and neither does a segment `.` unless the path begins with it.
pub open spec fn segment_component(path: Seq<char>, start: int, end: int) -> Seq<Span> {
    if start >= end {
        Seq::empty()
    } else if start != 0 && path.subrange(start, end) == seq!['.'] {
        Seq::empty()
    } else {
        seq![(start, end)]
    }
}

/// The components found from position `at` on, where the segment being read
/// began at `start`.
pub open spec fn scan_components(path: Seq<char>, start: int, at: int) -> Seq<Span>
    decreases path.len() - at,
{
    if at >= path.len() {
        segment_component(path, start, at)
    } else if path[at] == '/' {
        segment_component(path, start, at) + scan_components(path, at + 1, at + 1)
    } else {
        scan_components(path, start, at + 1)
    }
}

/// The components of a path whose separator is `/`: the root if the path
/// begins with a separator, then every segment between separators that is
/// neither empty nor a `.` inside the path.
pub open spec fn components(path: Seq<char>) -> Seq<Span> {
    if path.len() > 0 && path[0] == '/' {
        seq![(0int, 1int)] + scan_components(path, 1, 1)
    } else {
        scan_components(path, 0, 0)
    }
}

/// Whether a component's text names a file or directory: it is not the root,
/// not `.` and not `..`.
pub open spec fn is_normal(name: Seq<char>) -> bool {
    name != seq!['/'] && name != seq!['.'] && name != seq!['.', '.']
}

/// The final component of `path`, if it has one and that one is a name.
pub open spec fn file_name(path: Seq<char>) -> Option<Seq<char>> {
    let list = components(path);
    if list.len() > 0 && is_normal(span_text(path, list.last())) {
        Some(span_text(path, list.last()))
    } else {
        None
    }
}

/// What stands for `path` where only its name is shown: its final component,
/// or the whole path where it has none.
pub open spec fn basename(path: Seq<char>) -> Seq<char> {
    match file_name(path) {
        Some(name) => name,
        None => path,
    }
}

/// Whether the components of `base` are the first components of `path`.
pub open spec fn starts_with(path: Seq<char>, base: Seq<char>) -> bool {
    let of_path = components(path);
    let of_base = components(base);
    &&& of_base.len() <= of_path.len()
    &&& forall|i: int|
        0 <= i < of_base.len() ==> span_text(path, #[trigger] of_path[i]) == span_text(
            base,
            of_base[i],
        )
}

/// The text of `path` from its component number `skipped` to the end of its
/// last component; empty where no component is left.
pub open spec fn remainder(path: Seq<char>, skipped: int) -> Seq<char> {
    let list = components(path);
    if 0 <= skipped < list.len() {
        path.subrange(list[skipped].0, list.last().1)
    } else {
        Seq::empty()
    }
}

/// `path` without the leading components that `base` consists of, or `None`
/// where `base` is not a prefix of `path`, component by component.
pub open spec fn strip_prefix(path: Seq<char>, base: Seq<char>) -> Option<Seq<char>> {
    if starts_with(path, base) {
        Some(remainder(path, components(base).len() as int))
    } else {
        None
    }
}

/// The spans of an executable list, as ranges of mathematical integers.
pub open spec fn spans_of(list: Seq<(usize, usize)>) -> Seq<Span> {
    Seq::new(list.len(), |i: int| (list[i].0 as int, list[i].1 as int))
}

/// Every span is not empty and ends at or before `bound`, and each begins
/// where the one before it has ended, or later.
pub open spec fn spans_within(list: Seq<(usize, usize)>, bound: int) -> bool {
    &&& forall|i: int| 0 <= i < list.len() ==> (#[trigger] list[i]).0 < list[i].1 <= bound
    &&& forall|i: int, j: int|
        0 <= i < j < list.len() ==> (#[trigger] list[i]).1 <= (#[trigger] list[j]).0
}

fn is_dot(path: &Vec<char>, start: usize, end: usize) -> (dot: bool)
    requires
        start <= end <= path.len(),
    ensures
        dot == (path@.subrange(start as int, end as int) == seq!['.']),
{
    if end - start == 1 && path[start] == '.' {
        assert(path@.subrange(start as int, end as int) =~= seq!['.']);
        true
    } else {
        proof {
            let segment = path@.subrange(start as int, end as int);
            if segment == seq!['.'] {
                assert(segment.len() == 1);
                assert(segment[0] == '.');
            }
        }
        false
    }
}

fn push_segment(path: &Vec<char>, list: &mut Vec<(usize, usize)>, start: usize, end: usize)
    requires
        start <= end <= path.len(),
        spans_within(old(list)@, start as int),
    ensures
        spans_of(final(list)@) == spans_of(old(list)@) + segment_component(
            path@,
            start as int,
            end as int,
        ),
        spans_within(final(list)@, end as int),
{
    if start < end && !(start != 0 && is_dot(path, start, end)) {
        list.push((start, end));
        assert(spans_of(list@) =~= spans_of(old(list)@) + seq![(start as int, end as int)]);
    } else {
        assert(spans_of(list@) =~= spans_of(old(list)@) + Seq::<Span>::empty());
    }
}

/// The components of `path`, in order.
pub fn component_spans(path: &Vec<char>) -> (list: Vec<(usize, usize)>)
    ensures
        spans_of(list@) == components(path@),
        spans_within(list@, path.len() as int),
{
    let mut list: Vec<(usize, usize)> = Vec::new();
    let mut start: usize = 0;
    let mut at: usize = 0;
    if path.len() > 0 && path[0] == '/' {
        list.push((0, 1));
        start = 1;
        at = 1;
        assert(spans_of(list@) =~= seq![(0int, 1int)]);
    } else {
        assert(spans_of(list@) =~= Seq::<Span>::empty());
    }
    while at < path.len()
        invariant
            start <= at <= path.len(),
            spans_within(list@, start as int),
            components(path@) == spans_of(list@) + scan_components(
                path@,
                start as int,
                at as int,
            ),
        decreases path.len() - at,
    {
        if path[at] == '/' {
            push_segment(path, &mut list, start, at);
            start = at + 1;
        }
        at += 1;
    }
    push_segment(path, &mut list, start, at);
    list
}

fn span_is_normal(path: &Vec<char>, span: (usize, usize)) -> (normal: bool)
    requires
        span.0 < span.1 <= path.len(),
    ensures
        normal == is_normal(path@.subrange(span.0 as int, span.1 as int)),
{
    let ghost name = path@.subrange(span.0 as int, span.1 as int);
    let len: usize = span.1 - span.0;
    let first: char = path[span.0];
    assert(name[0] == first);
    if len == 1 {
        if first == '/' {
            assert(name =~= seq!['/']);
            false
        } else if first == '.' {
            assert(name =~= seq!['.']);
            false
        } else {
            assert(seq!['/'][0] == '/' && seq!['.'][0] == '.');
            assert(seq!['.', '.'].len() == 2);
            true
        }
    } else if len == 2 {
        let second: char = path[span.0 + 1];
        assert(name[1] == second);
        assert(seq!['/'].len() == 1 && seq!['.'].len() == 1);
        if first == '.' && second == '.' {
            assert(name =~= seq!['.', '.']);
            false
        } else {
            assert(seq!['.', '.'][0] == '.' && seq!['.', '.'][1] == '.');
            true
        }
    } else {
        assert(seq!['/'].len() == 1 && seq!['.'].len() == 1 && seq!['.', '.'].len() == 2);
        true
    }
}

/// The name under which `filename` is shown where only names are: its final
/// component, or all of it where it ends in none (as `..` and `/` do).
pub fn get_file_name(filename: &str) -> (name: String)
    ensures
        name@ == basename(filename@),
{
    let path = to_chars(filename);
    let list = component_spans(&path);
    if list.len() == 0 {
        return filename.to_owned();
    }
    let last = list[list.len() - 1];
    assert(spans_of(list@).last() == (last.0 as int, last.1 as int));
    if span_is_normal(&path, last) {
        filename.substring_char(last.0, last.1).to_owned()
    } else {
        filename.to_owned()
    }
}

fn same_component(
    path: &Vec<char>,
    a: (usize, usize),
    base: &Vec<char>,
    b: (usize, usize),
) -> (same: bool)
    requires
        a.0 <= a.1 <= path.len(),
        b.0 <= b.1 <= base.len(),
    ensures
        same == (path@.subrange(a.0 as int, a.1 as int) == base@.subrange(b.0 as int, b.1 as int)),
{
    let ghost left = path@.subrange(a.0 as int, a.1 as int);
    let ghost right = base@.subrange(b.0 as int, b.1 as int);
    if a.1 - a.0 != b.1 - b.0 {
        assert(left.len() != right.len());
        return false;
    }
    let len: usize = a.1 - a.0;
    let mut k: usize = 0;
    while k < len
        invariant
            k <= len,
            len == a.1 - a.0,
            len == b.1 - b.0,
            a.1 <= path.len(),
            b.1 <= base.len(),
            left == path@.subrange(a.0 as int, a.1 as int),
            right == base@.subrange(b.0 as int, b.1 as int),
            forall|j: int| 0 <= j < k ==> left[j] == right[j],
        decreases len - k,
    {
        if path[a.0 + k] != base[b.0 + k] {
            assert(left[k as int] != right[k as int]);
            return false;
        }
        k += 1;
    }
    assert(left =~= right);
    true
}

/// `path` without the leading components that make up `base`, or `None` where
/// `base` is not a prefix of `path`, component by component.
pub fn strip_path_prefix(path: &str, base: &str) -> (rest: Option<String>)
    ensures
        match rest {
            Some(text) => strip_prefix(path@, base@) == Some(text@),
            None => strip_prefix(path@, base@) is None,
        },
{
    let path_chars = to_chars(path);
    let base_chars = to_chars(base);
    let of_path = component_spans(&path_chars);
    let of_base = component_spans(&base_chars);
    if of_base.len() > of_path.len() {
        return None;
    }
    let mut i: usize = 0;
    while i < of_base.len()
        invariant
            i <= of_base.len() <= of_path.len(),
            spans_of(of_path@) == components(path@),
            spans_of(of_base@) == components(base@),
            path_chars@ == path@,
            base_chars@ == base@,
            spans_within(of_path@, path_chars.len() as int),
            spans_within(of_base@, base_chars.len() as int),
            forall|j: int|
                0 <= j < i ==> span_text(path@, #[trigger] components(path@)[j]) == span_text(
                    base@,
                    components(base@)[j],
                ),
        decreases of_base.len() - i,
    {
        let a = of_path[i];
        let b = of_base[i];
        assert(spans_of(of_path@)[i as int] == (a.0 as int, a.1 as int));
        assert(spans_of(of_base@)[i as int] == (b.0 as int, b.1 as int));
        if !same_component(&path_chars, a, &base_chars, b) {
            assert(!starts_with(path@, base@));
            return None;
        }
        i += 1;
    }
    assert(starts_with(path@, base@));
    if i == of_path.len() {
        assert(remainder(path@, i as int) == Seq::<char>::empty());
        return Some(String::new());
    }
    let first = of_path[i];
    let last = of_path[of_path.len() - 1];
    assert(spans_of(of_path@)[i as int] == (first.0 as int, first.1 as int));
    assert(spans_of(of_path@).last() == (last.0 as int, last.1 as int));
    Some(path.substring_char(first.0, last.1).to_owned())
}

} // verus!
