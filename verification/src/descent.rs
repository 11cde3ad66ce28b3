//! What the relative and the full display show for a file below a directory.

use crate::display::{full_name, relative_name, CombineFailure};
use crate::paths::{
    components, remainder, scan_components, segment_component, span_text, starts_with,
    strip_prefix, Span,
};
use vstd::prelude::*;

verus! {

/// A path that leads down from a directory: it neither begins nor ends with
/// a separator, and neither its first nor its last segment is `.`.
pub open spec fn is_descent(rest: Seq<char>) -> bool {
    &&& rest.len() > 0
    &&& rest.first() != '/'
    &&& rest.last() != '/'
    &&& !(rest.first() == '.' && (rest.len() == 1 || rest[1] == '/'))
    &&& !(rest.last() == '.' && (rest.len() == 1 || rest[rest.len() - 2] == '/'))
}

/// `base`, a separator, and `rest`.
pub open spec fn join(base: Seq<char>, rest: Seq<char>) -> Seq<char> {
    base + seq!['/'] + rest
}

/// A span lies in a path of `len` characters, at `from` or later.
pub open spec fn span_between(span: Span, from: int, len: int) -> bool {
    from <= span.0 <= span.1 <= len
}

proof fn lemma_scan_bounds(path: Seq<char>, start: int, at: int)
    requires
        0 <= start <= at <= path.len(),
    ensures
        forall|i: int|
            0 <= i < scan_components(path, start, at).len() ==> span_between(
                #[trigger] scan_components(path, start, at)[i],
                start,
                path.len() as int,
            ),
    decreases path.len() - at,
{
    let list = scan_components(path, start, at);
    if at >= path.len() {
        assert forall|i: int| 0 <= i < list.len() implies span_between(
            #[trigger] list[i],
            start,
            path.len() as int,
        ) by {
            assert(list[i] == (start, at));
        }
    } else if path[at] == '/' {
        lemma_scan_bounds(path, at + 1, at + 1);
        let head = segment_component(path, start, at);
        let tail = scan_components(path, at + 1, at + 1);
        assert(list == head + tail);
        assert forall|i: int| 0 <= i < list.len() implies span_between(
            #[trigger] list[i],
            start,
            path.len() as int,
        ) by {
            if i >= head.len() {
                assert(list[i] == tail[i - head.len()]);
                assert(span_between(tail[i - head.len()], at + 1, path.len() as int));
            } else {
                assert(list[i] == head[i]);
                assert(head[i] == (start, at));
            }
        }
    } else {
        lemma_scan_bounds(path, start, at + 1);
        assert(list == scan_components(path, start, at + 1));
    }
}

proof fn lemma_component_bounds(path: Seq<char>)
    ensures
        forall|i: int|
            0 <= i < components(path).len() ==> span_between(
                #[trigger] components(path)[i],
                0,
                path.len() as int,
            ),
{
    let list = components(path);
    if path.len() > 0 && path[0] == '/' {
        lemma_scan_bounds(path, 1, 1);
        let tail = scan_components(path, 1, 1);
        assert forall|i: int| 0 <= i < list.len() implies span_between(
            #[trigger] list[i],
            0,
            path.len() as int,
        ) by {
            if i >= 1 {
                assert(list[i] == tail[i - 1]);
            }
        }
    } else {
        lemma_scan_bounds(path, 0, 0);
    }
}

proof fn lemma_scan_through_base(base: Seq<char>, rest: Seq<char>, start: int, at: int)
    requires
        0 <= start <= at <= base.len(),
    ensures
        scan_components(join(base, rest), start, at) == scan_components(base, start, at)
            + scan_components(
            join(base, rest),
            (base.len() + 1) as int,
            (base.len() + 1) as int,
        ),
    decreases base.len() - at,
{
    let whole = join(base, rest);
    let after = scan_components(whole, (base.len() + 1) as int, (base.len() + 1) as int);
    assert(whole.subrange(start, at) =~= base.subrange(start, at));
    assert(segment_component(whole, start, at) == segment_component(base, start, at));
    if at == base.len() {
        assert(whole[at] == '/');
    } else {
        assert(whole[at] == base[at]);
        if base[at] == '/' {
            lemma_scan_through_base(base, rest, at + 1, at + 1);
            assert(scan_components(whole, start, at) =~= scan_components(base, start, at)
                + after);
        } else {
            lemma_scan_through_base(base, rest, start, at + 1);
        }
    }
}

proof fn lemma_scan_begins(path: Seq<char>, start: int, at: int)
    requires
        0 < start <= at <= path.len(),
        start < path.len(),
        path[start] != '/',
        !(path[start] == '.' && (start + 1 == path.len() || path[start + 1] == '/')),
        forall|j: int| start <= j < at ==> path[j] != '/',
    ensures
        scan_components(path, start, at).len() > 0,
        scan_components(path, start, at)[0].0 == start,
    decreases path.len() - at,
{
    if at >= path.len() || path[at] == '/' {
        let segment = path.subrange(start, at);
        if segment == seq!['.'] {
            assert(segment.len() == 1);
            assert(segment[0] == '.');
        }
        assert(segment_component(path, start, at) == seq![(start, at)]);
    } else {
        lemma_scan_begins(path, start, at + 1);
    }
}

proof fn lemma_scan_ends(path: Seq<char>, start: int, at: int)
    requires
        0 < start <= at <= path.len(),
        path[start - 1] == '/',
        path.last() != '/',
        !(path.last() == '.' && path.len() >= 2 && path[path.len() - 2] == '/'),
        forall|j: int| start <= j < at ==> path[j] != '/',
    ensures
        scan_components(path, start, at).len() > 0,
        scan_components(path, start, at).last().1 == path.len(),
    decreases path.len() - at,
{
    if at >= path.len() {
        let segment = path.subrange(start, at);
        if segment == seq!['.'] {
            assert(segment.len() == 1);
            assert(segment[0] == '.');
        }
        assert(segment_component(path, start, at) == seq![(start, at)]);
    } else if path[at] == '/' {
        lemma_scan_ends(path, at + 1, at + 1);
    } else {
        lemma_scan_ends(path, start, at + 1);
    }
}

/// A path that was made by joining a descent onto a base gives the descent
/// back when the base is stripped from it.
pub proof fn lemma_strip_prefix_of_join(base: Seq<char>, rest: Seq<char>)
    requires
        base.len() > 0,
        is_descent(rest),
    ensures
        strip_prefix(join(base, rest), base) == Some(rest),
{
    let whole = join(base, rest);
    let len = base.len() as int;
    let of_base = components(base);
    let of_whole = components(whole);
    let after = scan_components(whole, len + 1, len + 1);
    assert(whole[0] == base[0]);
    assert(whole[len] == '/');
    assert forall|j: int| 0 <= j < rest.len() implies whole[len + 1 + j] == rest[j] by {}
    assert(whole.last() == rest.last());
    if rest.len() >= 2 {
        assert(whole[whole.len() - 2] == rest[rest.len() - 2]);
        assert(whole[len + 2] == rest[1]);
    }
    assert(whole[len + 1] == rest[0]);
    if base[0] == '/' {
        lemma_scan_through_base(base, rest, 1, 1);
        assert(of_whole =~= of_base + after);
    } else {
        lemma_scan_through_base(base, rest, 0, 0);
        assert(of_whole =~= of_base + after);
    }
    lemma_scan_begins(whole, len + 1, len + 1);
    lemma_scan_ends(whole, len + 1, len + 1);
    lemma_component_bounds(base);
    assert forall|i: int| 0 <= i < of_base.len() implies span_text(whole, #[trigger] of_whole[i])
        == span_text(base, of_base[i]) by {
        assert(of_whole[i] == of_base[i]);
        assert(span_between(of_base[i], 0, len));
        assert(whole.subrange(of_base[i].0, of_base[i].1) =~= base.subrange(
            of_base[i].0,
            of_base[i].1,
        ));
    }
    assert(starts_with(whole, base));
    assert(of_whole[of_base.len() as int] == after[0]);
    assert(of_whole.last() == after.last());
    assert(whole.subrange(len + 1, whole.len() as int) =~= rest);
    assert(remainder(whole, of_base.len() as int) == rest);
}

/// A path directly under the root gives the descent back when the root is
/// stripped from it.
pub proof fn lemma_strip_prefix_of_root(rest: Seq<char>)
    requires
        is_descent(rest),
    ensures
        strip_prefix(seq!['/'] + rest, seq!['/']) == Some(rest),
{
    let root = seq!['/'];
    let whole = root + rest;
    let after = scan_components(whole, 1, 1);
    assert(components(root) =~= seq![(0int, 1int)]);
    assert(whole[0] == '/');
    assert forall|j: int| 0 <= j < rest.len() implies whole[1 + j] == rest[j] by {}
    assert(whole.last() == rest.last());
    assert(whole[1] == rest[0]);
    if rest.len() >= 2 {
        assert(whole[whole.len() - 2] == rest[rest.len() - 2]);
        assert(whole[2] == rest[1]);
    }
    lemma_scan_begins(whole, 1, 1);
    lemma_scan_ends(whole, 1, 1);
    assert(components(whole) =~= seq![(0int, 1int)] + after);
    assert(whole.subrange(0, 1) =~= root.subrange(0, 1));
    assert(starts_with(whole, root));
    assert(components(whole)[1] == after[0]);
    assert(components(whole).last() == after.last());
    assert(whole.subrange(1, whole.len() as int) =~= rest);
}

/// In relative display a file below the working directory is shown by the
/// path that leads from the working directory down to it.
pub proof fn lemma_relative_name_below_working_directory(
    current_dir: Seq<char>,
    filename: Seq<char>,
    rest: Seq<char>,
)
    requires
        current_dir.len() > 0,
        is_descent(rest),
    ensures
        relative_name(current_dir, filename, Ok(join(current_dir, rest))) == Ok::<
            Seq<char>,
            CombineFailure,
        >(rest),
{
    lemma_strip_prefix_of_join(current_dir, rest);
}

/// In full display a file below the home directory is shown by `~/` and the
/// path that leads from the home directory down to it.
pub proof fn lemma_full_name_below_home(filename: Seq<char>, home: Seq<char>, rest: Seq<char>)
    requires
        home.len() > 0,
        is_descent(rest),
    ensures
        full_name(filename, Ok(join(home, rest)), Some(home)) == Ok::<Seq<char>, CombineFailure>(
            "~/"@ + rest,
        ),
{
    lemma_strip_prefix_of_join(home, rest);
}

/// In full display a file that does not lie under the home directory is
/// shown by its absolute path.
pub proof fn lemma_full_name_outside_home(filename: Seq<char>, path: Seq<char>, home: Seq<char>)
    requires
        !starts_with(path, home),
    ensures
        full_name(filename, Ok(path), Some(home)) == Ok::<Seq<char>, CombineFailure>(path),
{
}

} // verus!
