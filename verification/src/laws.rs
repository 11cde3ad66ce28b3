//! What holds of every run of the aggregator.

use crate::aggregate::{
    aggregate, block, content_of, document_of, first_failure, is_excluded, judge, names_of,
    FileEntry, FileObservation, Outcome,
};
use crate::display::{CombineFailure, PathDisplayMode};
use crate::text::occurs_at;
use vstd::prelude::*;

verus! {

/// A candidate survives where no exclusion pattern occurs in its path and its
/// content was read.
pub open spec fn survives(entry: FileEntry, patterns: Seq<Seq<char>>) -> bool {
    &&& !is_excluded(entry.path@, patterns)
    &&& entry.observation matches Some(FileObservation::Readable { content, canonical })
}

/// The name under which a candidate is in the document; empty for one that is
/// not in it.
pub open spec fn shown_name(
    mode: PathDisplayMode,
    entry: FileEntry,
    patterns: Seq<Seq<char>>,
    current_dir: Seq<char>,
    home: Option<Seq<char>>,
) -> Seq<char> {
    match judge(mode, entry, patterns, current_dir, home) {
        Ok(Outcome::Included { name }) => name,
        _ => Seq::empty(),
    }
}

/// The survivors among `entries`, in the order of `entries`.
pub open spec fn survivors(entries: Seq<FileEntry>, patterns: Seq<Seq<char>>) -> Seq<FileEntry> {
    entries.filter(|entry: FileEntry| survives(entry, patterns))
}

/// The names of the survivors, in the order of `entries`.
pub open spec fn survivor_names(
    mode: PathDisplayMode,
    entries: Seq<FileEntry>,
    patterns: Seq<Seq<char>>,
    current_dir: Seq<char>,
    home: Option<Seq<char>>,
) -> Seq<Seq<char>> {
    survivors(entries, patterns).map_values(
        |entry: FileEntry| shown_name(mode, entry, patterns, current_dir, home),
    )
}

/// The blocks of the survivors, in the order of `entries`.
pub open spec fn survivor_blocks(
    mode: PathDisplayMode,
    entries: Seq<FileEntry>,
    patterns: Seq<Seq<char>>,
    current_dir: Seq<char>,
    home: Option<Seq<char>>,
) -> Seq<Seq<char>> {
    survivors(entries, patterns).map_values(
        |entry: FileEntry|
            block(shown_name(mode, entry, patterns, current_dir, home), content_of(entry)),
    )
}

/// The outcomes of the first `count` candidates, where each of them has one.
pub open spec fn outcomes_of(
    mode: PathDisplayMode,
    entries: Seq<FileEntry>,
    patterns: Seq<Seq<char>>,
    current_dir: Seq<char>,
    home: Option<Seq<char>>,
    count: int,
) -> Seq<Outcome> {
    Seq::new(count as nat, |i: int| judge(mode, entries[i], patterns, current_dir, home)->Ok_0)
}

proof fn lemma_reaches_the_end(
    mode: PathDisplayMode,
    entries: Seq<FileEntry>,
    patterns: Seq<Seq<char>>,
    current_dir: Seq<char>,
    home: Option<Seq<char>>,
    from: int,
)
    requires
        0 <= from <= entries.len(),
        forall|i: int|
            from <= i < entries.len() ==> judge(
                mode,
                #[trigger] entries[i],
                patterns,
                current_dir,
                home,
            ) is Ok,
    ensures
        first_failure(mode, entries, patterns, current_dir, home, from) == entries.len(),
    decreases entries.len() - from,
{
    if from < entries.len() {
        lemma_reaches_the_end(mode, entries, patterns, current_dir, home, from + 1);
    }
}

proof fn lemma_prefix_in_order(
    mode: PathDisplayMode,
    entries: Seq<FileEntry>,
    patterns: Seq<Seq<char>>,
    current_dir: Seq<char>,
    home: Option<Seq<char>>,
    count: int,
)
    requires
        0 <= count <= entries.len(),
        forall|i: int|
            0 <= i < count ==> judge(
                mode,
                #[trigger] entries[i],
                patterns,
                current_dir,
                home,
            ) is Ok,
    ensures
        names_of(outcomes_of(mode, entries, patterns, current_dir, home, count))
            == survivor_names(mode, entries.take(count), patterns, current_dir, home),
        document_of(entries, outcomes_of(mode, entries, patterns, current_dir, home, count))
            == survivor_blocks(mode, entries.take(count), patterns, current_dir, home).flatten(),
    decreases count,
{
    let test = |entry: FileEntry| survives(entry, patterns);
    let outcomes = outcomes_of(mode, entries, patterns, current_dir, home, count);
    if count == 0 {
        reveal(Seq::filter);
        assert(entries.take(0).filter(test) =~= Seq::<FileEntry>::empty());
        assert(survivor_names(mode, entries.take(0), patterns, current_dir, home)
            =~= Seq::<Seq<char>>::empty());
        assert(survivor_blocks(mode, entries.take(0), patterns, current_dir, home)
            =~= Seq::<Seq<char>>::empty());
    } else {
        lemma_prefix_in_order(mode, entries, patterns, current_dir, home, count - 1);
        let entry = entries[count - 1];
        let before = entries.take(count - 1);
        assert(entries.take(count) =~= before.push(entry));
        assert(outcomes.drop_last() =~= outcomes_of(
            mode,
            entries,
            patterns,
            current_dir,
            home,
            count - 1,
        ));
        before.lemma_filter_push(entry, test);
        let kept = before.filter(test);
        let names = survivor_names(mode, before, patterns, current_dir, home);
        let blocks = survivor_blocks(mode, before, patterns, current_dir, home);
        if survives(entry, patterns) {
            let name = shown_name(mode, entry, patterns, current_dir, home);
            assert(outcomes.last() == Outcome::Included { name });
            assert(survivor_names(mode, entries.take(count), patterns, current_dir, home)
                =~= names.push(name));
            assert(survivor_blocks(mode, entries.take(count), patterns, current_dir, home)
                =~= blocks.push(block(name, content_of(entry))));
            blocks.lemma_flatten_push(block(name, content_of(entry)));
        } else {
            assert(!(outcomes.last() is Included));
        }
    }
}

/// Each surviving file has exactly one block, and the blocks stand in the
/// order in which the candidates were given.
///
/// Where at least one candidate survives and the name of every survivor can
/// be resolved, the run reaches every candidate and succeeds. The names it
/// gives are those of the survivors, and the document is their blocks one
/// after another, both in the candidates' order.
pub proof fn lemma_one_block_per_survivor(
    mode: PathDisplayMode,
    entries: Seq<FileEntry>,
    patterns: Seq<Seq<char>>,
    current_dir: Seq<char>,
    home: Option<Seq<char>>,
)
    requires
        exists|i: int| 0 <= i < entries.len() && survives(#[trigger] entries[i], patterns),
        forall|i: int|
            0 <= i < entries.len() ==> judge(
                mode,
                #[trigger] entries[i],
                patterns,
                current_dir,
                home,
            ) is Ok,
    ensures
        aggregate(mode, entries, patterns, current_dir, home).outcomes.len() == entries.len(),
        aggregate(mode, entries, patterns, current_dir, home).result == Ok::<
            (Seq<char>, Seq<Seq<char>>),
            CombineFailure,
        >(
            (
                survivor_blocks(mode, entries, patterns, current_dir, home).flatten(),
                survivor_names(mode, entries, patterns, current_dir, home),
            ),
        ),
        survivor_names(mode, entries, patterns, current_dir, home).len() == survivors(
            entries,
            patterns,
        ).len(),
        survivor_blocks(mode, entries, patterns, current_dir, home).len() == survivors(
            entries,
            patterns,
        ).len(),
        survivors(entries, patterns).len() > 0,
{
    let test = |entry: FileEntry| survives(entry, patterns);
    lemma_reaches_the_end(mode, entries, patterns, current_dir, home, 0);
    lemma_prefix_in_order(mode, entries, patterns, current_dir, home, entries.len() as int);
    assert(entries.take(entries.len() as int) =~= entries);
    let i = choose|i: int| 0 <= i < entries.len() && survives(#[trigger] entries[i], patterns);
    assert(test(entries[i]));
    entries.lemma_filter_contains(test, i);
    assert(survivors(entries, patterns).len() > 0);
}

/// Where no candidate survives, there is no document: the run reaches every
/// candidate and fails for want of a valid file.
pub proof fn lemma_no_survivor_no_document(
    mode: PathDisplayMode,
    entries: Seq<FileEntry>,
    patterns: Seq<Seq<char>>,
    current_dir: Seq<char>,
    home: Option<Seq<char>>,
)
    requires
        forall|i: int| 0 <= i < entries.len() ==> !survives(#[trigger] entries[i], patterns),
    ensures
        aggregate(mode, entries, patterns, current_dir, home).outcomes.len() == entries.len(),
        aggregate(mode, entries, patterns, current_dir, home).result == Err::<
            (Seq<char>, Seq<Seq<char>>),
            CombineFailure,
        >(CombineFailure::NoValidFiles),
{
    let test = |entry: FileEntry| survives(entry, patterns);
    assert forall|i: int| 0 <= i < entries.len() implies judge(
        mode,
        #[trigger] entries[i],
        patterns,
        current_dir,
        home,
    ) is Ok by {
        assert(!survives(entries[i], patterns));
    }
    lemma_reaches_the_end(mode, entries, patterns, current_dir, home, 0);
    lemma_prefix_in_order(mode, entries, patterns, current_dir, home, entries.len() as int);
    assert(entries.take(entries.len() as int) =~= entries);
    assert forall|i: int| 0 <= i < entries.len() implies !test(#[trigger] entries[i]) by {
        assert(!survives(entries[i], patterns));
    }
    entries.lemma_all_neg_filter_empty(test);
    assert(survivors(entries, patterns).len() == 0);
}

/// Exclusion goes by substrings: a path in which one of the patterns stands
/// anywhere, with anything before and after it, is excluded.
pub proof fn lemma_pattern_anywhere_excludes(
    before: Seq<char>,
    after: Seq<char>,
    patterns: Seq<Seq<char>>,
    which: int,
)
    requires
        0 <= which < patterns.len(),
    ensures
        is_excluded(before + patterns[which] + after, patterns),
{
    let path = before + patterns[which] + after;
    assert(path.subrange(
        before.len() as int,
        (before.len() + patterns[which].len()) as int,
    ) =~= patterns[which]);
    assert(occurs_at(path, patterns[which], before.len() as int));
}

/// A path that is excluded is not in the document, whatever was found at it.
pub proof fn lemma_excluded_is_never_included(
    mode: PathDisplayMode,
    entry: FileEntry,
    patterns: Seq<Seq<char>>,
    current_dir: Seq<char>,
    home: Option<Seq<char>>,
)
    requires
        is_excluded(entry.path@, patterns),
    ensures
        judge(mode, entry, patterns, current_dir, home) == Ok::<Outcome, CombineFailure>(
            Outcome::Excluded,
        ),
        !survives(entry, patterns),
{
}

} // verus!
