//! Folding a directory's entry names into the single winning project kind.
//!
//! The scan visits the entries in the order given. A `Makefile` entry is
//! terminal: it sets the result and stops the scan. A `Cargo.toml` entry
//! folds `Cargo` in and scanning goes on. A source file is classified only
//! while no kind has been picked yet, and only when its name starts with
//! one of the recognized stems. The outcome therefore depends on the order
//! of the entries when several source candidates are present; callers who
//! need a deterministic answer should sort the entries first.

use vstd::prelude::*;

use crate::strutil::{prefix_of, str_eq, str_starts_with};
use crate::target::{
    cargo_toml_chars, endings, makefile_chars, opt_model, opt_wf, spec_endings,
    spec_fold, update_target, Target, TargetModel,
};

verus! {

/// The entry name starts with one of the stems that mark a candidate
/// source file.
pub open spec fn stem_match(name: Seq<char>) -> bool {
    ||| prefix_of(seq!['m', 'a', 'i', 'n', '.'], name)
    ||| prefix_of(seq!['i', 'n', 'd', 'e', 'x', '.'], name)
    ||| prefix_of(seq!['t', 'e', 's', 't', '.'], name)
}

/// The scan, starting from an already-folded candidate `cur`.
pub open spec fn spec_resolve_from(
    cur: Option<TargetModel>,
    entries: Seq<Seq<char>>,
) -> Option<TargetModel>
    decreases entries.len(),
{
    if entries.len() == 0 {
        cur
    } else {
        let e = entries[0];
        if e == makefile_chars() {
            spec_fold(cur, Some(TargetModel::Make))
        } else if e == cargo_toml_chars() {
            spec_resolve_from(
                spec_fold(cur, Some(TargetModel::Cargo)),
                entries.drop_first(),
            )
        } else if cur is None && stem_match(e) {
            spec_resolve_from(spec_fold(cur, spec_endings(e)), entries.drop_first())
        } else {
            spec_resolve_from(cur, entries.drop_first())
        }
    }
}

/// The winning project kind for a directory's entry names.
pub open spec fn spec_resolve(entries: Seq<Seq<char>>) -> Option<TargetModel> {
    spec_resolve_from(None, entries)
}

/// Scans the entry names in the order given and returns the winning
/// project kind, if any entry identified one.
pub fn resolve(entries: &Vec<String>) -> (r: Option<Target>)
    ensures
        opt_model(r) == spec_resolve(entries.deep_view()),
        opt_wf(opt_model(r)),
{
    proof {
        reveal_strlit("Makefile");
        reveal_strlit("Cargo.toml");
        reveal_strlit("main.");
        reveal_strlit("index.");
        reveal_strlit("test.");
        assert("Makefile"@ =~= makefile_chars());
        assert("Cargo.toml"@ =~= cargo_toml_chars());
        assert("main."@ =~= seq!['m', 'a', 'i', 'n', '.']);
        assert("index."@ =~= seq!['i', 'n', 'd', 'e', 'x', '.']);
        assert("test."@ =~= seq!['t', 'e', 's', 't', '.']);
    }
    let ghost ents: Seq<Seq<char>> = entries.deep_view();
    let n: usize = entries.len();
    let mut cur: Option<Target> = None;
    let mut i: usize = 0;
    proof {
        assert(ents.skip(0) =~= ents);
    }
    while i < n
        invariant
            n == entries@.len(),
            ents == entries.deep_view(),
            0 <= i <= n,
            spec_resolve_from(opt_model(cur), ents.skip(i as int)) == spec_resolve(ents),
            opt_wf(opt_model(cur)),

        decreases n - i,
    {
        let e: &String = &entries[i];
        proof {
            reveal_strlit("Makefile");
            reveal_strlit("Cargo.toml");
            reveal_strlit("main.");
            reveal_strlit("index.");
            reveal_strlit("test.");
            assert("Makefile"@ =~= makefile_chars());
            assert("Cargo.toml"@ =~= cargo_toml_chars());
            assert("main."@ =~= seq!['m', 'a', 'i', 'n', '.']);
            assert("index."@ =~= seq!['i', 'n', 'd', 'e', 'x', '.']);
            assert("test."@ =~= seq!['t', 'e', 's', 't', '.']);
            assert(ents[i as int] == e@);
            assert(ents.skip(i as int)[0] == ents[i as int]);
            assert(ents.skip(i as int).drop_first() =~= ents.skip(i as int + 1));
        }
        if str_eq(e.as_str(), "Makefile") {
            let r = update_target(cur, Some(Target::Make));
            return r;
        } else if str_eq(e.as_str(), "Cargo.toml") {
            cur = update_target(cur, Some(Target::Cargo));
        } else if cur.is_none() && (str_starts_with(e.as_str(), "main.")
            || str_starts_with(e.as_str(), "index.")
            || str_starts_with(e.as_str(), "test.")) {
            let cand = endings(e.as_str());
            cur = update_target(cur, cand);
        }
        i = i + 1;
    }
    cur
}

/// A `Makefile` entry anywhere among the entries makes `Make` the result,
/// whatever candidate had been folded before the scan reached it.
pub proof fn lemma_makefile_from(cur: Option<TargetModel>, entries: Seq<Seq<char>>)
    requires
        exists|i: int| 0 <= i < entries.len() && entries[i] == makefile_chars(),
    ensures
        spec_resolve_from(cur, entries) == Some(TargetModel::Make),
    decreases entries.len(),
{
    let i = choose|i: int| 0 <= i < entries.len() && entries[i] == makefile_chars();
    if entries[0] == makefile_chars() {
    } else {
        assert(entries.drop_first()[i - 1] == entries[i]);
        if entries[0] == cargo_toml_chars() {
            lemma_makefile_from(
                spec_fold(cur, Some(TargetModel::Cargo)),
                entries.drop_first(),
            );
        } else if cur is None && stem_match(entries[0]) {
            lemma_makefile_from(
                spec_fold(cur, spec_endings(entries[0])),
                entries.drop_first(),
            );
        } else {
            lemma_makefile_from(cur, entries.drop_first());
        }
    }
}

/// For every entry set containing a `Makefile`, resolution returns `Make`,
/// regardless of what other manifests or sources are present.
pub proof fn lemma_makefile_dominates(entries: Seq<Seq<char>>)
    requires
        exists|i: int| 0 <= i < entries.len() && entries[i] == makefile_chars(),
    ensures
        spec_resolve(entries) == Some(TargetModel::Make),
{
    lemma_makefile_from(None, entries);
}

/// `spec_endings` never yields a manifest kind.
proof fn lemma_endings_not_manifest(name: Seq<char>)
    ensures
        spec_endings(name) != Some(TargetModel::Make),
        spec_endings(name) != Some(TargetModel::Cargo),
{
}

/// Once `Cargo` is the candidate and no `Makefile` entry remains, the scan
/// keeps `Cargo` to the end.
proof fn lemma_cargo_sticks(entries: Seq<Seq<char>>)
    requires
        forall|i: int| 0 <= i < entries.len() ==> entries[i] != makefile_chars(),
    ensures
        spec_resolve_from(Some(TargetModel::Cargo), entries)
            == Some(TargetModel::Cargo),
    decreases entries.len(),
{
    if entries.len() > 0 {
        assert(forall|i: int|
            0 <= i < entries.drop_first().len()
                ==> entries.drop_first()[i] == entries[i + 1]);
        lemma_cargo_sticks(entries.drop_first());
    }
}

/// With no `Makefile` present and a `Cargo.toml` somewhere ahead, a scan
/// whose current candidate is not `Make` ends in `Cargo`.
proof fn lemma_cargo_from(cur: Option<TargetModel>, entries: Seq<Seq<char>>)
    requires
        forall|i: int| 0 <= i < entries.len() ==> entries[i] != makefile_chars(),
        exists|i: int| 0 <= i < entries.len() && entries[i] == cargo_toml_chars(),
        cur != Some(TargetModel::Make),
    ensures
        spec_resolve_from(cur, entries) == Some(TargetModel::Cargo),
    decreases entries.len(),
{
    let i = choose|i: int| 0 <= i < entries.len() && entries[i] == cargo_toml_chars();
    assert(forall|j: int|
        0 <= j < entries.drop_first().len()
            ==> entries.drop_first()[j] == entries[j + 1]);
    if entries[0] == cargo_toml_chars() {
        assert(spec_fold(cur, Some(TargetModel::Cargo)) == Some(TargetModel::Cargo));
        lemma_cargo_sticks(entries.drop_first());
    } else {
        assert(entries.drop_first()[i - 1] == entries[i]);
        if cur is None && stem_match(entries[0]) {
            lemma_endings_not_manifest(entries[0]);
            lemma_cargo_from(
                spec_fold(cur, spec_endings(entries[0])),
                entries.drop_first(),
            );
        } else {
            lemma_cargo_from(cur, entries.drop_first());
        }
    }
}

/// For every entry set containing `Cargo.toml` but no `Makefile`,
/// resolution returns `Cargo`.
pub proof fn lemma_cargo_without_makefile(entries: Seq<Seq<char>>)
    requires
        forall|i: int| 0 <= i < entries.len() ==> entries[i] != makefile_chars(),
        exists|i: int| 0 <= i < entries.len() && entries[i] == cargo_toml_chars(),
    ensures
        spec_resolve(entries) == Some(TargetModel::Cargo),
{
    lemma_cargo_from(None, entries);
}

/// Once a source-file candidate is picked and no manifest entry remains,
/// the scan keeps that candidate to the end.
proof fn lemma_source_sticks(cur: TargetModel, entries: Seq<Seq<char>>)
    requires
        forall|i: int| 0 <= i < entries.len() ==> entries[i] != makefile_chars(),
        forall|i: int| 0 <= i < entries.len() ==> entries[i] != cargo_toml_chars(),
        cur != TargetModel::Make,
        cur != TargetModel::Cargo,
    ensures
        spec_resolve_from(Some(cur), entries) == Some(cur),
    decreases entries.len(),
{
    if entries.len() > 0 {
        assert(forall|i: int|
            0 <= i < entries.drop_first().len()
                ==> entries.drop_first()[i] == entries[i + 1]);
        lemma_source_sticks(cur, entries.drop_first());
    }
}

/// For an entry set with no manifest files and exactly one entry that is a
/// recognized source file, resolution returns that entry's kind, carrying
/// that entry's name.
pub proof fn lemma_single_source(entries: Seq<Seq<char>>, i: int)
    requires
        0 <= i < entries.len(),
        forall|j: int| 0 <= j < entries.len() ==> entries[j] != makefile_chars(),
        forall|j: int| 0 <= j < entries.len() ==> entries[j] != cargo_toml_chars(),
        stem_match(entries[i]) && spec_endings(entries[i]) is Some,
        forall|j: int|
            0 <= j < entries.len() && j != i
                ==> !(stem_match(entries[j]) && spec_endings(entries[j]) is Some),
    ensures
        spec_resolve(entries) == spec_endings(entries[i]),
{
    lemma_single_source_from(entries, i);
}

/// Induction step for `lemma_single_source`, over a scan that has not yet
/// picked any candidate.
proof fn lemma_single_source_from(entries: Seq<Seq<char>>, i: int)
    requires
        0 <= i < entries.len(),
        forall|j: int| 0 <= j < entries.len() ==> entries[j] != makefile_chars(),
        forall|j: int| 0 <= j < entries.len() ==> entries[j] != cargo_toml_chars(),
        stem_match(entries[i]) && spec_endings(entries[i]) is Some,
        forall|j: int|
            0 <= j < entries.len() && j != i
                ==> !(stem_match(entries[j]) && spec_endings(entries[j]) is Some),
    ensures
        spec_resolve_from(None, entries) == spec_endings(entries[i]),
    decreases entries.len(),
{
    assert(forall|j: int|
        0 <= j < entries.drop_first().len()
            ==> entries.drop_first()[j] == entries[j + 1]);
    if i == 0 {
        let k = spec_endings(entries[0])->0;
        lemma_endings_not_manifest(entries[0]);
        assert(spec_fold(None, spec_endings(entries[0])) == Some(k));
        lemma_source_sticks(k, entries.drop_first());
    } else {
        if stem_match(entries[0]) {
            assert(spec_endings(entries[0]) is None);
            assert(spec_fold(None, spec_endings(entries[0])) == None::<TargetModel>);
        }
        lemma_single_source_from(entries.drop_first(), i - 1);
    }
}

} // verus!
