//! The kinds of project a directory can hold, and how a single directory
//! entry is classified into a candidate kind.
//!
//! A `Target` is either manifest-based (`Make`, `Cargo`) or carries the path
//! of the single source file that identified it. `Make` and `Cargo` are
//! dominant: folding a new candidate into an old one never lets a
//! source-file candidate displace them, and `Make` displaces everything.

use vstd::prelude::*;

use crate::strutil::{first_index_of, index_of_from, str_ends_with, suffix_of};

verus! {

/// The inferred kind of project in a directory.
///
/// Source-file variants carry the name of the file that identified them.
#[derive(Debug, PartialEq)]
pub enum Target {
    Cargo,
    Make,
    Cpp(String),
    C(String),
    Rust(String),
    Js(String),
    Lua(String),
    Bash(String),
}

/// Mathematical model of a `Target`: the same variants, with the file name
/// as a sequence of characters.
pub enum TargetModel {
    Cargo,
    Make,
    Cpp(Seq<char>),
    C(Seq<char>),
    Rust(Seq<char>),
    Js(Seq<char>),
    Lua(Seq<char>),
    Bash(Seq<char>),
}

impl View for Target {
    type V = TargetModel;

    open spec fn view(&self) -> TargetModel {
        match self {
            Target::Cargo => TargetModel::Cargo,
            Target::Make => TargetModel::Make,
            Target::Cpp(p) => TargetModel::Cpp(p@),
            Target::C(p) => TargetModel::C(p@),
            Target::Rust(p) => TargetModel::Rust(p@),
            Target::Js(p) => TargetModel::Js(p@),
            Target::Lua(p) => TargetModel::Lua(p@),
            Target::Bash(p) => TargetModel::Bash(p@),
        }
    }
}

/// The model of an optional `Target`.
pub open spec fn opt_model(t: Option<Target>) -> Option<TargetModel> {
    match t {
        Some(x) => Some(x@),
        None => None,
    }
}

/// A compiled kind must carry a path with an extension to strip; every
/// other kind is unconditionally well formed.
pub open spec fn target_wf(t: TargetModel) -> bool {
    match t {
        TargetModel::Cpp(p) => first_index_of(p, '.') is Some,
        TargetModel::C(p) => first_index_of(p, '.') is Some,
        TargetModel::Rust(p) => first_index_of(p, '.') is Some,
        _ => true,
    }
}

/// Well-formedness of an optional target.
pub open spec fn opt_wf(t: Option<TargetModel>) -> bool {
    match t {
        Some(x) => target_wf(x),
        None => true,
    }
}

pub open spec fn makefile_chars() -> Seq<char> {
    seq!['M', 'a', 'k', 'e', 'f', 'i', 'l', 'e']
}

pub open spec fn cargo_toml_chars() -> Seq<char> {
    seq!['C', 'a', 'r', 'g', 'o', '.', 't', 'o', 'm', 'l']
}

/// The file name a target presents itself under: the manifest name for
/// `Make` and `Cargo`, the discovered source path otherwise.
pub open spec fn spec_filename(t: TargetModel) -> Seq<char> {
    match t {
        TargetModel::Make => makefile_chars(),
        TargetModel::Cargo => cargo_toml_chars(),
        TargetModel::Cpp(p) => p,
        TargetModel::C(p) => p,
        TargetModel::Rust(p) => p,
        TargetModel::Js(p) => p,
        TargetModel::Lua(p) => p,
        TargetModel::Bash(p) => p,
    }
}

/// Classification of a file name by its extension. The branches are tried
/// in a fixed order; a name matching none of the known extensions yields
/// no candidate.
pub open spec fn spec_endings(name: Seq<char>) -> Option<TargetModel> {
    if suffix_of(seq!['.', 'j', 's'], name) {
        Some(TargetModel::Js(name))
    } else if suffix_of(seq!['.', 'c', 'p', 'p'], name) || suffix_of(
        seq!['.', 'c', 'x', 'x'],
        name,
    ) {
        Some(TargetModel::Cpp(name))
    } else if suffix_of(seq!['.', 'l', 'u', 'a'], name) {
        Some(TargetModel::Lua(name))
    } else if suffix_of(seq!['.', 'b', 'a', 's', 'h'], name) || suffix_of(
        seq!['.', 's', 'h'],
        name,
    ) {
        Some(TargetModel::Bash(name))
    } else if suffix_of(seq!['.', 'r', 's'], name) {
        Some(TargetModel::Rust(name))
    } else if suffix_of(seq!['.', 'c'], name) {
        Some(TargetModel::C(name))
    } else {
        None
    }
}

/// How a newly seen candidate folds into the current one: `Make` wins over
/// everything on either side, then `Cargo` wins over everything else, then
/// a later non-empty candidate replaces the current one; an empty candidate
/// keeps the current one.
pub open spec fn spec_fold(
    old_t: Option<TargetModel>,
    new_t: Option<TargetModel>,
) -> Option<TargetModel> {
    match (old_t, new_t) {
        (Some(TargetModel::Make), _) => Some(TargetModel::Make),
        (_, Some(TargetModel::Make)) => Some(TargetModel::Make),
        (Some(TargetModel::Cargo), _) => Some(TargetModel::Cargo),
        (_, Some(TargetModel::Cargo)) => Some(TargetModel::Cargo),
        (_, Some(x)) => Some(x),
        (kept, None) => kept,
    }
}

/// If some position at or after `j` holds `c`, the search from `j` finds
/// an occurrence.
pub proof fn lemma_index_of_from_some(s: Seq<char>, c: char, i: int, j: int)
    requires
        0 <= j <= i < s.len(),
        s[i] == c,
    ensures
        index_of_from(s, c, j) is Some,
    decreases i - j,
{
    if s[j] != c {
        lemma_index_of_from_some(s, c, i, j + 1);
    }
}

/// What a successful or failed search from `j` says of the characters.
pub proof fn lemma_index_of_from_props(s: Seq<char>, c: char, j: int)
    requires
        0 <= j,
    ensures
        match index_of_from(s, c, j) {
            Some(i) => j <= i < s.len() && s[i] == c && forall|k: int|
                j <= k < i ==> s[k] != c,
            None => forall|k: int| j <= k < s.len() ==> s[k] != c,
        },
    decreases s.len() - j,
{
    if j < s.len() && s[j] != c {
        lemma_index_of_from_props(s, c, j + 1);
    }
}

/// Whatever `spec_endings` classifies is well formed: the compiled kinds
/// arise only from names whose recognized extension supplies a dot.
pub proof fn lemma_endings_wf(name: Seq<char>)
    ensures
        spec_endings(name) matches Some(t) ==> target_wf(t),
{
    match spec_endings(name) {
        Some(TargetModel::Cpp(p)) => {
            // both recognized extensions are four characters long
            assert(name[name.len() - 4] == '.');
            lemma_index_of_from_some(name, '.', name.len() - 4, 0);
        },
        Some(TargetModel::Rust(p)) => {
            assert(name[name.len() - 3] == '.');
            lemma_index_of_from_some(name, '.', name.len() - 3, 0);
        },
        Some(TargetModel::C(p)) => {
            assert(name[name.len() - 2] == '.');
            lemma_index_of_from_some(name, '.', name.len() - 2, 0);
        },
        _ => {},
    }
}

impl Target {
    /// The file name this target presents itself under. Always present; the
    /// `Option` mirrors the other, possibly-failing projection of a target.
    pub fn get_filename(&self) -> (r: Option<String>)
        ensures
            r matches Some(n) && n@ == spec_filename(self@),
    {
        proof {
            reveal_strlit("Makefile");
            reveal_strlit("Cargo.toml");
        }
        match self {
            Target::Bash(x) | Target::Js(x) | Target::Cpp(x) | Target::Rust(x)
                | Target::C(x) | Target::Lua(x) => Some(x.as_str().to_owned()),
            Target::Make => {
                let n = "Makefile".to_owned();
                proof {
                    assert(n@ =~= makefile_chars());
                }
                Some(n)
            },
            Target::Cargo => {
                let n = "Cargo.toml".to_owned();
                proof {
                    assert(n@ =~= cargo_toml_chars());
                }
                Some(n)
            },
        }
    }
}

/// Classifies a file name by its extension, in the same fixed order as
/// `spec_endings`.
pub fn endings(file_name: &str) -> (r: Option<Target>)
    ensures
        opt_model(r) == spec_endings(file_name@),
        r matches Some(t) ==> target_wf(t@),
{
    proof {
        reveal_strlit(".js");
        reveal_strlit(".cpp");
        reveal_strlit(".cxx");
        reveal_strlit(".lua");
        reveal_strlit(".bash");
        reveal_strlit(".sh");
        reveal_strlit(".rs");
        reveal_strlit(".c");
        assert(".js"@ =~= seq!['.', 'j', 's']);
        assert(".cpp"@ =~= seq!['.', 'c', 'p', 'p']);
        assert(".cxx"@ =~= seq!['.', 'c', 'x', 'x']);
        assert(".lua"@ =~= seq!['.', 'l', 'u', 'a']);
        assert(".bash"@ =~= seq!['.', 'b', 'a', 's', 'h']);
        assert(".sh"@ =~= seq!['.', 's', 'h']);
        assert(".rs"@ =~= seq!['.', 'r', 's']);
        assert(".c"@ =~= seq!['.', 'c']);
        lemma_endings_wf(file_name@);
    }
    if str_ends_with(file_name, ".js") {
        Some(Target::Js(file_name.to_owned()))
    } else if str_ends_with(file_name, ".cpp") || str_ends_with(file_name, ".cxx") {
        Some(Target::Cpp(file_name.to_owned()))
    } else if str_ends_with(file_name, ".lua") {
        Some(Target::Lua(file_name.to_owned()))
    } else if str_ends_with(file_name, ".bash") || str_ends_with(file_name, ".sh") {
        Some(Target::Bash(file_name.to_owned()))
    } else if str_ends_with(file_name, ".rs") {
        Some(Target::Rust(file_name.to_owned()))
    } else if str_ends_with(file_name, ".c") {
        Some(Target::C(file_name.to_owned()))
    } else {
        None
    }
}

/// Folds a newly seen candidate into the current one, as `spec_fold` says.
pub fn update_target(
    old_target: Option<Target>,
    new_target: Option<Target>,
) -> (r: Option<Target>)
    ensures
        opt_model(r) == spec_fold(opt_model(old_target), opt_model(new_target)),
{
    match (old_target, new_target) {
        (Some(Target::Make), _) => Some(Target::Make),
        (_, Some(Target::Make)) => Some(Target::Make),
        (Some(Target::Cargo), _) => Some(Target::Cargo),
        (_, Some(Target::Cargo)) => Some(Target::Cargo),
        (_, Some(x)) => Some(x),
        (kept, None) => kept,
    }
}

} // verus!
