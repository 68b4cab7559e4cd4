//! The binary-name projection of a target: which artifact the run phase
//! starts.
//!
//! Script-like kinds run their source file as is. Compiled kinds run the
//! source path with everything from its first `.` stripped. The manifest
//! kinds name their binary inside the manifest itself, so their projection
//! works on the manifest's lines and may come up empty.

use vstd::prelude::*;
use vstd::string::StrSliceExecFns;

use crate::manifest::{cargo_name, makefile_target, spec_cargo_name, spec_makefile_target};
use crate::strutil::{find_char, first_index_of};
use crate::target::{lemma_index_of_from_props, target_wf, Target, TargetModel};

verus! {

/// The path with everything from its first `.` stripped.
pub open spec fn spec_stem(x: Seq<char>) -> Seq<char> {
    x.take(first_index_of(x, '.')->0)
}

/// The binary name of a target, given the lines of its manifest (ignored
/// for the kinds that carry a source path).
pub open spec fn spec_binary(t: TargetModel, lines: Seq<Seq<char>>) -> Option<Seq<char>> {
    match t {
        TargetModel::Bash(x) => Some(x),
        TargetModel::Js(x) => Some(x),
        TargetModel::Lua(x) => Some(x),
        TargetModel::Cpp(x) => Some(spec_stem(x)),
        TargetModel::Rust(x) => Some(spec_stem(x)),
        TargetModel::C(x) => Some(spec_stem(x)),
        TargetModel::Make => spec_makefile_target(lines),
        TargetModel::Cargo => spec_cargo_name(lines),
    }
}

/// Strips everything from the first `.` of `path`.
pub fn stem_of(path: &str) -> (r: String)
    requires
        first_index_of(path@, '.') is Some,
    ensures
        r@ == spec_stem(path@),
{
    proof {
        lemma_index_of_from_props(path@, '.', 0);
    }
    match find_char(path, '.') {
        Some(i) => {
            let s = path.substring_char(0, i);
            proof {
                assert(path@.subrange(0, i as int) =~= path@.take(i as int));
            }
            s.to_owned()
        },
        None => {
            proof {
                assert(false);
            }
            String::new()
        },
    }
}

impl Target {
    /// The name of the artifact the run phase starts, if the target has
    /// one. `manifest_lines` holds the lines of the manifest file for
    /// `Make` and `Cargo`, and is ignored for every other kind.
    pub fn get_binary(&self, manifest_lines: &Vec<String>) -> (r: Option<String>)
        requires
            target_wf(self@),
        ensures
            r.deep_view() == spec_binary(self@, manifest_lines.deep_view()),
    {
        match self {
            Target::Bash(x) | Target::Js(x) | Target::Lua(x) => Some(x.as_str().to_owned()),
            Target::Cpp(x) | Target::Rust(x) | Target::C(x) => Some(stem_of(x.as_str())),
            Target::Make => makefile_target(manifest_lines),
            Target::Cargo => cargo_name(manifest_lines),
        }
    }
}

} // verus!
