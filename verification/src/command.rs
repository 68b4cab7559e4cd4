//! The dispatch table: which external program serves each project kind,
//! with which arguments, for each of the three phases.
//!
//! A command is a program name and its argument list; spawning it is the
//! surrounding program's job. The lint and build tables differ only for
//! the kinds whose linter is a separate tool mode (`Make`, `Cargo`,
//! `Bash`); the compiled and interpreted kinds lint by building.

use vstd::prelude::*;
use vstd::string::StringExecFns;

use crate::binary::{spec_stem, stem_of};
use crate::strutil::first_index_of;
use crate::target::{target_wf, Target, TargetModel};

verus! {

/// An external command: a program and its arguments, in order.
#[derive(Debug, PartialEq)]
pub struct Cmd {
    pub program: String,
    pub args: Vec<String>,
}

/// Mathematical model of a command.
pub struct CmdModel {
    pub program: Seq<char>,
    pub args: Seq<Seq<char>>,
}

impl View for Cmd {
    type V = CmdModel;

    open spec fn view(&self) -> CmdModel {
        CmdModel { program: self.program@, args: self.args.deep_view() }
    }
}

/// Arguments of a compiler invocation: the source file, `-o`, the
/// stripped binary name, and `-O3` for a release build.
pub open spec fn spec_compile_args(f: Seq<char>, release: bool) -> Seq<Seq<char>> {
    if release {
        seq![f, "-o"@, spec_stem(f), "-O3"@]
    } else {
        seq![f, "-o"@, spec_stem(f)]
    }
}

/// The lint command of each kind of project.
pub open spec fn spec_lint_command(t: TargetModel, release: bool) -> CmdModel {
    match t {
        TargetModel::Make => CmdModel {
            program: "make"@,
            args: if release {
                seq!["lint"@]
            } else {
                Seq::empty()
            },
        },
        TargetModel::Cargo => CmdModel { program: "cargo"@, args: seq!["fmt"@] },
        TargetModel::Cpp(f) => CmdModel { program: "g++"@, args: spec_compile_args(f, release) },
        TargetModel::C(f) => CmdModel { program: "gcc"@, args: spec_compile_args(f, release) },
        TargetModel::Rust(f) => CmdModel { program: "rustc"@, args: seq![f] },
        TargetModel::Js(f) => CmdModel { program: "eslint"@, args: seq!["--env"@, "es6"@, f] },
        TargetModel::Lua(f) => CmdModel { program: "luacheck"@, args: seq!["-q"@, f] },
        TargetModel::Bash(f) => CmdModel {
            program: "shellcheck"@,
            args: seq!["--norc"@, "--severity=style"@, f],
        },
    }
}

/// The build command of each kind of project.
pub open spec fn spec_build_command(t: TargetModel, release: bool) -> CmdModel {
    match t {
        TargetModel::Make => CmdModel {
            program: "make"@,
            args: if release {
                seq!["release"@]
            } else {
                Seq::empty()
            },
        },
        TargetModel::Cargo => CmdModel {
            program: "cargo"@,
            args: if release {
                seq!["build"@, "--release"@]
            } else {
                seq!["build"@]
            },
        },
        TargetModel::Cpp(f) => CmdModel { program: "g++"@, args: spec_compile_args(f, release) },
        TargetModel::C(f) => CmdModel { program: "gcc"@, args: spec_compile_args(f, release) },
        TargetModel::Rust(f) => CmdModel { program: "rustc"@, args: seq![f] },
        TargetModel::Js(f) => CmdModel { program: "eslint"@, args: seq!["--env"@, "es6"@, f] },
        TargetModel::Lua(f) => CmdModel { program: "luacheck"@, args: seq!["-q"@, f] },
        TargetModel::Bash(f) => CmdModel {
            program: "shellcheck"@,
            args: seq!["--norc"@, "--severity=warning"@, f],
        },
    }
}

/// The run command of each kind of project, given the resolved binary
/// name: compiled and `Make` targets run `./<binary>` directly, the
/// interpreted kinds hand `./<binary>` to their interpreter, and `Cargo`
/// runs through `cargo run`.
pub open spec fn spec_run_command(t: TargetModel, release: bool, binary: Seq<char>) -> CmdModel {
    match t {
        TargetModel::Make => CmdModel { program: "./"@ + binary, args: Seq::empty() },
        TargetModel::Cpp(_) => CmdModel { program: "./"@ + binary, args: Seq::empty() },
        TargetModel::C(_) => CmdModel { program: "./"@ + binary, args: Seq::empty() },
        TargetModel::Rust(_) => CmdModel { program: "./"@ + binary, args: Seq::empty() },
        TargetModel::Cargo => CmdModel {
            program: "cargo"@,
            args: if release {
                seq!["run"@, "--release"@]
            } else {
                seq!["run"@]
            },
        },
        TargetModel::Js(_) => CmdModel { program: "node"@, args: seq!["./"@ + binary] },
        TargetModel::Lua(_) => CmdModel { program: "lua"@, args: seq!["./"@ + binary] },
        TargetModel::Bash(_) => CmdModel { program: "bash"@, args: seq!["./"@ + binary] },
    }
}

/// A compiler invocation: `prog f -o <stem of f>`, with `-O3` when
/// releasing.
fn compile_cmd(prog: &str, f: &String, release: bool) -> (c: Cmd)
    requires
        first_index_of(f@, '.') is Some,
    ensures
        c@.program == prog@,
        c@.args == spec_compile_args(f@, release),
{
    let mut args: Vec<String> = Vec::new();
    args.push(f.clone());
    args.push(String::from_str("-o"));
    args.push(stem_of(f.as_str()));
    if release {
        args.push(String::from_str("-O3"));
    }
    let c = Cmd { program: String::from_str(prog), args };
    proof {
        assert(c@.args =~= spec_compile_args(f@, release));
    }
    c
}

/// A command of a program alone, with no arguments.
fn plain_cmd(prog: &str) -> (c: Cmd)
    ensures
        c@.program == prog@,
        c@.args == Seq::<Seq<char>>::empty(),
{
    let c = Cmd { program: String::from_str(prog), args: Vec::new() };
    proof {
        assert(c@.args =~= Seq::<Seq<char>>::empty());
    }
    c
}

/// A command of a program and one argument.
fn one_arg_cmd(prog: &str, a0: String) -> (c: Cmd)
    ensures
        c@.program == prog@,
        c@.args == seq![a0@],
{
    let mut args: Vec<String> = Vec::new();
    let ghost v0 = a0@;
    args.push(a0);
    let c = Cmd { program: String::from_str(prog), args };
    proof {
        assert(c@.args =~= seq![v0]);
    }
    c
}

/// A command of a program and two arguments.
fn two_arg_cmd(prog: &str, a0: String, a1: String) -> (c: Cmd)
    ensures
        c@.program == prog@,
        c@.args == seq![a0@, a1@],
{
    let mut args: Vec<String> = Vec::new();
    let ghost v0 = a0@;
    let ghost v1 = a1@;
    args.push(a0);
    args.push(a1);
    let c = Cmd { program: String::from_str(prog), args };
    proof {
        assert(c@.args =~= seq![v0, v1]);
    }
    c
}

/// A command of a program and three arguments.
fn three_arg_cmd(prog: &str, a0: String, a1: String, a2: String) -> (c: Cmd)
    ensures
        c@.program == prog@,
        c@.args == seq![a0@, a1@, a2@],
{
    let mut args: Vec<String> = Vec::new();
    let ghost v0 = a0@;
    let ghost v1 = a1@;
    let ghost v2 = a2@;
    args.push(a0);
    args.push(a1);
    args.push(a2);
    let c = Cmd { program: String::from_str(prog), args };
    proof {
        assert(c@.args =~= seq![v0, v1, v2]);
    }
    c
}

impl Target {
    /// The lint command of this target, per the dispatch table.
    pub fn lint_command(&self, release: bool) -> (c: Cmd)
        requires
            target_wf(self@),
        ensures
            c@ == spec_lint_command(self@, release),
    {
        match self {
            Target::Make => {
                if release {
                    one_arg_cmd("make", String::from_str("lint"))
                } else {
                    plain_cmd("make")
                }
            },
            Target::Cargo => one_arg_cmd("cargo", String::from_str("fmt")),
            Target::Cpp(f) => compile_cmd("g++", f, release),
            Target::C(f) => compile_cmd("gcc", f, release),
            Target::Rust(f) => one_arg_cmd("rustc", f.clone()),
            Target::Js(f) => three_arg_cmd(
                "eslint",
                String::from_str("--env"),
                String::from_str("es6"),
                f.clone(),
            ),
            Target::Lua(f) => two_arg_cmd("luacheck", String::from_str("-q"), f.clone()),
            Target::Bash(f) => three_arg_cmd(
                "shellcheck",
                String::from_str("--norc"),
                String::from_str("--severity=style"),
                f.clone(),
            ),
        }
    }

    /// The build command of this target, per the dispatch table.
    pub fn build_command(&self, release: bool) -> (c: Cmd)
        requires
            target_wf(self@),
        ensures
            c@ == spec_build_command(self@, release),
    {
        match self {
            Target::Make => {
                if release {
                    one_arg_cmd("make", String::from_str("release"))
                } else {
                    plain_cmd("make")
                }
            },
            Target::Cargo => {
                if release {
                    two_arg_cmd("cargo", String::from_str("build"), String::from_str("--release"))
                } else {
                    one_arg_cmd("cargo", String::from_str("build"))
                }
            },
            Target::Cpp(f) => compile_cmd("g++", f, release),
            Target::C(f) => compile_cmd("gcc", f, release),
            Target::Rust(f) => one_arg_cmd("rustc", f.clone()),
            Target::Js(f) => three_arg_cmd(
                "eslint",
                String::from_str("--env"),
                String::from_str("es6"),
                f.clone(),
            ),
            Target::Lua(f) => two_arg_cmd("luacheck", String::from_str("-q"), f.clone()),
            Target::Bash(f) => three_arg_cmd(
                "shellcheck",
                String::from_str("--norc"),
                String::from_str("--severity=warning"),
                f.clone(),
            ),
        }
    }

    /// The run command of this target, given its resolved binary name.
    pub fn run_command(&self, release: bool, binary: &str) -> (c: Cmd)
        ensures
            c@ == spec_run_command(self@, release, binary@),
    {
        match self {
            Target::Make | Target::Cpp(_) | Target::C(_) | Target::Rust(_) => {
                let p = String::from_str("./").concat(binary);
                let c = Cmd { program: p, args: Vec::new() };
                proof {
                    assert(c@.args =~= Seq::<Seq<char>>::empty());
                }
                c
            },
            Target::Cargo => {
                if release {
                    two_arg_cmd("cargo", String::from_str("run"), String::from_str("--release"))
                } else {
                    one_arg_cmd("cargo", String::from_str("run"))
                }
            },
            Target::Js(_) => one_arg_cmd("node", String::from_str("./").concat(binary)),
            Target::Lua(_) => one_arg_cmd("lua", String::from_str("./").concat(binary)),
            Target::Bash(_) => one_arg_cmd("bash", String::from_str("./").concat(binary)),
        }
    }
}

} // verus!
