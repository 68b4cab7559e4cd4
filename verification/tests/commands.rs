use buildrun::command::Cmd;
use buildrun::target::Target;

fn cmd(program: &str, args: &[&str]) -> Cmd {
    Cmd {
        program: program.to_string(),
        args: args.iter().map(|s| s.to_string()).collect(),
    }
}

#[test]
fn cpp_build_and_run() {
    let t = Target::Cpp("main.cpp".to_string());
    assert_eq!(t.build_command(false), cmd("g++", &["main.cpp", "-o", "main"]));
    assert_eq!(
        t.build_command(true),
        cmd("g++", &["main.cpp", "-o", "main", "-O3"])
    );
    assert_eq!(t.run_command(false, "main"), cmd("./main", &[]));
}

#[test]
fn c_build_uses_gcc() {
    let t = Target::C("main.c".to_string());
    assert_eq!(t.build_command(false), cmd("gcc", &["main.c", "-o", "main"]));
    assert_eq!(t.run_command(false, "main"), cmd("./main", &[]));
}

#[test]
fn cargo_build_and_run_honour_release() {
    let t = Target::Cargo;
    assert_eq!(t.build_command(false), cmd("cargo", &["build"]));
    assert_eq!(t.build_command(true), cmd("cargo", &["build", "--release"]));
    assert_eq!(t.run_command(false, "demo"), cmd("cargo", &["run"]));
    assert_eq!(t.run_command(true, "demo"), cmd("cargo", &["run", "--release"]));
    assert_eq!(t.lint_command(false), cmd("cargo", &["fmt"]));
}

#[test]
fn make_build_and_run() {
    let t = Target::Make;
    assert_eq!(t.build_command(false), cmd("make", &[]));
    assert_eq!(t.build_command(true), cmd("make", &["release"]));
    assert_eq!(t.lint_command(false), cmd("make", &[]));
    assert_eq!(t.lint_command(true), cmd("make", &["lint"]));
    assert_eq!(t.run_command(false, "foo"), cmd("./foo", &[]));
}

#[test]
fn rust_build_and_run() {
    let t = Target::Rust("main.rs".to_string());
    assert_eq!(t.build_command(false), cmd("rustc", &["main.rs"]));
    assert_eq!(t.run_command(false, "main"), cmd("./main", &[]));
}

#[test]
fn interpreted_kinds_run_through_their_interpreter() {
    let js = Target::Js("index.js".to_string());
    assert_eq!(
        js.build_command(false),
        cmd("eslint", &["--env", "es6", "index.js"])
    );
    assert_eq!(js.run_command(false, "index.js"), cmd("node", &["./index.js"]));

    let lua = Target::Lua("test.lua".to_string());
    assert_eq!(lua.build_command(false), cmd("luacheck", &["-q", "test.lua"]));
    assert_eq!(lua.run_command(false, "test.lua"), cmd("lua", &["./test.lua"]));

    let bash = Target::Bash("main.sh".to_string());
    assert_eq!(bash.run_command(false, "main.sh"), cmd("bash", &["./main.sh"]));
}

#[test]
fn bash_lint_and_build_differ_in_severity() {
    let t = Target::Bash("main.sh".to_string());
    assert_eq!(
        t.lint_command(false),
        cmd("shellcheck", &["--norc", "--severity=style", "main.sh"])
    );
    assert_eq!(
        t.build_command(false),
        cmd("shellcheck", &["--norc", "--severity=warning", "main.sh"])
    );
}
