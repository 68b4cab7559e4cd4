use buildrun::manifest::{parse_name_line, parse_target_line};
use buildrun::target::Target;

fn lines(list: &[&str]) -> Vec<String> {
    list.iter().map(|s| s.to_string()).collect()
}

#[test]
fn filename_of_each_kind() {
    assert_eq!(Target::Make.get_filename(), Some("Makefile".to_string()));
    assert_eq!(Target::Cargo.get_filename(), Some("Cargo.toml".to_string()));
    assert_eq!(
        Target::Cpp("main.cpp".to_string()).get_filename(),
        Some("main.cpp".to_string())
    );
    assert_eq!(
        Target::Js("index.js".to_string()).get_filename(),
        Some("index.js".to_string())
    );
}

#[test]
fn binary_of_compiled_kinds_strips_the_extension() {
    let none = lines(&[]);
    assert_eq!(
        Target::Cpp("main.cpp".to_string()).get_binary(&none),
        Some("main".to_string())
    );
    assert_eq!(
        Target::C("main.c".to_string()).get_binary(&none),
        Some("main".to_string())
    );
    assert_eq!(
        Target::Rust("main.rs".to_string()).get_binary(&none),
        Some("main".to_string())
    );
}

#[test]
fn binary_of_interpreted_kinds_is_the_path_unchanged() {
    let none = lines(&[]);
    assert_eq!(
        Target::Js("index.js".to_string()).get_binary(&none),
        Some("index.js".to_string())
    );
    assert_eq!(
        Target::Lua("test.lua".to_string()).get_binary(&none),
        Some("test.lua".to_string())
    );
    assert_eq!(
        Target::Bash("run.sh".to_string()).get_binary(&none),
        Some("run.sh".to_string())
    );
}

#[test]
fn makefile_target_line_names_the_binary() {
    let make = Target::Make;
    assert_eq!(
        make.get_binary(&lines(&["# build", "TARGET := foo", "all:"])),
        Some("foo".to_string())
    );
    assert_eq!(make.get_binary(&lines(&["# build", "all:"])), None);
    assert_eq!(make.get_binary(&lines(&[])), None);
}

#[test]
fn first_matching_line_wins() {
    let make = Target::Make;
    assert_eq!(
        make.get_binary(&lines(&["TARGET := first", "TARGET := second"])),
        Some("first".to_string())
    );
}

#[test]
fn cargo_name_line_names_the_binary() {
    let cargo = Target::Cargo;
    assert_eq!(
        cargo.get_binary(&lines(&["[package]", "name = \"demo\"", "version = \"0.1.0\""])),
        Some("demo".to_string())
    );
    assert_eq!(cargo.get_binary(&lines(&["[package]"])), None);
}

#[test]
fn target_line_shapes() {
    assert_eq!(parse_target_line("TARGET := foo"), Some("foo".to_string()));
    assert_eq!(parse_target_line("TARGET:=foo"), Some("foo".to_string()));
    assert_eq!(
        parse_target_line("TARGET   :=   foo_bar baz"),
        Some("foo_bar".to_string())
    );
    assert_eq!(parse_target_line("TARGETS := foo"), None);
    assert_eq!(parse_target_line(" TARGET := foo"), None);
    assert_eq!(parse_target_line("TARGET := "), None);
    assert_eq!(parse_target_line("TARGET = foo"), None);
}

#[test]
fn name_line_shapes() {
    assert_eq!(parse_name_line("name = \"demo\""), Some("demo".to_string()));
    assert_eq!(parse_name_line("name=\"a_b1\""), Some("a_b1".to_string()));
    assert_eq!(
        parse_name_line("name = \"demo\" # package"),
        Some("demo".to_string())
    );
    assert_eq!(parse_name_line("name = \"demo"), None);
    assert_eq!(parse_name_line("name = demo"), None);
    assert_eq!(parse_name_line("names = \"demo\""), None);
    assert_eq!(parse_name_line("name = \"\""), None);
}
