use buildrun::resolve::resolve;
use buildrun::target::{endings, update_target, Target};

fn names(list: &[&str]) -> Vec<String> {
    list.iter().map(|s| s.to_string()).collect()
}

#[test]
fn makefile_wins_whatever_else_is_present() {
    let r = resolve(&names(&["Cargo.toml", "main.rs", "Makefile", "main.c"]));
    assert_eq!(r, Some(Target::Make));
    let r = resolve(&names(&["Makefile", "Cargo.toml", "main.cpp"]));
    assert_eq!(r, Some(Target::Make));
}

#[test]
fn makefile_unseats_an_already_set_cargo() {
    let r = resolve(&names(&["Cargo.toml", "Makefile"]));
    assert_eq!(r, Some(Target::Make));
}

#[test]
fn cargo_wins_without_makefile() {
    let r = resolve(&names(&["Cargo.toml", "src", "README.md"]));
    assert_eq!(r, Some(Target::Cargo));
    let r = resolve(&names(&["main.c", "Cargo.toml"]));
    assert_eq!(r, Some(Target::Cargo));
    let r = resolve(&names(&["Cargo.toml", "main.c"]));
    assert_eq!(r, Some(Target::Cargo));
}

#[test]
fn single_source_resolves_to_its_kind() {
    assert_eq!(
        resolve(&names(&["main.rs"])),
        Some(Target::Rust("main.rs".to_string()))
    );
    assert_eq!(
        resolve(&names(&["main.cpp"])),
        Some(Target::Cpp("main.cpp".to_string()))
    );
    assert_eq!(
        resolve(&names(&["main.cxx"])),
        Some(Target::Cpp("main.cxx".to_string()))
    );
    assert_eq!(
        resolve(&names(&["main.js"])),
        Some(Target::Js("main.js".to_string()))
    );
    assert_eq!(
        resolve(&names(&["main.c"])),
        Some(Target::C("main.c".to_string()))
    );
    assert_eq!(
        resolve(&names(&["main.lua"])),
        Some(Target::Lua("main.lua".to_string()))
    );
    assert_eq!(
        resolve(&names(&["main.sh"])),
        Some(Target::Bash("main.sh".to_string()))
    );
    assert_eq!(
        resolve(&names(&["main.bash"])),
        Some(Target::Bash("main.bash".to_string()))
    );
    assert_eq!(
        resolve(&names(&["index.js"])),
        Some(Target::Js("index.js".to_string()))
    );
    assert_eq!(
        resolve(&names(&["test.lua"])),
        Some(Target::Lua("test.lua".to_string()))
    );
}

#[test]
fn source_needs_a_recognized_stem() {
    assert_eq!(resolve(&names(&["foo.rs"])), None);
    assert_eq!(resolve(&names(&["mainx.rs"])), None);
    assert_eq!(resolve(&names(&["main_rs"])), None);
}

#[test]
fn unknown_extension_yields_no_candidate() {
    assert_eq!(resolve(&names(&["main.py"])), None);
    assert_eq!(
        resolve(&names(&["main.py", "main.c"])),
        Some(Target::C("main.c".to_string()))
    );
}

#[test]
fn first_extension_match_wins() {
    assert_eq!(
        resolve(&names(&["main.rs", "main.c"])),
        Some(Target::Rust("main.rs".to_string()))
    );
    assert_eq!(
        resolve(&names(&["main.c", "main.rs"])),
        Some(Target::C("main.c".to_string()))
    );
}

#[test]
fn empty_directory_resolves_to_nothing() {
    assert_eq!(resolve(&names(&[])), None);
}

#[test]
fn endings_classifies_by_extension() {
    assert_eq!(endings("main.js"), Some(Target::Js("main.js".to_string())));
    assert_eq!(endings("a.cxx"), Some(Target::Cpp("a.cxx".to_string())));
    assert_eq!(endings("a.bash"), Some(Target::Bash("a.bash".to_string())));
    assert_eq!(endings("a.txt"), None);
}

#[test]
fn update_target_keeps_the_dominance_order() {
    let make = || Some(Target::Make);
    let cargo = || Some(Target::Cargo);
    let rust = || Some(Target::Rust("main.rs".to_string()));
    assert_eq!(update_target(make(), cargo()), make());
    assert_eq!(update_target(cargo(), make()), make());
    assert_eq!(update_target(cargo(), rust()), cargo());
    assert_eq!(update_target(rust(), cargo()), cargo());
    assert_eq!(update_target(None, rust()), rust());
    assert_eq!(update_target(rust(), None), rust());
    assert_eq!(update_target(None, None), None);
}
