use minelaunch::env::Environment;

#[test]
fn get_returns_what_set_stored() {
    let mut env = Environment::new();
    assert_eq!(env.get("launcher_name"), None);
    env.set("launcher_name", "Minelaunch");
    assert_eq!(env.get("launcher_name"), Some(&String::from("Minelaunch")));
}

#[test]
fn set_replaces_an_earlier_value() {
    let mut env = Environment::new();
    env.set("user_type", "offline");
    env.set("user_type", "msa");
    assert_eq!(env.get("user_type"), Some(&String::from("msa")));
}

#[test]
fn remove_unbinds_only_the_named_variable() {
    let mut env = Environment::new();
    env.set("a", "1");
    env.set("b", "2");
    env.remove("a");
    env.remove("never_bound");
    assert_eq!(env.get("a"), None);
    assert_eq!(env.get("b"), Some(&String::from("2")));
}

#[test]
fn resolve_substitutes_every_placeholder() {
    let mut env = Environment::new();
    env.set("natives_directory", "/tmp/natives");
    env.set("launcher_name", "Minelaunch");
    assert_eq!(
        env.resolve("-Djava.library.path=${natives_directory}"),
        "-Djava.library.path=/tmp/natives"
    );
    assert_eq!(env.resolve("${launcher_name}/${launcher_name}"), "Minelaunch/Minelaunch");
}

#[test]
fn resolve_leaves_plain_text_alone() {
    let env = Environment::new();
    let once = env.resolve("--username");
    assert_eq!(once, "--username");
    assert_eq!(env.resolve(&once), once);
    assert_eq!(env.resolve(""), "");
    assert_eq!(env.resolve("$ { } ${ unclosed"), "$ { } ${ unclosed");
}

#[test]
fn resolve_of_an_unbound_key_is_empty_and_reported_once() {
    let env = Environment::new();
    let r = env.resolve_reporting("${x}");
    assert_eq!(r.text, "");
    assert_eq!(r.undefined, vec![String::from("x")]);
}

#[test]
fn resolve_reports_each_occurrence_of_an_unbound_key() {
    let mut env = Environment::new();
    env.set("b", "B");
    let r = env.resolve_reporting("a=${a} b=${b} a=${a}");
    assert_eq!(r.text, "a= b=B a=");
    assert_eq!(r.undefined, vec![String::from("a"), String::from("a")]);
}

#[test]
fn resolve_takes_the_key_up_to_the_first_closing_brace() {
    let mut env = Environment::new();
    env.set("a${b", "nested");
    env.set("b", "B");
    assert_eq!(env.resolve("${a${b}}"), "nested}");
    assert_eq!(env.resolve("${}"), "");
    env.set("", "empty key");
    assert_eq!(env.resolve("${}"), "empty key");
}

#[test]
fn resolve_does_not_rescan_substituted_text() {
    let mut env = Environment::new();
    env.set("outer", "${inner}");
    env.set("inner", "never");
    assert_eq!(env.resolve("${outer}"), "${inner}");
}

#[test]
fn resolve_handles_text_beyond_ascii() {
    let mut env = Environment::new();
    env.set("južni", "véd");
    assert_eq!(env.resolve("→${južni}←"), "→véd←");
}

#[test]
fn clone_keeps_the_bindings_apart() {
    let mut env = Environment::new();
    env.set("k", "v");
    let mut copy = env.clone();
    copy.set("k", "w");
    assert_eq!(env.get("k"), Some(&String::from("v")));
    assert_eq!(copy.get("k"), Some(&String::from("w")));
}
