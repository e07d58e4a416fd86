use zandronum_launcher::environment::{expand, has_dollar, Environment};
use zandronum_launcher::files::{basename, join_path, path_exists, FileSnapshot};
use zandronum_launcher::text::{eq_ignore_ascii_case, same_text, text_precedes, to_lower_ascii};

fn home() -> Environment {
    let mut env = Environment::new();
    env.set("HOME", "/home/doomguy");
    env
}

#[test]
fn expand_replaces_both_forms_of_a_reference() {
    let env = home();
    assert_eq!(expand("$HOME/.config/zandronum", &env), "/home/doomguy/.config/zandronum");
    assert_eq!(expand("${HOME}/.config/zandronum", &env), "/home/doomguy/.config/zandronum");
    assert_eq!(expand("/a/$HOME/b/${HOME}c", &env), "/a//home/doomguy/b//home/doomguyc");
}

#[test]
fn expand_leaves_the_path_unchanged_when_a_lookup_fails() {
    let env = home();
    assert_eq!(expand("$NOWHERE/x", &env), "$NOWHERE/x");
    assert_eq!(expand("$HOME/$NOWHERE", &env), "$HOME/$NOWHERE");
    assert_eq!(expand("${NOWHERE}", &Environment::new()), "${NOWHERE}");
}

#[test]
fn expand_keeps_a_path_without_references() {
    let env = home();
    assert_eq!(expand("/tmp/z", &env), "/tmp/z");
    assert_eq!(expand("", &env), "");
    assert_eq!(expand("HOME", &env), "HOME");
}

#[test]
fn expand_twice_is_expand_once_for_plain_values() {
    let env = home();
    for path in ["$HOME/a", "${HOME}", "/plain", "$NOWHERE", ""] {
        let once = expand(path, &env);
        assert_eq!(expand(&once, &env), once);
    }
}

#[test]
fn expand_twice_differs_when_a_value_holds_a_reference() {
    let mut env = Environment::new();
    env.set("A", "$B");
    env.set("B", "x");
    assert_eq!(expand("$A", &env), "$B");
    assert_eq!(expand(&expand("$A", &env), &env), "x");
}

#[test]
fn environment_returns_the_latest_definition() {
    let mut env = Environment::new();
    assert_eq!(env.var("A"), None);
    env.set("A", "1");
    env.set("B", "2");
    env.set("A", "3");
    assert_eq!(env.var("A"), Some("3".to_string()));
    assert_eq!(env.var("B"), Some("2".to_string()));
    assert_eq!(env.var("a"), None);
    assert_eq!(env.lookup("A").ok(), Some(Some("3".to_string())));
    assert!(env.lookup("C").is_err());
    assert_eq!(expand("$A$B", &env), "32");
}

#[test]
fn has_dollar_finds_the_sign() {
    assert!(has_dollar("$"));
    assert!(has_dollar("a$b"));
    assert!(!has_dollar(""));
    assert!(!has_dollar("/tmp/z"));
}

#[test]
fn snapshot_knows_only_what_was_recorded() {
    let mut files = FileSnapshot::new();
    assert!(!files.contains("/tmp/z"));
    files.record("/tmp/z");
    files.record("/w");
    assert!(files.contains("/tmp/z"));
    assert!(files.contains("/w"));
    assert!(!files.contains("/tmp/Z"));
    assert!(!files.contains("/tmp"));
    assert!(!files.contains(""));
}

#[test]
fn path_exists_expands_before_it_looks() {
    let env = home();
    let mut files = FileSnapshot::new();
    files.record("/home/doomguy/.config/zandronum");
    assert!(path_exists("$HOME/.config/zandronum", &env, &files));
    assert!(path_exists("/home/doomguy/.config/zandronum", &env, &files));
    assert!(!path_exists("$HOME/.config", &env, &files));
    assert!(!path_exists("$NOWHERE", &env, &files));
    files.record("$NOWHERE");
    assert!(path_exists("$NOWHERE", &env, &files));
}

#[test]
fn join_path_puts_one_separator_between() {
    assert_eq!(join_path("/w", "doom2.wad"), "/w/doom2.wad");
    assert_eq!(join_path("/w/", "doom2.wad"), "/w/doom2.wad");
    assert_eq!(join_path("", "doom2.wad"), "doom2.wad");
    assert_eq!(join_path("/w", "/abs/doom2.wad"), "/abs/doom2.wad");
    assert_eq!(join_path("/w", ""), "/w/");
    assert_eq!(join_path("my games", "doom.wad"), "my games/doom.wad");
    assert_eq!(
        join_path("/w", "doom2.wad"),
        std::path::Path::new("/w").join("doom2.wad").display().to_string()
    );
}

#[test]
fn basename_is_what_follows_the_last_separator() {
    assert_eq!(basename("/w/Doom.WAD"), "Doom.WAD");
    assert_eq!(basename("doom.wad"), "doom.wad");
    assert_eq!(basename("/w/sub/"), "");
    assert_eq!(basename(""), "");
    assert_eq!(basename("/"), "");
    assert_eq!(basename("a/b/c"), "c");
}

#[test]
fn text_comparisons() {
    assert_eq!(to_lower_ascii('A'), 'a');
    assert_eq!(to_lower_ascii('Z'), 'z');
    assert_eq!(to_lower_ascii('a'), 'a');
    assert_eq!(to_lower_ascii('['), '[');
    assert_eq!(to_lower_ascii('É'), 'É');
    assert!(same_text("abc", "abc"));
    assert!(!same_text("abc", "abd"));
    assert!(!same_text("abc", "ab"));
    assert!(eq_ignore_ascii_case("DOOM.WAD", "doom.wad"));
    assert!(!eq_ignore_ascii_case("DOOM.WAD", "doom2.wad"));
    assert!(!eq_ignore_ascii_case("É", "é"));
    assert!(text_precedes("Freedoom Phase 2", "The Ultimate Doom"));
    assert!(!text_precedes("The Ultimate Doom", "Freedoom Phase 2"));
    assert!(text_precedes("Doom", "Doom II"));
    assert!(!text_precedes("Doom", "Doom"));
    assert!(text_precedes("", "a"));
    assert!(text_precedes("Z", "a"));
    for (a, b) in [("Heretic", "Hexen"), ("Hexen", "Heretic"), ("a", "é"), ("é", "z"), ("", "")] {
        assert_eq!(text_precedes(a, b), a < b);
    }
}
