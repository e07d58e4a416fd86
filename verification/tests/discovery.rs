use zandronum_launcher::catalog::{catalog, IWadObject};
use zandronum_launcher::discovery::{discover, discover_in, is_present, is_wad_file, search_pattern};
use zandronum_launcher::environment::Environment;
use zandronum_launcher::files::FileSnapshot;

fn entries(paths: &[&str]) -> Vec<String> {
    paths.iter().map(|p| p.to_string()).collect()
}

fn labels(found: &Vec<IWadObject>) -> Vec<String> {
    found.iter().map(|iwad| iwad.name().to_string()).collect()
}

#[test]
fn discovery_ignores_case() {
    let found = discover(&entries(&["/w/DOOM.WAD"]), &catalog());
    assert_eq!(labels(&found), vec!["The Ultimate Doom"]);
    assert_eq!(found[0].iwad(), "doom.wad");
}

#[test]
fn discovery_sorts_by_display_name() {
    let found = discover(&entries(&["/w/Doom.WAD", "/w/FREEDOOM2.wad"]), &catalog());
    assert_eq!(labels(&found), vec!["Freedoom Phase 2", "The Ultimate Doom"]);
}

#[test]
fn discovery_of_every_iwad_is_alphabetical() {
    let all = entries(&[
        "/w/doom.wad",
        "/w/doom2.wad",
        "/w/plutonia.wad",
        "/w/tnt.wad",
        "/w/freedoom1.wad",
        "/w/freedoom2.wad",
        "/w/heretic.wad",
        "/w/hexen.wad",
    ]);
    let found = discover(&all, &catalog());
    assert_eq!(
        labels(&found),
        vec![
            "Doom II: Hell on Earth",
            "Final Doom - TNT: Evilution",
            "Final Doom - The Plutonia Experiment",
            "Freedoom Phase 1",
            "Freedoom Phase 2",
            "Heretic",
            "Hexen",
            "The Ultimate Doom",
        ]
    );
    let mut sorted = labels(&found);
    sorted.sort();
    assert_eq!(labels(&found), sorted);
}

#[test]
fn discovery_drops_what_the_catalog_does_not_know() {
    let found = discover(
        &entries(&["/w/nerve.wad", "/w/readme.txt", "/w/doom.wad.bak", "/w/hexen.wad", "/w/doom"]),
        &catalog(),
    );
    assert_eq!(labels(&found), vec!["Hexen"]);
}

#[test]
fn discovery_returns_a_descriptor_once() {
    let found = discover(&entries(&["/w/doom.wad", "/w/DOOM.WAD", "/w/Doom.wad"]), &catalog());
    assert_eq!(labels(&found), vec!["The Ultimate Doom"]);
}

#[test]
fn discovery_of_nothing_is_empty() {
    assert!(discover(&entries(&[]), &catalog()).is_empty());
    assert!(discover(&entries(&["/w/doom.wad"]), &Vec::new()).is_empty());
}

#[test]
fn discovery_looks_at_the_last_component_only() {
    let found = discover(&entries(&["/doom.wad/other.wad", "tnt.wad", "/w/sub/heretic.wad"]), &catalog());
    assert_eq!(labels(&found), vec!["Final Doom - TNT: Evilution", "Heretic"]);
}

#[test]
fn discovery_wants_the_wad_suffix() {
    let odd = vec![IWadObject::new("Odd", "game.pk3", &[], &[], &[], &[], &[])];
    assert!(discover(&entries(&["/w/game.pk3"]), &odd).is_empty());
    assert!(is_wad_file("a.wad"));
    assert!(is_wad_file(".WAD"));
    assert!(is_wad_file("x.WaD"));
    assert!(!is_wad_file("wad"));
    assert!(!is_wad_file("a.wad2"));
    assert!(!is_wad_file(""));
    assert!(is_present(&entries(&["/w/TNT.WAD"]), "tnt.wad"));
    assert!(!is_present(&entries(&["/w/TNT.WAD"]), "doom.wad"));
}

#[test]
fn discovery_keeps_equal_names_of_a_custom_list() {
    let list = vec![
        IWadObject::new("B", "b.wad", &[], &[], &[], &[], &[]),
        IWadObject::new("A", "a.wad", &[], &[], &[], &[], &[]),
        IWadObject::new("A", "c.wad", &[], &[], &[], &[], &[]),
    ];
    let found = discover(&entries(&["c.wad", "b.wad", "a.wad"]), &list);
    assert_eq!(labels(&found), vec!["A", "A", "B"]);
}

#[test]
fn search_pattern_names_the_wads_of_the_resolved_folder() {
    let mut env = Environment::new();
    env.set("HOME", "/home/doomguy");
    let mut files = FileSnapshot::new();
    files.record("/home/doomguy/.config/zandronum");
    files.record("/w");
    assert_eq!(
        search_pattern("$HOME/.config/zandronum", &env, &files),
        Some("/home/doomguy/.config/zandronum/*.wad".to_string())
    );
    assert_eq!(search_pattern("/w", &env, &files), Some("/w/*.wad".to_string()));
}

#[test]
fn search_pattern_wants_a_folder_that_exists() {
    let mut env = Environment::new();
    env.set("HOME", "/home/doomguy");
    env.set("EMPTY", "");
    let mut files = FileSnapshot::new();
    files.record("");
    files.record("/w");
    assert_eq!(search_pattern("", &env, &files), None);
    assert_eq!(search_pattern("$EMPTY", &env, &files), None);
    assert_eq!(search_pattern("/missing", &env, &files), None);
    assert_eq!(search_pattern("$HOME/.config/zandronum", &env, &files), None);
    assert_eq!(search_pattern("$NOWHERE", &env, &files), None);
}

#[test]
fn discover_in_wants_a_folder_that_exists() {
    let mut env = Environment::new();
    env.set("HOME", "/home/doomguy");
    let mut files = FileSnapshot::new();
    files.record("/home/doomguy/iwads");
    let found = entries(&["/home/doomguy/iwads/hexen.wad", "/home/doomguy/iwads/DOOM.wad"]);
    assert_eq!(
        labels(&discover_in("$HOME/iwads", &env, &files, &found, &catalog())),
        vec!["Hexen", "The Ultimate Doom"]
    );
    assert!(discover_in("$HOME/other", &env, &files, &found, &catalog()).is_empty());
    assert!(discover_in("", &env, &files, &found, &catalog()).is_empty());
    assert!(discover_in("$HOME/iwads", &Environment::new(), &files, &found, &catalog()).is_empty());
}
