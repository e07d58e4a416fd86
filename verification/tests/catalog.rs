use zandronum_launcher::catalog::{catalog, find_iwad, Category, IWadObject};

fn row(iwad: &IWadObject) -> (String, String, Vec<String>, Vec<String>, Vec<String>, Vec<String>, Vec<String>) {
    (
        iwad.name().to_string(),
        iwad.iwad().to_string(),
        iwad.companions(Category::Textures).clone(),
        iwad.companions(Category::Objects).clone(),
        iwad.companions(Category::Monsters).clone(),
        iwad.companions(Category::Menus).clone(),
        iwad.companions(Category::Hud).clone(),
    )
}

fn expected(
    name: &str,
    iwad: &str,
    textures: &[&str],
    objects: &[&str],
    monsters: &[&str],
    menus: &[&str],
    hud: &[&str],
) -> (String, String, Vec<String>, Vec<String>, Vec<String>, Vec<String>, Vec<String>) {
    let own = |names: &[&str]| names.iter().map(|n| n.to_string()).collect::<Vec<String>>();
    (name.to_string(), iwad.to_string(), own(textures), own(objects), own(monsters), own(menus), own(hud))
}

#[test]
fn catalog_holds_exactly_the_eight_entries() {
    let iwads = catalog();
    assert_eq!(iwads.len(), 8);
    assert_eq!(
        row(&iwads[0]),
        expected(
            "The Ultimate Doom",
            "doom.wad",
            &["hires-doom-a.pk3", "hires-doom-b.pk3"],
            &["objects.pk3"],
            &["monsters.pk3"],
            &["jfo-udoom.pk3"],
            &["hud-stuff.pk3"],
        )
    );
    assert_eq!(
        row(&iwads[1]),
        expected(
            "Doom II: Hell on Earth",
            "doom2.wad",
            &["hires-doom-a.pk3", "hires-doom-b.pk3", "hires-doom2.pk3"],
            &["objects.pk3"],
            &["monsters.pk3"],
            &["jfo-doom2.pk3"],
            &["hud-stuff.pk3"],
        )
    );
    assert_eq!(
        row(&iwads[2]),
        expected(
            "Final Doom - The Plutonia Experiment",
            "plutonia.wad",
            &["hires-doom-a.pk3", "hires-doom-b.pk3", "hires-doom2.pk3", "hires-plut.pk3"],
            &["objects.pk3"],
            &["monsters.pk3"],
            &["jfo-plut.pk3"],
            &["hud-stuff.pk3"],
        )
    );
    assert_eq!(
        row(&iwads[3]),
        expected(
            "Final Doom - TNT: Evilution",
            "tnt.wad",
            &["hires-doom-a.pk3", "hires-doom-b.pk3", "hires-doom2.pk3", "hires-tnt.pk3"],
            &["objects.pk3"],
            &["monsters.pk3"],
            &["jfo-tnt.pk3"],
            &["hud-stuff.pk3"],
        )
    );
    assert_eq!(row(&iwads[4]), expected("Freedoom Phase 1", "freedoom1.wad", &[], &[], &[], &[], &[]));
    assert_eq!(row(&iwads[5]), expected("Freedoom Phase 2", "freedoom2.wad", &[], &[], &[], &[], &[]));
    assert_eq!(
        row(&iwads[6]),
        expected("Heretic", "heretic.wad", &["hires-heretic.pk3"], &[], &[], &[], &[])
    );
    assert_eq!(row(&iwads[7]), expected("Hexen", "hexen.wad", &["hires-hexen.pk3"], &[], &[], &[], &[]));
}

#[test]
fn catalog_is_the_same_on_every_call() {
    let first: Vec<_> = catalog().iter().map(row).collect();
    let second: Vec<_> = catalog().iter().map(row).collect();
    assert_eq!(first, second);
}

#[test]
fn catalog_filenames_are_unique_and_not_empty() {
    let iwads = catalog();
    for i in 0..iwads.len() {
        assert!(!iwads[i].iwad().is_empty());
        for j in (i + 1)..iwads.len() {
            assert_ne!(iwads[i].iwad(), iwads[j].iwad());
        }
    }
}

#[test]
fn new_keeps_what_it_was_given() {
    let iwad = IWadObject::new("Name", "file.wad", &["a", "b"], &["c"], &[], &["d"], &["e", "f"]);
    assert_eq!(
        row(&iwad),
        expected("Name", "file.wad", &["a", "b"], &["c"], &[], &["d"], &["e", "f"])
    );
}

#[test]
fn clone_is_equal_field_for_field() {
    let iwads = catalog();
    assert_eq!(row(&iwads[2].clone()), row(&iwads[2]));
}

#[test]
fn find_iwad_is_exact_and_takes_the_first() {
    let iwads = catalog();
    assert_eq!(find_iwad(&iwads, "doom.wad"), Some(0));
    assert_eq!(find_iwad(&iwads, "hexen.wad"), Some(7));
    assert_eq!(find_iwad(&iwads, "DOOM.WAD"), None);
    assert_eq!(find_iwad(&iwads, ""), None);
    assert_eq!(find_iwad(&iwads, "doom3.wad"), None);
    let twice = vec![
        IWadObject::new("First", "same.wad", &[], &[], &[], &[], &[]),
        IWadObject::new("Second", "same.wad", &[], &[], &[], &[], &[]),
    ];
    assert_eq!(find_iwad(&twice, "same.wad"), Some(0));
}
