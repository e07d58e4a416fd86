use zandronum_launcher::environment::Environment;
use zandronum_launcher::file_select::{decimal_text, icon_name, selection_label, SelectType};
use zandronum_launcher::files::{existing_path, join_path, FileSnapshot};

fn paths_of(items: &[&str]) -> Vec<String> {
    items.iter().map(|s| s.to_string()).collect()
}

#[test]
fn select_type_defaults_to_file() {
    assert_eq!(SelectType::default(), SelectType::File);
}

#[test]
fn icon_follows_the_kind_unless_one_is_given() {
    assert_eq!(icon_name(SelectType::Folder, None), "folder-symbolic");
    assert_eq!(icon_name(SelectType::File, None), "document-open-symbolic");
    assert_eq!(icon_name(SelectType::Multiple, None), "document-open-symbolic");
    assert_eq!(icon_name(SelectType::Folder, Some("applications-games-symbolic")), "applications-games-symbolic");
    assert_eq!(icon_name(SelectType::File, Some("x")), "x");
}

#[test]
fn decimal_text_writes_numbers() {
    assert_eq!(decimal_text(0), "0");
    assert_eq!(decimal_text(7), "7");
    assert_eq!(decimal_text(10), "10");
    assert_eq!(decimal_text(42), "42");
    assert_eq!(decimal_text(1009), "1009");
    assert_eq!(decimal_text(usize::MAX), usize::MAX.to_string());
    for n in 0..300usize {
        assert_eq!(decimal_text(n), n.to_string());
    }
}

#[test]
fn label_sums_up_the_selection() {
    assert_eq!(selection_label(&paths_of(&[])), "(None)");
    assert_eq!(selection_label(&paths_of(&["/p/a.wad"])), "a.wad");
    assert_eq!(selection_label(&paths_of(&["a.wad"])), "a.wad");
    assert_eq!(selection_label(&paths_of(&["/home/doomguy/"])), "/home/doomguy/");
    assert_eq!(selection_label(&paths_of(&[""])), "(None)");
    assert_eq!(selection_label(&paths_of(&["/p/a.wad", "/p/b.wad"])), "(2 files)");
    let many: Vec<String> = (0..12).map(|n| format!("/p/{n}.wad")).collect();
    assert_eq!(selection_label(&many), "(12 files)");
}

#[test]
fn existing_path_resolves_and_checks() {
    let mut env = Environment::new();
    env.set("HOME", "/home/doomguy");
    let mut files = FileSnapshot::new();
    files.record("/home/doomguy/pwads");
    assert_eq!(existing_path("$HOME/pwads", &env, &files), Some("/home/doomguy/pwads".to_string()));
    assert_eq!(existing_path("/home/doomguy/pwads", &env, &files), Some("/home/doomguy/pwads".to_string()));
    assert_eq!(existing_path("$HOME/iwads", &env, &files), None);
    assert_eq!(existing_path("$NOWHERE/pwads", &env, &files), None);
    assert_eq!(existing_path("", &env, &files), None);
}

#[test]
fn join_path_agrees_with_the_standard_library() {
    for folder in ["", "/", "/w", "/w/", "w", "w/x", "/my games", "/w//"] {
        for name in ["doom2.wad", "", "/abs.wad", "sub/x.pk3", "a b.wad"] {
            assert_eq!(
                join_path(folder, name),
                std::path::Path::new(folder).join(name).display().to_string(),
                "joining {folder:?} and {name:?}"
            );
        }
    }
}
