use zandronum_launcher::catalog::Category;
use zandronum_launcher::command::SpawnRequest;
use zandronum_launcher::controller::{Controller, LaunchDecision};
use zandronum_launcher::environment::Environment;
use zandronum_launcher::files::FileSnapshot;
use zandronum_launcher::settings::{SettingsRecord, SettingsStore};

fn list(items: &[&str]) -> Vec<String> {
    items.iter().map(|s| s.to_string()).collect()
}

fn stored(selected: &str) -> SettingsStore {
    let mut record = SettingsRecord::defaults();
    record.selected_iwad = selected.to_string();
    record.iwad_folder = "/w".to_string();
    record.executable_file = "/tmp/z".to_string();
    record.mods_folder = "/m".to_string();
    record.pwad_files = list(&["/p/a.wad"]);
    record.extra_parameters = "-fast".to_string();
    let mut store = SettingsStore::open(record);
    store.delay();
    store
}

fn folders() -> FileSnapshot {
    let mut files = FileSnapshot::new();
    files.record("/w");
    files.record("/v");
    files.record("/home/doomguy/.config/zandronum");
    files
}

fn home() -> Environment {
    let mut env = Environment::new();
    env.set("HOME", "/home/doomguy");
    env
}

fn start(store: &SettingsStore, entries: &[&str]) -> Controller {
    Controller::startup(store, &home(), &folders(), &list(entries))
}

fn shown(controller: &Controller) -> Vec<String> {
    controller.discovered().iter().map(|iwad| iwad.name().to_string()).collect()
}

#[test]
fn startup_keeps_a_discovered_selection() {
    let controller = start(&stored("doom2.wad"), &["/w/DOOM2.WAD", "/w/tnt.wad"]);
    assert_eq!(shown(&controller), vec!["Doom II: Hell on Earth", "Final Doom - TNT: Evilution"]);
    assert_eq!(controller.state().selected_iwad(), "doom2.wad");
    assert!(controller.launch_enabled());
    assert_eq!(controller.state().iwad_folder(), "/w");
    assert_eq!(controller.state().extra_params(), "-fast");
    assert_eq!(controller.state().pwad_files(), &list(&["/p/a.wad"]));
}

#[test]
fn startup_drops_a_selection_that_was_not_discovered() {
    let controller = start(&stored("doom2.wad"), &["/w/tnt.wad"]);
    assert_eq!(controller.state().selected_iwad(), "");
    assert!(!controller.launch_enabled());
    let nothing = start(&stored("nerve.wad"), &["/w/nerve.wad"]);
    assert_eq!(nothing.state().selected_iwad(), "");
    assert!(nothing.discovered().is_empty());
    let unset = start(&stored(""), &["/w/tnt.wad"]);
    assert_eq!(unset.state().selected_iwad(), "");
    assert!(!unset.launch_enabled());
}

#[test]
fn startup_keeps_paths_as_stored() {
    let controller = Controller::startup(&SettingsStore::new(), &home(), &folders(), &Vec::new());
    assert_eq!(controller.state().exec_file(), "$HOME/.config/zandronum/zandronum");
    assert_eq!(controller.state().iwad_folder(), "$HOME/.config/zandronum");
    assert_eq!(controller.state().pwad_folder(), "$HOME/.config/zandronum");
    assert_eq!(controller.state().mods_folder(), "$HOME/.config/zandronum");
}

#[test]
fn a_new_iwad_folder_is_discovered_anew() {
    let mut controller = start(&stored("doom2.wad"), &["/w/doom2.wad", "/w/tnt.wad"]);
    controller.iwad_folder_changed("/v", &home(), &folders(), &list(&["/v/Doom2.wad", "/v/hexen.wad"]));
    assert_eq!(controller.state().iwad_folder(), "/v");
    assert_eq!(shown(&controller), vec!["Doom II: Hell on Earth", "Hexen"]);
    assert_eq!(controller.state().selected_iwad(), "doom2.wad");
    assert!(controller.launch_enabled());
    controller.iwad_folder_changed("$HOME/empty", &home(), &folders(), &Vec::new());
    assert_eq!(controller.state().iwad_folder(), "$HOME/empty");
    assert!(controller.discovered().is_empty());
    assert_eq!(controller.state().selected_iwad(), "");
    assert!(!controller.launch_enabled());
    assert_eq!(controller.state().extra_params(), "-fast");
}

#[test]
fn a_new_pwad_folder_moves_only_the_picker() {
    let mut controller = start(&stored("tnt.wad"), &["/w/tnt.wad"]);
    let mut env = Environment::new();
    env.set("HOME", "/home/doomguy");
    let mut files = FileSnapshot::new();
    assert_eq!(controller.pwad_folder_changed("$HOME/pwads", &env, &files), None);
    assert_eq!(controller.state().pwad_folder(), "$HOME/pwads");
    assert_eq!(controller.state().selected_iwad(), "tnt.wad");
    assert_eq!(controller.state().iwad_folder(), "/w");
    assert_eq!(shown(&controller), vec!["Final Doom - TNT: Evilution"]);
    assert_eq!(controller.pwad_picker_folder(&env, &files), None);
    files.record("/home/doomguy/pwads");
    assert_eq!(controller.pwad_picker_folder(&env, &files), Some("/home/doomguy/pwads".to_string()));
    assert_eq!(
        controller.pwad_folder_changed("${HOME}/pwads", &env, &files),
        Some("/home/doomguy/pwads".to_string())
    );
    assert_eq!(controller.state().pwad_folder(), "${HOME}/pwads");
    files.record("");
    assert_eq!(controller.pwad_folder_changed("", &env, &files), None);
    assert_eq!(controller.pwad_picker_folder(&env, &files), None);
}

#[test]
fn a_folder_that_does_not_exist_has_no_iwads() {
    let mut controller = start(&stored("tnt.wad"), &["/w/tnt.wad"]);
    assert_eq!(shown(&controller), vec!["Final Doom - TNT: Evilution"]);
    controller.iwad_folder_changed("/gone", &home(), &folders(), &list(&["/gone/tnt.wad"]));
    assert_eq!(controller.state().iwad_folder(), "/gone");
    assert!(controller.discovered().is_empty());
    assert_eq!(controller.state().selected_iwad(), "");
    controller.iwad_folder_changed("", &home(), &folders(), &list(&["/tnt.wad"]));
    assert!(controller.discovered().is_empty());
    controller.iwad_folder_changed("$NOWHERE", &home(), &folders(), &list(&["/w/tnt.wad"]));
    assert!(controller.discovered().is_empty());
    let mut record = SettingsRecord::defaults();
    record.selected_iwad = "tnt.wad".to_string();
    let unexpanded = Controller::startup(
        &SettingsStore::open(record),
        &Environment::new(),
        &folders(),
        &list(&["/home/doomguy/.config/zandronum/tnt.wad"]),
    );
    assert!(unexpanded.discovered().is_empty());
    assert_eq!(unexpanded.state().selected_iwad(), "");
}

#[test]
fn only_discovered_iwads_can_be_selected() {
    let mut controller = start(&stored(""), &["/w/tnt.wad", "/w/hexen.wad"]);
    assert!(!controller.select_iwad("doom.wad"));
    assert_eq!(controller.state().selected_iwad(), "");
    assert!(controller.select_iwad("hexen.wad"));
    assert_eq!(controller.state().selected_iwad(), "hexen.wad");
    assert!(!controller.select_iwad("HEXEN.WAD"));
    assert!(!controller.select_iwad(""));
    assert_eq!(controller.state().selected_iwad(), "hexen.wad");
}

#[test]
fn reset_parameters_selects_the_first_discovered() {
    let mut controller =
        start(&stored("tnt.wad"), &["/w/tnt.wad", "/w/doom2.wad", "/w/hexen.wad"]);
    controller.set_mods(Category::Hud, false);
    controller.reset_parameters();
    assert_eq!(controller.state().selected_iwad(), "doom2.wad");
    assert!(controller.state().pwad_files().is_empty());
    assert_eq!(controller.state().extra_params(), "");
    assert_eq!(controller.state().exec_file(), "/tmp/z");
    assert_eq!(controller.state().iwad_folder(), "/w");
    assert!(!controller.state().mods().hud);
    let mut empty = start(&stored(""), &[]);
    empty.set_extra_params("-fast");
    empty.reset_parameters();
    assert_eq!(empty.state().selected_iwad(), "");
    assert_eq!(empty.state().extra_params(), "");
}

#[test]
fn reset_preferences_restores_paths_and_toggles() {
    let mut controller = start(&stored("tnt.wad"), &["/w/tnt.wad"]);
    controller.pwad_folder_changed("/p", &Environment::new(), &FileSnapshot::new());
    for category in [Category::Textures, Category::Objects, Category::Monsters, Category::Menus, Category::Hud] {
        controller.set_mods(category, false);
    }
    controller.reset_preferences(&home(), &folders(), &list(&["/home/doomguy/.config/zandronum/tnt.wad"]));
    let state = controller.state();
    assert_eq!(state.exec_file(), "$HOME/.config/zandronum/zandronum");
    assert_eq!(state.iwad_folder(), "$HOME/.config/zandronum");
    assert_eq!(state.pwad_folder(), "$HOME/.config/zandronum");
    assert_eq!(state.mods_folder(), "$HOME/.config/zandronum");
    let mods = state.mods();
    assert!(mods.textures && mods.objects && mods.monsters && mods.menus && mods.hud);
    assert_eq!(state.selected_iwad(), "tnt.wad");
    assert_eq!(state.extra_params(), "-fast");
    assert_eq!(state.pwad_files(), &list(&["/p/a.wad"]));
    controller.reset_preferences(&home(), &folders(), &Vec::new());
    assert_eq!(controller.state().selected_iwad(), "");
}

#[test]
fn launch_proceeds_or_says_why_not() {
    let mut controller = start(&stored("hexen.wad"), &["/w/hexen.wad"]);
    let env = Environment::new();
    let mut files = FileSnapshot::new();
    assert_eq!(
        controller.launch(&env, &files),
        LaunchDecision::Refuse { message: "Zandronum executable file not found".to_string() }
    );
    files.record("/tmp/z");
    assert_eq!(
        controller.launch(&env, &files),
        LaunchDecision::Refuse { message: "IWAD file 'hexen.wad' not found".to_string() }
    );
    assert_eq!(
        controller.paths_to_probe(&env),
        list(&["/tmp/z", "/w/hexen.wad", "/p/a.wad", "/m/hires-hexen.pk3"])
    );
    for path in controller.paths_to_probe(&env) {
        files.record(&path);
    }
    assert_eq!(
        controller.launch(&env, &files),
        LaunchDecision::Proceed {
            spawn: Some(SpawnRequest {
                program: "/tmp/z".to_string(),
                args: list(&[
                    "-iwad",
                    "/w/hexen.wad",
                    "-file",
                    "/p/a.wad",
                    "-fast",
                    "-file",
                    "/m/hires-hexen.pk3",
                ]),
            }),
        }
    );
    controller.iwad_folder_changed("/w", &home(), &folders(), &Vec::new());
    assert_eq!(
        controller.launch(&env, &files),
        LaunchDecision::Refuse { message: "No IWAD file specified".to_string() }
    );
}

#[test]
fn shutdown_writes_everything_back() {
    let mut store = stored("tnt.wad");
    let mut controller = start(&store, &["/w/tnt.wad", "/w/doom.wad"]);
    assert!(controller.select_iwad("doom.wad"));
    controller.set_pwad_files(&list(&["/x.wad", "$HOME/y.wad"]));
    controller.set_extra_params("-nomusic");
    controller.set_exec_file("$HOME/z");
    controller.set_mods_folder("/mods");
    controller.pwad_folder_changed("/pw", &Environment::new(), &FileSnapshot::new());
    controller.set_mods(Category::Menus, false);
    assert_eq!(store.committed().selected_iwad, "tnt.wad");
    controller.shutdown(&mut store);
    let durable = store.committed().clone();
    assert_eq!(durable.selected_iwad, "doom.wad");
    assert_eq!(durable.pwad_files, list(&["/x.wad", "$HOME/y.wad"]));
    assert_eq!(durable.extra_parameters, "-nomusic");
    assert_eq!(durable.executable_file, "$HOME/z");
    assert_eq!(durable.iwad_folder, "/w");
    assert_eq!(durable.pwad_folder, "/pw");
    assert_eq!(durable.mods_folder, "/mods");
    assert!(durable.enable_texture_mods && !durable.enable_menu_mods);

    let again = start(&SettingsStore::open(durable), &["/w/tnt.wad", "/w/doom.wad"]);
    assert_eq!(again.state().selected_iwad(), "doom.wad");
    assert_eq!(again.state().pwad_files(), controller.state().pwad_files());
    assert_eq!(again.state().extra_params(), "-nomusic");
    assert_eq!(again.state().exec_file(), "$HOME/z");
    assert_eq!(again.state().pwad_folder(), "/pw");
    assert_eq!(again.state().mods_folder(), "/mods");
    assert_eq!(again.state().mods(), controller.state().mods());
}
