use zandronum_launcher::catalog::{catalog, Category};
use zandronum_launcher::command::{
    command_line, companion_files, launch, paths_to_probe, resolved_mods, resolved_pwads,
    spawn_request, LaunchError, SpawnRequest,
};
use zandronum_launcher::environment::Environment;
use zandronum_launcher::files::FileSnapshot;
use zandronum_launcher::state::LauncherState;

fn owned(items: &[&str]) -> Vec<String> {
    items.iter().map(|s| s.to_string()).collect()
}

fn happy_state() -> LauncherState {
    let mut state = LauncherState::new();
    state.set_exec_file("/tmp/z");
    state.set_iwad_folder("/w");
    assert!(state.select_iwad("doom2.wad"));
    state.set_pwad_files(&owned(&["/p/a.wad"]));
    state.set_extra_params("-skill 3");
    state.set_mods_folder("/m");
    state
}

fn everything_present() -> FileSnapshot {
    let mut files = FileSnapshot::new();
    for path in [
        "/tmp/z",
        "/w/doom2.wad",
        "/p/a.wad",
        "/m/hires-doom-a.pk3",
        "/m/hires-doom-b.pk3",
        "/m/hires-doom2.pk3",
        "/m/objects.pk3",
        "/m/monsters.pk3",
        "/m/jfo-doom2.pk3",
        "/m/hud-stuff.pk3",
    ] {
        files.record(path);
    }
    files
}

fn argv(request: Option<SpawnRequest>) -> Vec<String> {
    let request = request.unwrap();
    let mut all = vec![request.program];
    all.extend(request.args);
    all
}

#[test]
fn happy_path() {
    let env = Environment::new();
    let result = launch(&happy_state(), &catalog(), &env, &everything_present());
    assert_eq!(
        argv(result.unwrap()),
        owned(&[
            "/tmp/z",
            "-iwad",
            "/w/doom2.wad",
            "-file",
            "/p/a.wad",
            "-skill",
            "3",
            "-file",
            "/m/hires-doom-a.pk3",
            "-file",
            "/m/hires-doom-b.pk3",
            "-file",
            "/m/hires-doom2.pk3",
            "-file",
            "/m/objects.pk3",
            "-file",
            "/m/monsters.pk3",
            "-file",
            "/m/jfo-doom2.pk3",
            "-file",
            "/m/hud-stuff.pk3",
        ])
    );
}

#[test]
fn happy_path_command_line_is_exact() {
    let env = Environment::new();
    assert_eq!(
        command_line(&happy_state(), &catalog(), &env, &everything_present()),
        Ok("/tmp/z -iwad \"/w/doom2.wad\" -file \"/p/a.wad\" -skill 3 -file \"/m/hires-doom-a.pk3\" \
            -file \"/m/hires-doom-b.pk3\" -file \"/m/hires-doom2.pk3\" -file \"/m/objects.pk3\" \
            -file \"/m/monsters.pk3\" -file \"/m/jfo-doom2.pk3\" -file \"/m/hud-stuff.pk3\""
            .to_string())
    );
}

#[test]
fn no_iwad() {
    let mut state = happy_state();
    state.clear_selection();
    let env = Environment::new();
    assert_eq!(
        launch(&state, &catalog(), &env, &everything_present()),
        Err(LaunchError::NoIwadSelected)
    );
    assert_eq!(
        command_line(&state, &catalog(), &env, &everything_present()),
        Err(LaunchError::NoIwadSelected)
    );
}

#[test]
fn missing_exec() {
    let mut state = happy_state();
    state.set_exec_file("/nope");
    let env = Environment::new();
    assert_eq!(
        launch(&state, &catalog(), &env, &everything_present()),
        Err(LaunchError::ExecutableMissing)
    );
}

#[test]
fn missing_exec_comes_before_no_iwad() {
    let mut state = happy_state();
    state.set_exec_file("/nope");
    state.clear_selection();
    let env = Environment::new();
    assert_eq!(
        launch(&state, &catalog(), &env, &everything_present()),
        Err(LaunchError::ExecutableMissing)
    );
}

#[test]
fn missing_iwad_names_the_file() {
    let mut state = happy_state();
    assert!(state.select_iwad("tnt.wad"));
    let env = Environment::new();
    assert_eq!(
        launch(&state, &catalog(), &env, &everything_present()),
        Err(LaunchError::IwadMissing("tnt.wad".to_string()))
    );
}

#[test]
fn error_messages() {
    assert_eq!(LaunchError::ExecutableMissing.message(), "Zandronum executable file not found");
    assert_eq!(LaunchError::NoIwadSelected.message(), "No IWAD file specified");
    assert_eq!(
        LaunchError::IwadMissing("tnt.wad".to_string()).message(),
        "IWAD file 'tnt.wad' not found"
    );
}

#[test]
fn stale_pwad() {
    let mut state = LauncherState::new();
    state.set_exec_file("/tmp/z");
    state.set_iwad_folder("/w");
    assert!(state.select_iwad("freedoom1.wad"));
    state.set_pwad_files(&owned(&["/ok.wad", "/gone.wad"]));
    let mut files = FileSnapshot::new();
    files.record("/tmp/z");
    files.record("/w/freedoom1.wad");
    files.record("/ok.wad");
    let env = Environment::new();
    let words = argv(launch(&state, &catalog(), &env, &files).unwrap());
    assert_eq!(words, owned(&["/tmp/z", "-iwad", "/w/freedoom1.wad", "-file", "/ok.wad"]));
    assert!(!words.iter().any(|w| w.contains("gone")));
}

#[test]
fn a_missing_pwad_is_as_good_as_none() {
    let env = Environment::new();
    let files = everything_present();
    let mut with = happy_state();
    with.set_pwad_files(&owned(&["/gone.wad", "/p/a.wad", "/also/gone.wad"]));
    assert_eq!(
        command_line(&with, &catalog(), &env, &files),
        command_line(&happy_state(), &catalog(), &env, &files)
    );
}

#[test]
fn category_toggled_off() {
    let mut state = happy_state();
    state.set_mods(Category::Monsters, false);
    let env = Environment::new();
    let words = argv(launch(&state, &catalog(), &env, &everything_present()).unwrap());
    assert_eq!(
        words,
        owned(&[
            "/tmp/z",
            "-iwad",
            "/w/doom2.wad",
            "-file",
            "/p/a.wad",
            "-skill",
            "3",
            "-file",
            "/m/hires-doom-a.pk3",
            "-file",
            "/m/hires-doom-b.pk3",
            "-file",
            "/m/hires-doom2.pk3",
            "-file",
            "/m/objects.pk3",
            "-file",
            "/m/jfo-doom2.pk3",
            "-file",
            "/m/hud-stuff.pk3",
        ])
    );
    assert!(!words.contains(&"/m/monsters.pk3".to_string()));
}

#[test]
fn each_toggle_removes_its_own_companions() {
    let expected: [(Category, &[&str]); 5] = [
        (Category::Textures, &["hires-doom-a.pk3", "hires-doom-b.pk3", "hires-doom2.pk3"]),
        (Category::Objects, &["objects.pk3"]),
        (Category::Monsters, &["monsters.pk3"]),
        (Category::Menus, &["jfo-doom2.pk3"]),
        (Category::Hud, &["hud-stuff.pk3"]),
    ];
    let all = companion_files(&happy_state(), &catalog());
    assert_eq!(
        all,
        owned(&[
            "hires-doom-a.pk3",
            "hires-doom-b.pk3",
            "hires-doom2.pk3",
            "objects.pk3",
            "monsters.pk3",
            "jfo-doom2.pk3",
            "hud-stuff.pk3",
        ])
    );
    for (category, removed) in expected {
        let mut state = happy_state();
        state.set_mods(category, false);
        let kept: Vec<String> =
            all.iter().filter(|name| !removed.contains(&name.as_str())).cloned().collect();
        assert_eq!(companion_files(&state, &catalog()), kept);
    }
}

#[test]
fn missing_companions_are_skipped() {
    let mut files = FileSnapshot::new();
    for path in ["/tmp/z", "/w/doom2.wad", "/m/objects.pk3", "/m/hud-stuff.pk3"] {
        files.record(path);
    }
    let env = Environment::new();
    assert_eq!(
        command_line(&happy_state(), &catalog(), &env, &files),
        Ok("/tmp/z -iwad \"/w/doom2.wad\" -skill 3 -file \"/m/objects.pk3\" -file \"/m/hud-stuff.pk3\""
            .to_string())
    );
}

#[test]
fn freedoom_has_no_companions() {
    let mut state = happy_state();
    assert!(state.select_iwad("freedoom2.wad"));
    assert!(companion_files(&state, &catalog()).is_empty());
    assert!(resolved_mods(&state, &catalog(), &Environment::new()).is_empty());
}

#[test]
fn a_selection_outside_the_list_has_no_companions() {
    let state = happy_state();
    assert!(companion_files(&state, &Vec::new()).is_empty());
    let mut files = everything_present();
    files.record("/w/doom2.wad");
    assert_eq!(
        command_line(&state, &Vec::new(), &Environment::new(), &files),
        Ok("/tmp/z -iwad \"/w/doom2.wad\" -file \"/p/a.wad\" -skill 3".to_string())
    );
}

#[test]
fn stored_paths_are_expanded_on_use() {
    let mut env = Environment::new();
    env.set("HOME", "/home/doomguy");
    let mut state = LauncherState::new();
    assert!(state.select_iwad("heretic.wad"));
    state.set_pwad_files(&owned(&["$HOME/p.wad", "${HOME}/q.wad"]));
    let mut files = FileSnapshot::new();
    for path in [
        "/home/doomguy/.config/zandronum/zandronum",
        "/home/doomguy/.config/zandronum/heretic.wad",
        "/home/doomguy/p.wad",
        "/home/doomguy/.config/zandronum/hires-heretic.pk3",
    ] {
        files.record(path);
    }
    assert_eq!(
        argv(launch(&state, &catalog(), &env, &files).unwrap()),
        owned(&[
            "/home/doomguy/.config/zandronum/zandronum",
            "-iwad",
            "/home/doomguy/.config/zandronum/heretic.wad",
            "-file",
            "/home/doomguy/p.wad",
            "-file",
            "/home/doomguy/.config/zandronum/hires-heretic.pk3",
        ])
    );
    assert_eq!(
        resolved_pwads(&state, &env),
        owned(&["/home/doomguy/p.wad", "/home/doomguy/q.wad"])
    );
    assert_eq!(state.pwad_files(), &owned(&["$HOME/p.wad", "${HOME}/q.wad"]));
}

#[test]
fn an_undefined_variable_leaves_the_executable_missing() {
    let state = LauncherState::new();
    let mut files = FileSnapshot::new();
    files.record("/home/doomguy/.config/zandronum/zandronum");
    assert_eq!(
        launch(&state, &catalog(), &Environment::new(), &files),
        Err(LaunchError::ExecutableMissing)
    );
}

#[test]
fn quoted_paths_keep_their_spaces() {
    let mut state = happy_state();
    state.set_iwad_folder("/my games");
    state.set_pwad_files(&owned(&["/p/a b.wad"]));
    state.set_extra_params("-warp \"1 2\" +set name 'Doom Guy'");
    state.set_mods(Category::Textures, false);
    state.set_mods(Category::Objects, false);
    state.set_mods(Category::Monsters, false);
    state.set_mods(Category::Menus, false);
    state.set_mods(Category::Hud, false);
    let mut files = FileSnapshot::new();
    for path in ["/tmp/z", "/my games/doom2.wad", "/p/a b.wad"] {
        files.record(path);
    }
    assert_eq!(
        argv(launch(&state, &catalog(), &Environment::new(), &files).unwrap()),
        owned(&[
            "/tmp/z",
            "-iwad",
            "/my games/doom2.wad",
            "-file",
            "/p/a b.wad",
            "-warp",
            "1 2",
            "+set",
            "name",
            "Doom Guy",
        ])
    );
}

#[test]
fn an_unquoted_executable_splits_at_spaces() {
    let mut state = happy_state();
    state.set_exec_file("/opt/my z");
    state.set_pwad_files(&Vec::new());
    state.set_extra_params("");
    assert!(state.select_iwad("freedoom1.wad"));
    let mut files = FileSnapshot::new();
    files.record("/opt/my z");
    files.record("/w/freedoom1.wad");
    assert_eq!(
        argv(launch(&state, &catalog(), &Environment::new(), &files).unwrap()),
        owned(&["/opt/my", "z", "-iwad", "/w/freedoom1.wad"])
    );
}

#[test]
fn a_malformed_line_starts_nothing() {
    let mut state = happy_state();
    state.set_extra_params("\"unbalanced");
    assert_eq!(
        launch(&state, &catalog(), &Environment::new(), &everything_present()),
        Ok(None)
    );
}

#[test]
fn spawn_request_takes_the_first_word_as_program() {
    assert_eq!(spawn_request(None), None);
    assert_eq!(spawn_request(Some(Vec::new())), None);
    assert_eq!(
        spawn_request(Some(owned(&["z"]))),
        Some(SpawnRequest { program: "z".to_string(), args: Vec::new() })
    );
    assert_eq!(
        spawn_request(Some(owned(&["z", "-iwad", "x"]))),
        Some(SpawnRequest { program: "z".to_string(), args: owned(&["-iwad", "x"]) })
    );
}

#[test]
fn probes_cover_what_a_launch_reads() {
    let env = Environment::new();
    let probes = paths_to_probe(&happy_state(), &catalog(), &env);
    assert_eq!(
        probes,
        owned(&[
            "/tmp/z",
            "/w/doom2.wad",
            "/p/a.wad",
            "/m/hires-doom-a.pk3",
            "/m/hires-doom-b.pk3",
            "/m/hires-doom2.pk3",
            "/m/objects.pk3",
            "/m/monsters.pk3",
            "/m/jfo-doom2.pk3",
            "/m/hud-stuff.pk3",
        ])
    );
    let mut files = everything_present();
    let before = command_line(&happy_state(), &catalog(), &env, &files);
    files.record("/unrelated");
    files.record("/m/hires-tnt.pk3");
    assert_eq!(command_line(&happy_state(), &catalog(), &env, &files), before);
}
