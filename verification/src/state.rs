//! The choices a user has made: which IWAD, which patch files, which extra
//! parameters, where things live and which asset packs are wanted.

use vstd::prelude::*;
use crate::catalog::{catalog, find_iwad, is_catalog_filename, Category};
use crate::settings::{
    lemma_key_writes,
    lemma_keys,
    RecordView,
    SettingsStore,
    SettingsView,
    DEFAULT_EXECUTABLE,
    DEFAULT_FOLDER,
    KEY_ENABLE_HUD_MODS,
    KEY_ENABLE_MENU_MODS,
    KEY_ENABLE_MONSTER_MODS,
    KEY_ENABLE_OBJECT_MODS,
    KEY_ENABLE_TEXTURE_MODS,
    KEY_EXECUTABLE_FILE,
    KEY_EXTRA_PARAMETERS,
    KEY_IWAD_FOLDER,
    KEY_MODS_FOLDER,
    KEY_PWAD_FILES,
    KEY_PWAD_FOLDER,
    KEY_SELECTED_IWAD,
};
use crate::text::{clone_texts, texts};

verus! {

/// One switch per asset category.
#[derive(Clone, Copy, Debug, PartialEq, Eq, Structural)]
pub struct ModToggles {
    pub textures: bool,
    pub objects: bool,
    pub monsters: bool,
    pub menus: bool,
    pub hud: bool,
}

impl ModToggles {
    /// Whether the packs of `category` are wanted.
    pub open spec fn enabled(self, category: Category) -> bool {
        match category {
            Category::Textures => self.textures,
            Category::Objects => self.objects,
            Category::Monsters => self.monsters,
            Category::Menus => self.menus,
            Category::Hud => self.hud,
        }
    }

    /// These switches with the one of `category` set to `on`.
    pub open spec fn with(self, category: Category, on: bool) -> ModToggles {
        match category {
            Category::Textures => ModToggles { textures: on, ..self },
            Category::Objects => ModToggles { objects: on, ..self },
            Category::Monsters => ModToggles { monsters: on, ..self },
            Category::Menus => ModToggles { menus: on, ..self },
            Category::Hud => ModToggles { hud: on, ..self },
        }
    }

    /// Every category switched on.
    pub open spec fn all_on() -> ModToggles {
        ModToggles { textures: true, objects: true, monsters: true, menus: true, hud: true }
    }

    /// Switches with every category on.
    pub fn all() -> (r: ModToggles)
        ensures
            r == ModToggles::all_on(),
    {
        ModToggles { textures: true, objects: true, monsters: true, menus: true, hud: true }
    }

    /// Reads the switch of one category.
    pub fn is_enabled(&self, category: Category) -> (r: bool)
        ensures
            r == self.enabled(category),
    {
        match category {
            Category::Textures => self.textures,
            Category::Objects => self.objects,
            Category::Monsters => self.monsters,
            Category::Menus => self.menus,
            Category::Hud => self.hud,
        }
    }

    /// Sets the switch of one category.
    pub fn set(&mut self, category: Category, on: bool)
        ensures
            *final(self) == old(self).with(category, on),
    {
        match category {
            Category::Textures => self.textures = on,
            Category::Objects => self.objects = on,
            Category::Monsters => self.monsters = on,
            Category::Menus => self.menus = on,
            Category::Hud => self.hud = on,
        }
    }
}

/// What a [`LauncherState`] holds. Paths are kept as the user wrote them,
/// variable references included. An empty `selected_iwad` means that no IWAD
/// is selected.
pub struct LauncherStateView {
    pub selected_iwad: Seq<char>,
    pub pwad_files: Seq<Seq<char>>,
    pub extra_params: Seq<char>,
    pub exec_file: Seq<char>,
    pub iwad_folder: Seq<char>,
    pub pwad_folder: Seq<char>,
    pub mods_folder: Seq<char>,
    pub mods: ModToggles,
}

impl LauncherStateView {
    /// The selection is empty or names a supported IWAD.
    pub open spec fn valid(self) -> bool {
        self.selected_iwad.len() == 0 || is_catalog_filename(self.selected_iwad)
    }

    /// The state of a launcher that was never configured.
    pub open spec fn initial() -> LauncherStateView {
        LauncherStateView {
            selected_iwad: Seq::empty(),
            pwad_files: Seq::empty(),
            extra_params: Seq::empty(),
            exec_file: DEFAULT_EXECUTABLE@,
            iwad_folder: DEFAULT_FOLDER@,
            pwad_folder: DEFAULT_FOLDER@,
            mods_folder: DEFAULT_FOLDER@,
            mods: ModToggles::all_on(),
        }
    }
}

/// The current choices of the user.
#[derive(Debug)]
pub struct LauncherState {
    selected_iwad: String,
    pwad_files: Vec<String>,
    extra_params: String,
    exec_file: String,
    iwad_folder: String,
    pwad_folder: String,
    mods_folder: String,
    mods: ModToggles,
}

impl View for LauncherState {
    type V = LauncherStateView;

    closed spec fn view(&self) -> LauncherStateView {
        LauncherStateView {
            selected_iwad: self.selected_iwad@,
            pwad_files: texts(self.pwad_files@),
            extra_params: self.extra_params@,
            exec_file: self.exec_file@,
            iwad_folder: self.iwad_folder@,
            pwad_folder: self.pwad_folder@,
            mods_folder: self.mods_folder@,
            mods: self.mods,
        }
    }
}

impl Clone for LauncherState {
    fn clone(&self) -> (r: Self)
        ensures
            r@ == self@,
    {
        proof {
            use_type_invariant(self);
        }
        LauncherState {
            selected_iwad: self.selected_iwad.clone(),
            pwad_files: clone_texts(&self.pwad_files),
            extra_params: self.extra_params.clone(),
            exec_file: self.exec_file.clone(),
            iwad_folder: self.iwad_folder.clone(),
            pwad_folder: self.pwad_folder.clone(),
            mods_folder: self.mods_folder.clone(),
            mods: self.mods,
        }
    }
}

/// Whether `filename` is the file name of a supported IWAD.
pub fn is_supported_iwad(filename: &str) -> (r: bool)
    ensures
        r == is_catalog_filename(filename@),
{
    let iwads = catalog();
    find_iwad(&iwads, filename).is_some()
}

impl LauncherState {
    #[verifier::type_invariant]
    spec fn selection_is_known(self) -> bool {
        self.selected_iwad@.len() == 0 || is_catalog_filename(self.selected_iwad@)
    }

    /// The state of a launcher that was never configured.
    pub fn new() -> (r: Self)
        ensures
            r@ == LauncherStateView::initial(),
    {
        let r = LauncherState {
            selected_iwad: String::new(),
            pwad_files: Vec::new(),
            extra_params: String::new(),
            exec_file: DEFAULT_EXECUTABLE.to_owned(),
            iwad_folder: DEFAULT_FOLDER.to_owned(),
            pwad_folder: DEFAULT_FOLDER.to_owned(),
            mods_folder: DEFAULT_FOLDER.to_owned(),
            mods: ModToggles::all(),
        };
        assert(r@.pwad_files =~= Seq::<Seq<char>>::empty());
        r
    }

    /// The file name of the selected IWAD; empty when none is selected.
    pub fn selected_iwad(&self) -> (r: &str)
        ensures
            r@ == self@.selected_iwad,
            self@.valid(),
    {
        proof {
            use_type_invariant(self);
        }
        self.selected_iwad.as_str()
    }

    /// The patch files, in the order in which they are loaded.
    pub fn pwad_files(&self) -> (r: &Vec<String>)
        ensures
            texts(r@) == self@.pwad_files,
    {
        &self.pwad_files
    }

    /// The free-form parameters handed to the game.
    pub fn extra_params(&self) -> (r: &str)
        ensures
            r@ == self@.extra_params,
    {
        self.extra_params.as_str()
    }

    /// The path of the game binary, as stored.
    pub fn exec_file(&self) -> (r: &str)
        ensures
            r@ == self@.exec_file,
    {
        self.exec_file.as_str()
    }

    /// The folder in which IWADs are looked for, as stored.
    pub fn iwad_folder(&self) -> (r: &str)
        ensures
            r@ == self@.iwad_folder,
    {
        self.iwad_folder.as_str()
    }

    /// The folder in which the patch file picker opens, as stored.
    pub fn pwad_folder(&self) -> (r: &str)
        ensures
            r@ == self@.pwad_folder,
    {
        self.pwad_folder.as_str()
    }

    /// The folder in which asset packs are looked for, as stored.
    pub fn mods_folder(&self) -> (r: &str)
        ensures
            r@ == self@.mods_folder,
    {
        self.mods_folder.as_str()
    }

    /// The asset category switches.
    pub fn mods(&self) -> (r: ModToggles)
        ensures
            r == self@.mods,
    {
        self.mods
    }

    /// Selects the IWAD with the given file name. A name that no supported
    /// IWAD carries is refused and leaves the state as it was.
    pub fn select_iwad(&mut self, filename: &str) -> (accepted: bool)
        ensures
            accepted == is_catalog_filename(filename@),
            accepted ==> final(self)@ == (LauncherStateView {
                selected_iwad: filename@,
                ..old(self)@
            }),
            !accepted ==> final(self)@ == old(self)@,
    {
        if is_supported_iwad(filename) {
            self.selected_iwad = filename.to_owned();
            true
        } else {
            false
        }
    }

    /// Leaves no IWAD selected.
    pub fn clear_selection(&mut self)
        ensures
            final(self)@ == (LauncherStateView { selected_iwad: Seq::empty(), ..old(self)@ }),
    {
        self.selected_iwad = String::new();
    }

    /// Replaces the list of patch files.
    pub fn set_pwad_files(&mut self, files: &Vec<String>)
        ensures
            final(self)@ == (LauncherStateView { pwad_files: texts(files@), ..old(self)@ }),
    {
        proof {
            use_type_invariant(&*self);
        }
        self.pwad_files = clone_texts(files);
    }

    /// Replaces the extra parameters.
    pub fn set_extra_params(&mut self, params: &str)
        ensures
            final(self)@ == (LauncherStateView { extra_params: params@, ..old(self)@ }),
    {
        proof {
            use_type_invariant(&*self);
        }
        self.extra_params = params.to_owned();
    }

    /// Replaces the path of the game binary.
    pub fn set_exec_file(&mut self, path: &str)
        ensures
            final(self)@ == (LauncherStateView { exec_file: path@, ..old(self)@ }),
    {
        proof {
            use_type_invariant(&*self);
        }
        self.exec_file = path.to_owned();
    }

    /// Replaces the folder in which IWADs are looked for.
    pub fn set_iwad_folder(&mut self, path: &str)
        ensures
            final(self)@ == (LauncherStateView { iwad_folder: path@, ..old(self)@ }),
    {
        proof {
            use_type_invariant(&*self);
        }
        self.iwad_folder = path.to_owned();
    }

    /// Replaces the folder in which the patch file picker opens.
    pub fn set_pwad_folder(&mut self, path: &str)
        ensures
            final(self)@ == (LauncherStateView { pwad_folder: path@, ..old(self)@ }),
    {
        proof {
            use_type_invariant(&*self);
        }
        self.pwad_folder = path.to_owned();
    }

    /// Replaces the folder in which asset packs are looked for.
    pub fn set_mods_folder(&mut self, path: &str)
        ensures
            final(self)@ == (LauncherStateView { mods_folder: path@, ..old(self)@ }),
    {
        proof {
            use_type_invariant(&*self);
        }
        self.mods_folder = path.to_owned();
    }

    /// Switches the packs of one category on or off.
    pub fn set_mods(&mut self, category: Category, on: bool)
        ensures
            final(self)@ == (LauncherStateView {
                mods: old(self)@.mods.with(category, on),
                ..old(self)@
            }),
    {
        proof {
            use_type_invariant(&*self);
        }
        let mut mods = self.mods;
        mods.set(category, on);
        self.mods = mods;
    }
}

/// The state that a session starts from when it finds `record` in the
/// settings store. Every stored value is taken as it is, paths unexpanded. A
/// stored selection that names no supported IWAD leaves no IWAD selected.
pub open spec fn state_of(record: RecordView) -> LauncherStateView {
    LauncherStateView {
        selected_iwad: if is_catalog_filename(record.selected_iwad) {
            record.selected_iwad
        } else {
            Seq::empty()
        },
        pwad_files: record.pwad_files,
        extra_params: record.extra_parameters,
        exec_file: record.executable_file,
        iwad_folder: record.iwad_folder,
        pwad_folder: record.pwad_folder,
        mods_folder: record.mods_folder,
        mods: ModToggles {
            textures: record.enable_texture_mods,
            objects: record.enable_object_mods,
            monsters: record.enable_monster_mods,
            menus: record.enable_menu_mods,
            hud: record.enable_hud_mods,
        },
    }
}

/// The settings that mirror a state.
pub open spec fn record_of(state: LauncherStateView) -> RecordView {
    RecordView {
        selected_iwad: state.selected_iwad,
        pwad_files: state.pwad_files,
        extra_parameters: state.extra_params,
        executable_file: state.exec_file,
        iwad_folder: state.iwad_folder,
        pwad_folder: state.pwad_folder,
        mods_folder: state.mods_folder,
        enable_texture_mods: state.mods.textures,
        enable_object_mods: state.mods.objects,
        enable_monster_mods: state.mods.monsters,
        enable_menu_mods: state.mods.menus,
        enable_hud_mods: state.mods.hud,
    }
}

/// The store after every field of a state was written to it.
pub open spec fn saved(settings: SettingsView, state: LauncherStateView) -> SettingsView {
    SettingsView {
        committed: if settings.delayed {
            settings.committed
        } else {
            record_of(state)
        },
        working: record_of(state),
        delayed: settings.delayed,
    }
}

/// A state that is written to the store and applied is found again by the
/// next session, field for field, with its paths as they were stored.
pub proof fn lemma_settings_round_trip(state: LauncherStateView, settings: SettingsView)
    requires
        state.valid(),
    ensures
        state_of(saved(settings, state).applied().committed) == state,
        state_of(saved(settings, state).working) == state,
{
    let found = state_of(record_of(state));
    if state.selected_iwad.len() == 0 {
        assert(found.selected_iwad =~= state.selected_iwad);
    }
}

impl LauncherState {
    /// The state with which a session starts: every setting of the store as
    /// this session sees it.
    pub fn from_settings(store: &SettingsStore) -> (r: Self)
        ensures
            r@ == state_of(store@.working),
    {
        proof {
            lemma_keys(store@.working);
        }
        let mut state = LauncherState::new();
        match store.string(KEY_SELECTED_IWAD) {
            Ok(filename) => {
                state.select_iwad(filename.as_str());
            },
            Err(_) => {},
        }
        match store.strv(KEY_PWAD_FILES) {
            Ok(files) => {
                state.set_pwad_files(&files);
            },
            Err(_) => {},
        }
        match store.string(KEY_EXTRA_PARAMETERS) {
            Ok(params) => {
                state.set_extra_params(params.as_str());
            },
            Err(_) => {},
        }
        match store.string(KEY_EXECUTABLE_FILE) {
            Ok(path) => {
                state.set_exec_file(path.as_str());
            },
            Err(_) => {},
        }
        match store.string(KEY_IWAD_FOLDER) {
            Ok(path) => {
                state.set_iwad_folder(path.as_str());
            },
            Err(_) => {},
        }
        match store.string(KEY_PWAD_FOLDER) {
            Ok(path) => {
                state.set_pwad_folder(path.as_str());
            },
            Err(_) => {},
        }
        match store.string(KEY_MODS_FOLDER) {
            Ok(path) => {
                state.set_mods_folder(path.as_str());
            },
            Err(_) => {},
        }
        match store.boolean(KEY_ENABLE_TEXTURE_MODS) {
            Ok(on) => {
                state.set_mods(Category::Textures, on);
            },
            Err(_) => {},
        }
        match store.boolean(KEY_ENABLE_OBJECT_MODS) {
            Ok(on) => {
                state.set_mods(Category::Objects, on);
            },
            Err(_) => {},
        }
        match store.boolean(KEY_ENABLE_MONSTER_MODS) {
            Ok(on) => {
                state.set_mods(Category::Monsters, on);
            },
            Err(_) => {},
        }
        match store.boolean(KEY_ENABLE_MENU_MODS) {
            Ok(on) => {
                state.set_mods(Category::Menus, on);
            },
            Err(_) => {},
        }
        match store.boolean(KEY_ENABLE_HUD_MODS) {
            Ok(on) => {
                state.set_mods(Category::Hud, on);
            },
            Err(_) => {},
        }
        state
    }

    /// Writes every field into the store, under its key. Whether the writes
    /// are durable at once is the store's: see [`SettingsStore::apply`].
    pub fn save(&self, store: &mut SettingsStore)
        ensures
            final(store)@ == saved(old(store)@, self@),
    {
        let ghost text = self@.selected_iwad;
        let ghost list = self@.pwad_files;
        let ghost w0 = store@.working;
        proof {
            lemma_key_writes(w0, self@.selected_iwad, list, true);
        }
        let _ = store.set_string(KEY_SELECTED_IWAD, self.selected_iwad.as_str());
        let ghost w1 = store@.working;
        assert(w1 == RecordView { selected_iwad: self@.selected_iwad, ..w0 });
        proof {
            lemma_key_writes(w1, text, self@.pwad_files, true);
        }
        let _ = store.set_strv(KEY_PWAD_FILES, &self.pwad_files);
        let ghost w2 = store@.working;
        assert(w2 == RecordView { pwad_files: self@.pwad_files, ..w1 });
        proof {
            lemma_key_writes(w2, self@.extra_params, list, true);
        }
        let _ = store.set_string(KEY_EXTRA_PARAMETERS, self.extra_params.as_str());
        let ghost w3 = store@.working;
        assert(w3 == RecordView { extra_parameters: self@.extra_params, ..w2 });
        proof {
            lemma_key_writes(w3, self@.exec_file, list, true);
        }
        let _ = store.set_string(KEY_EXECUTABLE_FILE, self.exec_file.as_str());
        let ghost w4 = store@.working;
        assert(w4 == RecordView { executable_file: self@.exec_file, ..w3 });
        proof {
            lemma_key_writes(w4, self@.iwad_folder, list, true);
        }
        let _ = store.set_string(KEY_IWAD_FOLDER, self.iwad_folder.as_str());
        let ghost w5 = store@.working;
        assert(w5 == RecordView { iwad_folder: self@.iwad_folder, ..w4 });
        proof {
            lemma_key_writes(w5, self@.pwad_folder, list, true);
        }
        let _ = store.set_string(KEY_PWAD_FOLDER, self.pwad_folder.as_str());
        let ghost w6 = store@.working;
        assert(w6 == RecordView { pwad_folder: self@.pwad_folder, ..w5 });
        proof {
            lemma_key_writes(w6, self@.mods_folder, list, self.mods.textures);
        }
        let _ = store.set_string(KEY_MODS_FOLDER, self.mods_folder.as_str());
        let ghost w7 = store@.working;
        assert(w7 == RecordView { mods_folder: self@.mods_folder, ..w6 });
        proof {
            lemma_key_writes(w7, text, list, self.mods.textures);
        }
        let _ = store.set_boolean(KEY_ENABLE_TEXTURE_MODS, self.mods.textures);
        let ghost w8 = store@.working;
        assert(w8 == RecordView { enable_texture_mods: self.mods.textures, ..w7 });
        proof {
            lemma_key_writes(w8, text, list, self.mods.objects);
        }
        let _ = store.set_boolean(KEY_ENABLE_OBJECT_MODS, self.mods.objects);
        let ghost w9 = store@.working;
        assert(w9 == RecordView { enable_object_mods: self.mods.objects, ..w8 });
        proof {
            lemma_key_writes(w9, text, list, self.mods.monsters);
        }
        let _ = store.set_boolean(KEY_ENABLE_MONSTER_MODS, self.mods.monsters);
        let ghost w10 = store@.working;
        assert(w10 == RecordView { enable_monster_mods: self.mods.monsters, ..w9 });
        proof {
            lemma_key_writes(w10, text, list, self.mods.menus);
        }
        let _ = store.set_boolean(KEY_ENABLE_MENU_MODS, self.mods.menus);
        let ghost w11 = store@.working;
        assert(w11 == RecordView { enable_menu_mods: self.mods.menus, ..w10 });
        proof {
            lemma_key_writes(w11, text, list, self.mods.hud);
        }
        let _ = store.set_boolean(KEY_ENABLE_HUD_MODS, self.mods.hud);
        assert(store@.working == record_of(self@));
    }
}

} // verus!
