//! The settings store: twelve typed values under string keys, with defaults
//! and with writes that are held back until they are applied.

use vstd::prelude::*;
use crate::text::{clone_texts, same_text, texts};

verus! {

/// Where the game keeps its files unless the user says otherwise.
pub const DEFAULT_FOLDER: &'static str = "$HOME/.config/zandronum";

/// Where the game binary is looked for unless the user says otherwise.
pub const DEFAULT_EXECUTABLE: &'static str = "$HOME/.config/zandronum/zandronum";

/// The file name of the selected IWAD; a text, empty when none is selected.
pub const KEY_SELECTED_IWAD: &'static str = "selected-iwad";

/// The patch files; a list.
pub const KEY_PWAD_FILES: &'static str = "pwad-files";

/// The extra parameters; a text.
pub const KEY_EXTRA_PARAMETERS: &'static str = "extra-parameters";

/// The path of the game binary; a text.
pub const KEY_EXECUTABLE_FILE: &'static str = "executable-file";

/// The folder of the IWADs; a text.
pub const KEY_IWAD_FOLDER: &'static str = "iwad-folder";

/// The folder in which the patch file picker opens; a text.
pub const KEY_PWAD_FOLDER: &'static str = "pwad-folder";

/// The folder of the asset packs; a text.
pub const KEY_MODS_FOLDER: &'static str = "mods-folder";

/// Whether texture packs are wanted; a flag.
pub const KEY_ENABLE_TEXTURE_MODS: &'static str = "enable-texture-mods";

/// Whether object packs are wanted; a flag.
pub const KEY_ENABLE_OBJECT_MODS: &'static str = "enable-object-mods";

/// Whether monster packs are wanted; a flag.
pub const KEY_ENABLE_MONSTER_MODS: &'static str = "enable-monster-mods";

/// Whether menu packs are wanted; a flag.
pub const KEY_ENABLE_MENU_MODS: &'static str = "enable-menu-mods";

/// Whether HUD packs are wanted; a flag.
pub const KEY_ENABLE_HUD_MODS: &'static str = "enable-hud-mods";

/// A value of one of the three types that the store holds.
#[derive(Debug, PartialEq, Eq)]
pub enum SettingValue {
    Text(String),
    List(Vec<String>),
    Flag(bool),
}

/// What a [`SettingValue`] stands for.
pub enum SettingValueView {
    Text(Seq<char>),
    List(Seq<Seq<char>>),
    Flag(bool),
}

impl View for SettingValue {
    type V = SettingValueView;

    open spec fn view(&self) -> SettingValueView {
        match self {
            SettingValue::Text(text) => SettingValueView::Text(text@),
            SettingValue::List(list) => SettingValueView::List(texts(list@)),
            SettingValue::Flag(flag) => SettingValueView::Flag(*flag),
        }
    }
}

/// Why a read or write of a setting was refused.
#[derive(Clone, Copy, Debug, PartialEq, Eq, Structural)]
pub enum SettingsError {
    /// The store has no setting under the key.
    UnknownKey,
    /// The setting under the key holds a value of another type.
    WrongType,
}

/// The twelve settings, one field per key.
#[derive(Debug, PartialEq, Eq)]
pub struct SettingsRecord {
    pub selected_iwad: String,
    pub pwad_files: Vec<String>,
    pub extra_parameters: String,
    pub executable_file: String,
    pub iwad_folder: String,
    pub pwad_folder: String,
    pub mods_folder: String,
    pub enable_texture_mods: bool,
    pub enable_object_mods: bool,
    pub enable_monster_mods: bool,
    pub enable_menu_mods: bool,
    pub enable_hud_mods: bool,
}

/// What a [`SettingsRecord`] stands for.
pub struct RecordView {
    pub selected_iwad: Seq<char>,
    pub pwad_files: Seq<Seq<char>>,
    pub extra_parameters: Seq<char>,
    pub executable_file: Seq<char>,
    pub iwad_folder: Seq<char>,
    pub pwad_folder: Seq<char>,
    pub mods_folder: Seq<char>,
    pub enable_texture_mods: bool,
    pub enable_object_mods: bool,
    pub enable_monster_mods: bool,
    pub enable_menu_mods: bool,
    pub enable_hud_mods: bool,
}

impl View for SettingsRecord {
    type V = RecordView;

    open spec fn view(&self) -> RecordView {
        RecordView {
            selected_iwad: self.selected_iwad@,
            pwad_files: texts(self.pwad_files@),
            extra_parameters: self.extra_parameters@,
            executable_file: self.executable_file@,
            iwad_folder: self.iwad_folder@,
            pwad_folder: self.pwad_folder@,
            mods_folder: self.mods_folder@,
            enable_texture_mods: self.enable_texture_mods,
            enable_object_mods: self.enable_object_mods,
            enable_monster_mods: self.enable_monster_mods,
            enable_menu_mods: self.enable_menu_mods,
            enable_hud_mods: self.enable_hud_mods,
        }
    }
}

impl RecordView {
    /// The values of settings that were never written.
    pub open spec fn defaults() -> RecordView {
        RecordView {
            selected_iwad: Seq::empty(),
            pwad_files: Seq::empty(),
            extra_parameters: Seq::empty(),
            executable_file: DEFAULT_EXECUTABLE@,
            iwad_folder: DEFAULT_FOLDER@,
            pwad_folder: DEFAULT_FOLDER@,
            mods_folder: DEFAULT_FOLDER@,
            enable_texture_mods: true,
            enable_object_mods: true,
            enable_monster_mods: true,
            enable_menu_mods: true,
            enable_hud_mods: true,
        }
    }

    /// The value under `key`, or nothing when there is no such key.
    pub open spec fn get(self, key: Seq<char>) -> Option<SettingValueView> {
        if key == KEY_SELECTED_IWAD@ {
            Some(SettingValueView::Text(self.selected_iwad))
        } else if key == KEY_PWAD_FILES@ {
            Some(SettingValueView::List(self.pwad_files))
        } else if key == KEY_EXTRA_PARAMETERS@ {
            Some(SettingValueView::Text(self.extra_parameters))
        } else if key == KEY_EXECUTABLE_FILE@ {
            Some(SettingValueView::Text(self.executable_file))
        } else if key == KEY_IWAD_FOLDER@ {
            Some(SettingValueView::Text(self.iwad_folder))
        } else if key == KEY_PWAD_FOLDER@ {
            Some(SettingValueView::Text(self.pwad_folder))
        } else if key == KEY_MODS_FOLDER@ {
            Some(SettingValueView::Text(self.mods_folder))
        } else if key == KEY_ENABLE_TEXTURE_MODS@ {
            Some(SettingValueView::Flag(self.enable_texture_mods))
        } else if key == KEY_ENABLE_OBJECT_MODS@ {
            Some(SettingValueView::Flag(self.enable_object_mods))
        } else if key == KEY_ENABLE_MONSTER_MODS@ {
            Some(SettingValueView::Flag(self.enable_monster_mods))
        } else if key == KEY_ENABLE_MENU_MODS@ {
            Some(SettingValueView::Flag(self.enable_menu_mods))
        } else if key == KEY_ENABLE_HUD_MODS@ {
            Some(SettingValueView::Flag(self.enable_hud_mods))
        } else {
            None
        }
    }

    /// This record with `value` written under `key`, or the reason why the
    /// write is refused: no such key, or a value of the wrong type.
    pub open spec fn put(self, key: Seq<char>, value: SettingValueView) -> Result<
        RecordView,
        SettingsError,
    > {
        if key == KEY_SELECTED_IWAD@ {
            match value {
                SettingValueView::Text(v) => Ok(RecordView { selected_iwad: v, ..self }),
                _ => Err(SettingsError::WrongType),
            }
        } else if key == KEY_PWAD_FILES@ {
            match value {
                SettingValueView::List(v) => Ok(RecordView { pwad_files: v, ..self }),
                _ => Err(SettingsError::WrongType),
            }
        } else if key == KEY_EXTRA_PARAMETERS@ {
            match value {
                SettingValueView::Text(v) => Ok(RecordView { extra_parameters: v, ..self }),
                _ => Err(SettingsError::WrongType),
            }
        } else if key == KEY_EXECUTABLE_FILE@ {
            match value {
                SettingValueView::Text(v) => Ok(RecordView { executable_file: v, ..self }),
                _ => Err(SettingsError::WrongType),
            }
        } else if key == KEY_IWAD_FOLDER@ {
            match value {
                SettingValueView::Text(v) => Ok(RecordView { iwad_folder: v, ..self }),
                _ => Err(SettingsError::WrongType),
            }
        } else if key == KEY_PWAD_FOLDER@ {
            match value {
                SettingValueView::Text(v) => Ok(RecordView { pwad_folder: v, ..self }),
                _ => Err(SettingsError::WrongType),
            }
        } else if key == KEY_MODS_FOLDER@ {
            match value {
                SettingValueView::Text(v) => Ok(RecordView { mods_folder: v, ..self }),
                _ => Err(SettingsError::WrongType),
            }
        } else if key == KEY_ENABLE_TEXTURE_MODS@ {
            match value {
                SettingValueView::Flag(v) => Ok(RecordView { enable_texture_mods: v, ..self }),
                _ => Err(SettingsError::WrongType),
            }
        } else if key == KEY_ENABLE_OBJECT_MODS@ {
            match value {
                SettingValueView::Flag(v) => Ok(RecordView { enable_object_mods: v, ..self }),
                _ => Err(SettingsError::WrongType),
            }
        } else if key == KEY_ENABLE_MONSTER_MODS@ {
            match value {
                SettingValueView::Flag(v) => Ok(RecordView { enable_monster_mods: v, ..self }),
                _ => Err(SettingsError::WrongType),
            }
        } else if key == KEY_ENABLE_MENU_MODS@ {
            match value {
                SettingValueView::Flag(v) => Ok(RecordView { enable_menu_mods: v, ..self }),
                _ => Err(SettingsError::WrongType),
            }
        } else if key == KEY_ENABLE_HUD_MODS@ {
            match value {
                SettingValueView::Flag(v) => Ok(RecordView { enable_hud_mods: v, ..self }),
                _ => Err(SettingsError::WrongType),
            }
        } else {
            Err(SettingsError::UnknownKey)
        }
    }
}

/// A written value is read back under its key, and the value under every
/// other key stays what it was.
pub proof fn lemma_put_then_get(
    record: RecordView,
    key: Seq<char>,
    value: SettingValueView,
    other: Seq<char>,
)
    requires
        record.put(key, value) is Ok,
    ensures
        record.put(key, value).unwrap().get(key) == Some(value),
        other != key ==> record.put(key, value).unwrap().get(other) == record.get(other),
{
}

/// The twelve keys differ from one another: by their length, or else in one
/// of their characters.
proof fn lemma_key_shapes()
    ensures
        KEY_SELECTED_IWAD@.len() == 13,
        KEY_PWAD_FILES@.len() == 10,
        KEY_EXTRA_PARAMETERS@.len() == 16,
        KEY_EXECUTABLE_FILE@.len() == 15,
        KEY_IWAD_FOLDER@.len() == 11,
        KEY_PWAD_FOLDER@.len() == 11,
        KEY_MODS_FOLDER@.len() == 11,
        KEY_ENABLE_TEXTURE_MODS@.len() == 19,
        KEY_ENABLE_OBJECT_MODS@.len() == 18,
        KEY_ENABLE_MONSTER_MODS@.len() == 19,
        KEY_ENABLE_MENU_MODS@.len() == 16,
        KEY_ENABLE_HUD_MODS@.len() == 15,
        KEY_EXTRA_PARAMETERS@[1] != KEY_ENABLE_MENU_MODS@[1],
        KEY_EXECUTABLE_FILE@[1] != KEY_ENABLE_HUD_MODS@[1],
        KEY_IWAD_FOLDER@[0] != KEY_PWAD_FOLDER@[0],
        KEY_IWAD_FOLDER@[0] != KEY_MODS_FOLDER@[0],
        KEY_PWAD_FOLDER@[0] != KEY_MODS_FOLDER@[0],
        KEY_ENABLE_TEXTURE_MODS@[7] != KEY_ENABLE_MONSTER_MODS@[7],
{
    reveal_strlit("selected-iwad");
    reveal_strlit("pwad-files");
    reveal_strlit("extra-parameters");
    reveal_strlit("executable-file");
    reveal_strlit("iwad-folder");
    reveal_strlit("pwad-folder");
    reveal_strlit("mods-folder");
    reveal_strlit("enable-texture-mods");
    reveal_strlit("enable-object-mods");
    reveal_strlit("enable-monster-mods");
    reveal_strlit("enable-menu-mods");
    reveal_strlit("enable-hud-mods");
}

/// Each of the twelve keys leads to its own field.
pub proof fn lemma_keys(record: RecordView)
    ensures
        record.get(KEY_SELECTED_IWAD@) == Some(SettingValueView::Text(record.selected_iwad)),
        record.get(KEY_PWAD_FILES@) == Some(SettingValueView::List(record.pwad_files)),
        record.get(KEY_EXTRA_PARAMETERS@) == Some(
            SettingValueView::Text(record.extra_parameters),
        ),
        record.get(KEY_EXECUTABLE_FILE@) == Some(SettingValueView::Text(record.executable_file)),
        record.get(KEY_IWAD_FOLDER@) == Some(SettingValueView::Text(record.iwad_folder)),
        record.get(KEY_PWAD_FOLDER@) == Some(SettingValueView::Text(record.pwad_folder)),
        record.get(KEY_MODS_FOLDER@) == Some(SettingValueView::Text(record.mods_folder)),
        record.get(KEY_ENABLE_TEXTURE_MODS@) == Some(
            SettingValueView::Flag(record.enable_texture_mods),
        ),
        record.get(KEY_ENABLE_OBJECT_MODS@) == Some(
            SettingValueView::Flag(record.enable_object_mods),
        ),
        record.get(KEY_ENABLE_MONSTER_MODS@) == Some(
            SettingValueView::Flag(record.enable_monster_mods),
        ),
        record.get(KEY_ENABLE_MENU_MODS@) == Some(
            SettingValueView::Flag(record.enable_menu_mods),
        ),
        record.get(KEY_ENABLE_HUD_MODS@) == Some(SettingValueView::Flag(record.enable_hud_mods)),
{
    lemma_key_shapes();
}


/// A write of a value of the right type under one of the twelve keys
/// replaces the field of that key and no other.
pub proof fn lemma_key_writes(record: RecordView, text: Seq<char>, list: Seq<Seq<char>>, flag: bool)
    ensures
        record.put(KEY_SELECTED_IWAD@, SettingValueView::Text(text)) == Ok::<RecordView, SettingsError>(
            RecordView { selected_iwad: text, ..record },
        ),
        record.put(KEY_PWAD_FILES@, SettingValueView::List(list)) == Ok::<RecordView, SettingsError>(
            RecordView { pwad_files: list, ..record },
        ),
        record.put(KEY_EXTRA_PARAMETERS@, SettingValueView::Text(text)) == Ok::<RecordView, SettingsError>(
            RecordView { extra_parameters: text, ..record },
        ),
        record.put(KEY_EXECUTABLE_FILE@, SettingValueView::Text(text)) == Ok::<RecordView, SettingsError>(
            RecordView { executable_file: text, ..record },
        ),
        record.put(KEY_IWAD_FOLDER@, SettingValueView::Text(text)) == Ok::<RecordView, SettingsError>(
            RecordView { iwad_folder: text, ..record },
        ),
        record.put(KEY_PWAD_FOLDER@, SettingValueView::Text(text)) == Ok::<RecordView, SettingsError>(
            RecordView { pwad_folder: text, ..record },
        ),
        record.put(KEY_MODS_FOLDER@, SettingValueView::Text(text)) == Ok::<RecordView, SettingsError>(
            RecordView { mods_folder: text, ..record },
        ),
        record.put(KEY_ENABLE_TEXTURE_MODS@, SettingValueView::Flag(flag)) == Ok::<RecordView, SettingsError>(
            RecordView { enable_texture_mods: flag, ..record },
        ),
        record.put(KEY_ENABLE_OBJECT_MODS@, SettingValueView::Flag(flag)) == Ok::<RecordView, SettingsError>(
            RecordView { enable_object_mods: flag, ..record },
        ),
        record.put(KEY_ENABLE_MONSTER_MODS@, SettingValueView::Flag(flag)) == Ok::<RecordView, SettingsError>(
            RecordView { enable_monster_mods: flag, ..record },
        ),
        record.put(KEY_ENABLE_MENU_MODS@, SettingValueView::Flag(flag)) == Ok::<RecordView, SettingsError>(
            RecordView { enable_menu_mods: flag, ..record },
        ),
        record.put(KEY_ENABLE_HUD_MODS@, SettingValueView::Flag(flag)) == Ok::<RecordView, SettingsError>(
            RecordView { enable_hud_mods: flag, ..record },
        ),
{
    lemma_key_shapes();
}

/// A write is refused exactly when the key is unknown or the value is not of
/// the type of the setting.
pub proof fn lemma_put_refusals(record: RecordView, key: Seq<char>, value: SettingValueView)
    ensures
        record.put(key, value) == Err::<RecordView, SettingsError>(SettingsError::UnknownKey)
            <==> record.get(key) is None,
        record.put(key, value) is Ok <==> match (record.get(key), value) {
            (Some(SettingValueView::Text(_)), SettingValueView::Text(_)) => true,
            (Some(SettingValueView::List(_)), SettingValueView::List(_)) => true,
            (Some(SettingValueView::Flag(_)), SettingValueView::Flag(_)) => true,
            _ => false,
        },
{
}

impl Clone for SettingValue {
    fn clone(&self) -> (r: Self)
        ensures
            r@ == self@,
    {
        match self {
            SettingValue::Text(text) => SettingValue::Text(text.clone()),
            SettingValue::List(list) => SettingValue::List(clone_texts(list)),
            SettingValue::Flag(flag) => SettingValue::Flag(*flag),
        }
    }
}

impl Clone for SettingsRecord {
    fn clone(&self) -> (r: Self)
        ensures
            r@ == self@,
    {
        SettingsRecord {
            selected_iwad: self.selected_iwad.clone(),
            pwad_files: clone_texts(&self.pwad_files),
            extra_parameters: self.extra_parameters.clone(),
            executable_file: self.executable_file.clone(),
            iwad_folder: self.iwad_folder.clone(),
            pwad_folder: self.pwad_folder.clone(),
            mods_folder: self.mods_folder.clone(),
            enable_texture_mods: self.enable_texture_mods,
            enable_object_mods: self.enable_object_mods,
            enable_monster_mods: self.enable_monster_mods,
            enable_menu_mods: self.enable_menu_mods,
            enable_hud_mods: self.enable_hud_mods,
        }
    }
}

impl SettingsRecord {
    /// The values of settings that were never written.
    pub fn defaults() -> (r: Self)
        ensures
            r@ == RecordView::defaults(),
    {
        let r = SettingsRecord {
            selected_iwad: String::new(),
            pwad_files: Vec::new(),
            extra_parameters: String::new(),
            executable_file: DEFAULT_EXECUTABLE.to_owned(),
            iwad_folder: DEFAULT_FOLDER.to_owned(),
            pwad_folder: DEFAULT_FOLDER.to_owned(),
            mods_folder: DEFAULT_FOLDER.to_owned(),
            enable_texture_mods: true,
            enable_object_mods: true,
            enable_monster_mods: true,
            enable_menu_mods: true,
            enable_hud_mods: true,
        };
        assert(r@.pwad_files =~= Seq::<Seq<char>>::empty());
        r
    }

    /// Reads the value under `key`.
    pub fn get(&self, key: &str) -> (r: Option<SettingValue>)
        ensures
            value_view(r) == self@.get(key@),
    {
        if same_text(key, KEY_SELECTED_IWAD) {
            Some(SettingValue::Text(self.selected_iwad.clone()))
        } else if same_text(key, KEY_PWAD_FILES) {
            Some(SettingValue::List(clone_texts(&self.pwad_files)))
        } else if same_text(key, KEY_EXTRA_PARAMETERS) {
            Some(SettingValue::Text(self.extra_parameters.clone()))
        } else if same_text(key, KEY_EXECUTABLE_FILE) {
            Some(SettingValue::Text(self.executable_file.clone()))
        } else if same_text(key, KEY_IWAD_FOLDER) {
            Some(SettingValue::Text(self.iwad_folder.clone()))
        } else if same_text(key, KEY_PWAD_FOLDER) {
            Some(SettingValue::Text(self.pwad_folder.clone()))
        } else if same_text(key, KEY_MODS_FOLDER) {
            Some(SettingValue::Text(self.mods_folder.clone()))
        } else if same_text(key, KEY_ENABLE_TEXTURE_MODS) {
            Some(SettingValue::Flag(self.enable_texture_mods))
        } else if same_text(key, KEY_ENABLE_OBJECT_MODS) {
            Some(SettingValue::Flag(self.enable_object_mods))
        } else if same_text(key, KEY_ENABLE_MONSTER_MODS) {
            Some(SettingValue::Flag(self.enable_monster_mods))
        } else if same_text(key, KEY_ENABLE_MENU_MODS) {
            Some(SettingValue::Flag(self.enable_menu_mods))
        } else if same_text(key, KEY_ENABLE_HUD_MODS) {
            Some(SettingValue::Flag(self.enable_hud_mods))
        } else {
            None
        }
    }

    /// Writes `value` under `key`. A refused write changes nothing.
    pub fn put(&mut self, key: &str, value: SettingValue) -> (r: Result<(), SettingsError>)
        ensures
            match r {
                Ok(_) => old(self)@.put(key@, value@) == Ok::<RecordView, SettingsError>(
                    final(self)@,
                ),
                Err(e) => old(self)@.put(key@, value@) == Err::<RecordView, SettingsError>(e)
                    && final(self)@ == old(self)@,
            },
    {
        if same_text(key, KEY_SELECTED_IWAD) {
            match value {
                SettingValue::Text(v) => {
                    self.selected_iwad = v;
                    Ok(())
                },
                _ => Err(SettingsError::WrongType),
            }
        } else if same_text(key, KEY_PWAD_FILES) {
            match value {
                SettingValue::List(v) => {
                    self.pwad_files = v;
                    Ok(())
                },
                _ => Err(SettingsError::WrongType),
            }
        } else if same_text(key, KEY_EXTRA_PARAMETERS) {
            match value {
                SettingValue::Text(v) => {
                    self.extra_parameters = v;
                    Ok(())
                },
                _ => Err(SettingsError::WrongType),
            }
        } else if same_text(key, KEY_EXECUTABLE_FILE) {
            match value {
                SettingValue::Text(v) => {
                    self.executable_file = v;
                    Ok(())
                },
                _ => Err(SettingsError::WrongType),
            }
        } else if same_text(key, KEY_IWAD_FOLDER) {
            match value {
                SettingValue::Text(v) => {
                    self.iwad_folder = v;
                    Ok(())
                },
                _ => Err(SettingsError::WrongType),
            }
        } else if same_text(key, KEY_PWAD_FOLDER) {
            match value {
                SettingValue::Text(v) => {
                    self.pwad_folder = v;
                    Ok(())
                },
                _ => Err(SettingsError::WrongType),
            }
        } else if same_text(key, KEY_MODS_FOLDER) {
            match value {
                SettingValue::Text(v) => {
                    self.mods_folder = v;
                    Ok(())
                },
                _ => Err(SettingsError::WrongType),
            }
        } else if same_text(key, KEY_ENABLE_TEXTURE_MODS) {
            match value {
                SettingValue::Flag(v) => {
                    self.enable_texture_mods = v;
                    Ok(())
                },
                _ => Err(SettingsError::WrongType),
            }
        } else if same_text(key, KEY_ENABLE_OBJECT_MODS) {
            match value {
                SettingValue::Flag(v) => {
                    self.enable_object_mods = v;
                    Ok(())
                },
                _ => Err(SettingsError::WrongType),
            }
        } else if same_text(key, KEY_ENABLE_MONSTER_MODS) {
            match value {
                SettingValue::Flag(v) => {
                    self.enable_monster_mods = v;
                    Ok(())
                },
                _ => Err(SettingsError::WrongType),
            }
        } else if same_text(key, KEY_ENABLE_MENU_MODS) {
            match value {
                SettingValue::Flag(v) => {
                    self.enable_menu_mods = v;
                    Ok(())
                },
                _ => Err(SettingsError::WrongType),
            }
        } else if same_text(key, KEY_ENABLE_HUD_MODS) {
            match value {
                SettingValue::Flag(v) => {
                    self.enable_hud_mods = v;
                    Ok(())
                },
                _ => Err(SettingsError::WrongType),
            }
        } else {
            Err(SettingsError::UnknownKey)
        }
    }
}

/// What an optional [`SettingValue`] stands for.
pub open spec fn value_view(value: Option<SettingValue>) -> Option<SettingValueView> {
    match value {
        Some(v) => Some(v@),
        None => None,
    }
}

/// What a [`SettingsStore`] holds: the durable values, the values that
/// reads see, and whether writes are held back.
pub struct SettingsView {
    pub committed: RecordView,
    pub working: RecordView,
    pub delayed: bool,
}

impl SettingsView {
    /// The store after a write. Reads see the new value at once; the durable
    /// values follow at once only when writes are not held back.
    pub open spec fn written(self, key: Seq<char>, value: SettingValueView) -> Result<
        SettingsView,
        SettingsError,
    > {
        match self.working.put(key, value) {
            Ok(working) => Ok(
                SettingsView {
                    committed: if self.delayed {
                        self.committed
                    } else {
                        working
                    },
                    working,
                    delayed: self.delayed,
                },
            ),
            Err(e) => Err(e),
        }
    }

    /// The store after every write held back so far became durable.
    pub open spec fn applied(self) -> SettingsView {
        SettingsView { committed: self.working, ..self }
    }
}

/// The settings of the launcher. Reads always see the latest writes. After
/// [`SettingsStore::delay`] writes are held back, and the durable values
/// change only in [`SettingsStore::apply`], all at once.
#[derive(Debug)]
pub struct SettingsStore {
    committed: SettingsRecord,
    working: SettingsRecord,
    delayed: bool,
}

impl View for SettingsStore {
    type V = SettingsView;

    closed spec fn view(&self) -> SettingsView {
        SettingsView {
            committed: self.committed@,
            working: self.working@,
            delayed: self.delayed,
        }
    }
}

/// The outcome of reading a text: the value, or why there is none.
pub open spec fn text_under(record: RecordView, key: Seq<char>) -> Result<
    Seq<char>,
    SettingsError,
> {
    match record.get(key) {
        Some(SettingValueView::Text(text)) => Ok(text),
        Some(_) => Err(SettingsError::WrongType),
        None => Err(SettingsError::UnknownKey),
    }
}

/// The outcome of reading a list: the value, or why there is none.
pub open spec fn list_under(record: RecordView, key: Seq<char>) -> Result<
    Seq<Seq<char>>,
    SettingsError,
> {
    match record.get(key) {
        Some(SettingValueView::List(list)) => Ok(list),
        Some(_) => Err(SettingsError::WrongType),
        None => Err(SettingsError::UnknownKey),
    }
}

/// The outcome of reading a flag: the value, or why there is none.
pub open spec fn flag_under(record: RecordView, key: Seq<char>) -> Result<bool, SettingsError> {
    match record.get(key) {
        Some(SettingValueView::Flag(flag)) => Ok(flag),
        Some(_) => Err(SettingsError::WrongType),
        None => Err(SettingsError::UnknownKey),
    }
}

impl SettingsStore {
    /// A store in which no setting was ever written. Writes go through at
    /// once until [`SettingsStore::delay`] is called.
    pub fn new() -> (r: Self)
        ensures
            r@ == (SettingsView {
                committed: RecordView::defaults(),
                working: RecordView::defaults(),
                delayed: false,
            }),
    {
        SettingsStore {
            committed: SettingsRecord::defaults(),
            working: SettingsRecord::defaults(),
            delayed: false,
        }
    }

    /// A store over the given durable values.
    pub fn open(record: SettingsRecord) -> (r: Self)
        ensures
            r@ == (SettingsView { committed: record@, working: record@, delayed: false }),
    {
        let working = record.clone();
        SettingsStore { committed: record, working, delayed: false }
    }

    /// From now on writes are held back until they are applied.
    pub fn delay(&mut self)
        ensures
            final(self)@ == (SettingsView { delayed: true, ..old(self)@ }),
    {
        self.delayed = true;
    }

    /// Makes every write held back so far durable, all at once.
    pub fn apply(&mut self)
        ensures
            final(self)@ == old(self)@.applied(),
    {
        self.committed = self.working.clone();
    }

    /// The durable values: what a later session would find.
    pub fn committed(&self) -> (r: &SettingsRecord)
        ensures
            r@ == self@.committed,
    {
        &self.committed
    }

    /// The value that a setting has when it was never written, or nothing
    /// when there is no such setting.
    pub fn default_value(key: &str) -> (r: Option<SettingValue>)
        ensures
            value_view(r) == RecordView::defaults().get(key@),
    {
        SettingsRecord::defaults().get(key)
    }

    /// Reads the value under `key` as this session sees it.
    pub fn value(&self, key: &str) -> (r: Option<SettingValue>)
        ensures
            value_view(r) == self@.working.get(key@),
    {
        self.working.get(key)
    }

    /// Writes `value` under `key`. A refused write changes nothing.
    pub fn set_value(&mut self, key: &str, value: SettingValue) -> (r: Result<(), SettingsError>)
        ensures
            match r {
                Ok(_) => old(self)@.written(key@, value@) == Ok::<SettingsView, SettingsError>(
                    final(self)@,
                ),
                Err(e) => old(self)@.written(key@, value@) == Err::<SettingsView, SettingsError>(
                    e,
                ) && final(self)@ == old(self)@,
            },
    {
        match self.working.put(key, value) {
            Ok(_) => {
                if !self.delayed {
                    self.committed = self.working.clone();
                }
                Ok(())
            },
            Err(e) => Err(e),
        }
    }

    /// Reads a text setting.
    pub fn string(&self, key: &str) -> (r: Result<String, SettingsError>)
        ensures
            match r {
                Ok(text) => text_under(self@.working, key@) == Ok::<Seq<char>, SettingsError>(
                    text@,
                ),
                Err(e) => text_under(self@.working, key@) == Err::<Seq<char>, SettingsError>(e),
            },
    {
        match self.working.get(key) {
            Some(SettingValue::Text(text)) => Ok(text),
            Some(_) => Err(SettingsError::WrongType),
            None => Err(SettingsError::UnknownKey),
        }
    }

    /// Reads a list setting.
    pub fn strv(&self, key: &str) -> (r: Result<Vec<String>, SettingsError>)
        ensures
            match r {
                Ok(list) => list_under(self@.working, key@) == Ok::<
                    Seq<Seq<char>>,
                    SettingsError,
                >(texts(list@)),
                Err(e) => list_under(self@.working, key@) == Err::<Seq<Seq<char>>, SettingsError>(
                    e,
                ),
            },
    {
        match self.working.get(key) {
            Some(SettingValue::List(list)) => Ok(list),
            Some(_) => Err(SettingsError::WrongType),
            None => Err(SettingsError::UnknownKey),
        }
    }

    /// Reads a flag setting.
    pub fn boolean(&self, key: &str) -> (r: Result<bool, SettingsError>)
        ensures
            r == flag_under(self@.working, key@),
    {
        match self.working.get(key) {
            Some(SettingValue::Flag(flag)) => Ok(flag),
            Some(_) => Err(SettingsError::WrongType),
            None => Err(SettingsError::UnknownKey),
        }
    }

    /// Writes a text setting.
    pub fn set_string(&mut self, key: &str, value: &str) -> (r: Result<(), SettingsError>)
        ensures
            match r {
                Ok(_) => old(self)@.written(key@, SettingValueView::Text(value@)) == Ok::<
                    SettingsView,
                    SettingsError,
                >(final(self)@),
                Err(e) => old(self)@.written(key@, SettingValueView::Text(value@)) == Err::<
                    SettingsView,
                    SettingsError,
                >(e) && final(self)@ == old(self)@,
            },
    {
        self.set_value(key, SettingValue::Text(value.to_owned()))
    }

    /// Writes a list setting.
    pub fn set_strv(&mut self, key: &str, value: &Vec<String>) -> (r: Result<(), SettingsError>)
        ensures
            match r {
                Ok(_) => old(self)@.written(key@, SettingValueView::List(texts(value@))) == Ok::<
                    SettingsView,
                    SettingsError,
                >(final(self)@),
                Err(e) => old(self)@.written(key@, SettingValueView::List(texts(value@)))
                    == Err::<SettingsView, SettingsError>(e) && final(self)@ == old(self)@,
            },
    {
        self.set_value(key, SettingValue::List(clone_texts(value)))
    }

    /// Writes a flag setting.
    pub fn set_boolean(&mut self, key: &str, value: bool) -> (r: Result<(), SettingsError>)
        ensures
            match r {
                Ok(_) => old(self)@.written(key@, SettingValueView::Flag(value)) == Ok::<
                    SettingsView,
                    SettingsError,
                >(final(self)@),
                Err(e) => old(self)@.written(key@, SettingValueView::Flag(value)) == Err::<
                    SettingsView,
                    SettingsError,
                >(e) && final(self)@ == old(self)@,
            },
    {
        self.set_value(key, SettingValue::Flag(value))
    }
}

/// While writes are held back the durable values do not move; applying
/// makes them equal to what reads see, and applying twice is applying once.
pub proof fn lemma_delayed_writes(settings: SettingsView, key: Seq<char>, value: SettingValueView)
    requires
        settings.delayed,
        settings.written(key, value) is Ok,
    ensures
        settings.written(key, value).unwrap().committed == settings.committed,
        settings.written(key, value).unwrap().working.get(key) == Some(value),
        settings.written(key, value).unwrap().applied().committed == settings.written(
            key,
            value,
        ).unwrap().working,
        settings.applied().applied() == settings.applied(),
{
}

} // verus!
