//! The launcher's lifecycle: start from the settings, follow the user's
//! edits, launch, reset, and write the settings back.

use vstd::prelude::*;
use crate::catalog::{
    catalog,
    catalog_spec,
    find_iwad,
    lemma_catalog_names_unique,
    lemma_lookup_member,
    lookup,
    views,
    Category,
    IWadObject,
    IWadView,
};
use crate::command::{
    launch,
    launch_spec,
    paths_to_probe,
    probes,
    request_view,
    LaunchErrorView,
    SpawnRequest,
    SpawnView,
};
use crate::discovery::{
    discover_in,
    entries_of,
    found,
    lemma_discovery_sound,
    lemma_found_count,
    lemma_sorted_unique,
    sorted_by_name,
};
use crate::environment::Environment;
use crate::files::{existing_path, existing_spec, FileSnapshot};
use crate::settings::{SettingsStore, SettingsView, DEFAULT_EXECUTABLE, DEFAULT_FOLDER};
use crate::state::{saved, state_of, LauncherState, LauncherStateView, ModToggles};
use crate::text::texts;

verus! {

/// What a [`Controller`] holds: the user's choices and the IWADs that were
/// found in the IWAD folder.
pub struct ControllerView {
    pub state: LauncherStateView,
    pub discovered: Seq<IWadView>,
}

/// Whether `discovered` is a discovery over the given folder entries: the
/// supported IWADs found among them, sorted by display name.
pub open spec fn discovery_of(entries: Seq<Seq<char>>, discovered: Seq<IWadView>) -> bool {
    &&& sorted_by_name(discovered)
    &&& discovered.to_multiset() == found(entries, catalog_spec()).to_multiset()
}

/// A selection as it survives a discovery: kept when one of the discovered
/// IWADs carries the name, dropped otherwise.
pub open spec fn kept_selection(selected: Seq<char>, discovered: Seq<IWadView>) -> Seq<char> {
    if lookup(discovered, selected) is Some {
        selected
    } else {
        Seq::empty()
    }
}

impl ControllerView {
    /// The discovered IWADs are sorted and supported, and the selection is
    /// empty or names one of them.
    pub open spec fn valid(self) -> bool {
        &&& sorted_by_name(self.discovered)
        &&& forall|i: int|
            0 <= i < self.discovered.len() ==> catalog_spec().contains(#[trigger] self.discovered[i])
        &&& self.state.selected_iwad.len() == 0 || lookup(
            self.discovered,
            self.state.selected_iwad,
        ) is Some
    }

    /// Launching is possible as soon as some IWAD is selected.
    pub open spec fn launch_enabled(self) -> bool {
        self.state.selected_iwad.len() > 0
    }

    /// The selection after a reset: the first discovered IWAD, if any.
    pub open spec fn first_choice(self) -> Seq<char> {
        if self.discovered.len() > 0 {
            self.discovered[0].filename
        } else {
            Seq::empty()
        }
    }
}

/// What the launcher does after a launch was asked for.
#[derive(Debug, PartialEq, Eq)]
pub enum LaunchDecision {
    /// Start the process, if there is one, and close the window.
    Proceed { spawn: Option<SpawnRequest> },
    /// Show the message and let the user go on.
    Refuse { message: String },
}

/// What a [`LaunchDecision`] stands for.
pub enum LaunchDecisionView {
    Proceed { spawn: Option<SpawnView> },
    Refuse { message: Seq<char> },
}

impl View for LaunchDecision {
    type V = LaunchDecisionView;

    open spec fn view(&self) -> LaunchDecisionView {
        match self {
            LaunchDecision::Proceed { spawn } => LaunchDecisionView::Proceed {
                spawn: request_view(*spawn),
            },
            LaunchDecision::Refuse { message } => LaunchDecisionView::Refuse {
                message: message@,
            },
        }
    }
}

/// The decision that follows from the outcome of a launch.
pub open spec fn decision_spec(outcome: Result<Option<SpawnView>, LaunchErrorView>)
    -> LaunchDecisionView {
    match outcome {
        Ok(spawn) => LaunchDecisionView::Proceed { spawn },
        Err(e) => LaunchDecisionView::Refuse { message: e.message() },
    }
}

/// Where the patch file picker opens: in the resolved PWAD folder, if one
/// is stored and it exists.
pub open spec fn picker_folder(
    stored: Seq<char>,
    vars: Map<Seq<char>, Seq<char>>,
    files: Set<Seq<char>>,
) -> Option<Seq<char>> {
    if stored.len() > 0 {
        existing_spec(stored, vars, files)
    } else {
        None
    }
}

/// The text of an optional string.
pub open spec fn view_of(text: Option<String>) -> Option<Seq<char>> {
    match text {
        Some(t) => Some(t@),
        None => None,
    }
}

/// A descriptor that is in a list is found there under its file name.
proof fn lemma_member_is_found(iwads: Seq<IWadView>, d: IWadView)
    requires
        iwads.contains(d),
    ensures
        lookup(iwads, d.filename) is Some,
{
    lemma_lookup_member(iwads, d.filename);
}

/// The owner of the launcher's state.
#[derive(Debug)]
pub struct Controller {
    state: LauncherState,
    discovered: Vec<IWadObject>,
}

impl View for Controller {
    type V = ControllerView;

    closed spec fn view(&self) -> ControllerView {
        ControllerView { state: self.state@, discovered: views(self.discovered@) }
    }
}

impl Controller {
    #[verifier::type_invariant]
    spec fn selection_is_discovered(self) -> bool {
        (ControllerView { state: self.state@, discovered: views(self.discovered@) }).valid()
    }

    /// Starts a session: reads every setting, discovers the IWADs among the
    /// entries of the stored IWAD folder, and keeps the stored selection
    /// only if it names a discovered IWAD.
    pub fn startup(
        store: &SettingsStore,
        env: &Environment,
        files: &FileSnapshot,
        entries: &Vec<String>,
    ) -> (r: Self)
        ensures
            r@.valid(),
            discovery_of(
                entries_of(store@.working.iwad_folder, env@, files@, texts(entries@)),
                r@.discovered,
            ),
            r@.state == (LauncherStateView {
                selected_iwad: kept_selection(store@.working.selected_iwad, r@.discovered),
                ..state_of(store@.working)
            }),
    {
        let mut state = LauncherState::from_settings(store);
        let iwads = catalog();
        let discovered = discover_in(state.iwad_folder(), env, files, entries, &iwads);
        proof {
            assert forall|i: int| 0 <= i < discovered.len() implies catalog_spec().contains(
                #[trigger] views(discovered@)[i],
            ) by {
                assert(views(discovered@).contains(views(discovered@)[i]));
            }
            lemma_lookup_member(views(discovered@), state@.selected_iwad);
            lemma_lookup_member(views(discovered@), store@.working.selected_iwad);
            if lookup(views(discovered@), store@.working.selected_iwad) is Some {
                let d = lookup(views(discovered@), store@.working.selected_iwad).unwrap();
                lemma_member_is_found(catalog_spec(), d);
            }
        }
        if find_iwad(&discovered, state.selected_iwad()).is_none() {
            state.clear_selection();
        }
        Controller { state, discovered }
    }

    /// The user's choices.
    pub fn state(&self) -> (r: &LauncherState)
        ensures
            r@ == self@.state,
            self@.valid(),
    {
        proof {
            use_type_invariant(self);
        }
        &self.state
    }

    /// The IWADs offered for selection, sorted by display name.
    pub fn discovered(&self) -> (r: &Vec<IWadObject>)
        ensures
            views(r@) == self@.discovered,
            self@.valid(),
    {
        proof {
            use_type_invariant(self);
        }
        &self.discovered
    }

    /// Whether a launch can be asked for: some IWAD is selected.
    pub fn launch_enabled(&self) -> (r: bool)
        ensures
            r == self@.launch_enabled(),
    {
        !self.state.selected_iwad().is_empty()
    }

    /// Takes over `state`, replaces the discovered IWADs by those of its
    /// IWAD folder, and drops a selection that is not among them.
    fn rediscover(
        &mut self,
        state: LauncherState,
        env: &Environment,
        files: &FileSnapshot,
        entries: &Vec<String>,
    )
        ensures
            final(self)@.valid(),
            discovery_of(
                entries_of(state@.iwad_folder, env@, files@, texts(entries@)),
                final(self)@.discovered,
            ),
            final(self)@.state == (LauncherStateView {
                selected_iwad: kept_selection(state@.selected_iwad, final(self)@.discovered),
                ..state@
            }),
    {
        let mut state = state;
        let iwads = catalog();
        let discovered = discover_in(state.iwad_folder(), env, files, entries, &iwads);
        proof {
            assert forall|i: int| 0 <= i < discovered.len() implies catalog_spec().contains(
                #[trigger] views(discovered@)[i],
            ) by {
                assert(views(discovered@).contains(views(discovered@)[i]));
            }
        }
        if find_iwad(&discovered, state.selected_iwad()).is_none() {
            state.clear_selection();
        }
        *self = Controller { state, discovered };
    }

    /// The IWAD folder was changed to `folder`, whose entries are `entries`:
    /// the folder is stored as given, the discovered IWADs are replaced, and
    /// the selection survives only if it is among them.
    pub fn iwad_folder_changed(
        &mut self,
        folder: &str,
        env: &Environment,
        files: &FileSnapshot,
        entries: &Vec<String>,
    )
        ensures
            final(self)@.valid(),
            discovery_of(
                entries_of(folder@, env@, files@, texts(entries@)),
                final(self)@.discovered,
            ),
            final(self)@.state == (LauncherStateView {
                iwad_folder: folder@,
                selected_iwad: kept_selection(
                    old(self)@.state.selected_iwad,
                    final(self)@.discovered,
                ),
                ..old(self)@.state
            }),
    {
        let mut state = self.state.clone();
        state.set_iwad_folder(folder);
        self.rediscover(state, env, files, entries);
    }

    /// The folder in which the patch file picker should open: the resolved
    /// PWAD folder if one is stored and exists.
    pub fn pwad_picker_folder(&self, env: &Environment, files: &FileSnapshot) -> (r: Option<
        String,
    >)
        ensures
            view_of(r) == picker_folder(self@.state.pwad_folder, env@, files@),
    {
        let stored = self.state.pwad_folder();
        if stored.is_empty() {
            None
        } else {
            existing_path(stored, env, files)
        }
    }

    /// The folder of the patch file picker was changed. The folder is stored
    /// as given and nothing else moves; the result is the folder in which
    /// the picker should open from now on.
    pub fn pwad_folder_changed(&mut self, folder: &str, env: &Environment, files: &FileSnapshot)
        -> (hint: Option<String>)
        ensures
            final(self)@ == (ControllerView {
                state: LauncherStateView { pwad_folder: folder@, ..old(self)@.state },
                ..old(self)@
            }),
            view_of(hint) == picker_folder(folder@, env@, files@),
    {
        proof {
            use_type_invariant(&*self);
        }
        let mut state = self.state.clone();
        state.set_pwad_folder(folder);
        self.state = state;
        self.pwad_picker_folder(env, files)
    }

    /// Selects one of the discovered IWADs by its file name. Any other name
    /// is refused and changes nothing.
    pub fn select_iwad(&mut self, filename: &str) -> (accepted: bool)
        ensures
            accepted == (lookup(old(self)@.discovered, filename@) is Some),
            accepted ==> final(self)@ == (ControllerView {
                state: LauncherStateView { selected_iwad: filename@, ..old(self)@.state },
                ..old(self)@
            }),
            !accepted ==> final(self)@ == old(self)@,
    {
        proof {
            use_type_invariant(&*self);
            lemma_lookup_member(views(self.discovered@), filename@);
        }
        if find_iwad(&self.discovered, filename).is_none() {
            return false;
        }
        proof {
            let d = lookup(views(self.discovered@), filename@).unwrap();
            let i = choose|i: int|
                0 <= i < views(self.discovered@).len() && views(self.discovered@)[i] == d;
            assert(catalog_spec().contains(views(self.discovered@)[i]));
            lemma_member_is_found(catalog_spec(), d);
        }
        let mut state = self.state.clone();
        let accepted = state.select_iwad(filename);
        self.state = state;
        accepted
    }

    /// Replaces the list of patch files.
    pub fn set_pwad_files(&mut self, files: &Vec<String>)
        ensures
            final(self)@ == (ControllerView {
                state: LauncherStateView { pwad_files: texts(files@), ..old(self)@.state },
                ..old(self)@
            }),
    {
        proof {
            use_type_invariant(&*self);
        }
        let mut state = self.state.clone();
        state.set_pwad_files(files);
        self.state = state;
    }

    /// Replaces the extra parameters.
    pub fn set_extra_params(&mut self, params: &str)
        ensures
            final(self)@ == (ControllerView {
                state: LauncherStateView { extra_params: params@, ..old(self)@.state },
                ..old(self)@
            }),
    {
        proof {
            use_type_invariant(&*self);
        }
        let mut state = self.state.clone();
        state.set_extra_params(params);
        self.state = state;
    }

    /// Replaces the path of the game binary.
    pub fn set_exec_file(&mut self, path: &str)
        ensures
            final(self)@ == (ControllerView {
                state: LauncherStateView { exec_file: path@, ..old(self)@.state },
                ..old(self)@
            }),
    {
        proof {
            use_type_invariant(&*self);
        }
        let mut state = self.state.clone();
        state.set_exec_file(path);
        self.state = state;
    }

    /// Replaces the folder in which asset packs are looked for.
    pub fn set_mods_folder(&mut self, path: &str)
        ensures
            final(self)@ == (ControllerView {
                state: LauncherStateView { mods_folder: path@, ..old(self)@.state },
                ..old(self)@
            }),
    {
        proof {
            use_type_invariant(&*self);
        }
        let mut state = self.state.clone();
        state.set_mods_folder(path);
        self.state = state;
    }

    /// Switches the packs of one category on or off.
    pub fn set_mods(&mut self, category: Category, on: bool)
        ensures
            final(self)@ == (ControllerView {
                state: LauncherStateView {
                    mods: old(self)@.state.mods.with(category, on),
                    ..old(self)@.state
                },
                ..old(self)@
            }),
    {
        proof {
            use_type_invariant(&*self);
        }
        let mut state = self.state.clone();
        state.set_mods(category, on);
        self.state = state;
    }

    /// Resets the parameters of the next launch: the first discovered IWAD
    /// is selected, or none if none was discovered; the patch files and the
    /// extra parameters are cleared. The preferences stay.
    pub fn reset_parameters(&mut self)
        ensures
            final(self)@ == (ControllerView {
                state: LauncherStateView {
                    selected_iwad: old(self)@.first_choice(),
                    pwad_files: Seq::empty(),
                    extra_params: Seq::empty(),
                    ..old(self)@.state
                },
                ..old(self)@
            }),
    {
        proof {
            use_type_invariant(&*self);
        }
        let mut state = self.state.clone();
        if self.discovered.len() > 0 {
            proof {
                let first = views(self.discovered@)[0];
                assert(catalog_spec().contains(first));
                lemma_member_is_found(catalog_spec(), first);
                assert(views(self.discovered@).contains(first));
                lemma_member_is_found(views(self.discovered@), first);
            }
            state.select_iwad(self.discovered[0].iwad());
        } else {
            state.clear_selection();
        }
        let none: Vec<String> = Vec::new();
        assert(texts(none@) =~= Seq::<Seq<char>>::empty());
        state.set_pwad_files(&none);
        state.set_extra_params("");
        proof {
            reveal_strlit("");
            assert(""@ =~= Seq::<char>::empty());
        }
        self.state = state;
    }

    /// Resets the preferences: the four paths return to their defaults and
    /// every asset category is switched on. `entries` are the entries of the
    /// default IWAD folder, from which the IWADs are discovered anew.
    pub fn reset_preferences(
        &mut self,
        env: &Environment,
        files: &FileSnapshot,
        entries: &Vec<String>,
    )
        ensures
            final(self)@.valid(),
            discovery_of(
                entries_of(DEFAULT_FOLDER@, env@, files@, texts(entries@)),
                final(self)@.discovered,
            ),
            final(self)@.state == (LauncherStateView {
                selected_iwad: kept_selection(
                    old(self)@.state.selected_iwad,
                    final(self)@.discovered,
                ),
                exec_file: DEFAULT_EXECUTABLE@,
                iwad_folder: DEFAULT_FOLDER@,
                pwad_folder: DEFAULT_FOLDER@,
                mods_folder: DEFAULT_FOLDER@,
                mods: ModToggles::all_on(),
                ..old(self)@.state
            }),
    {
        let mut state = self.state.clone();
        state.set_exec_file(DEFAULT_EXECUTABLE);
        state.set_iwad_folder(DEFAULT_FOLDER);
        state.set_pwad_folder(DEFAULT_FOLDER);
        state.set_mods_folder(DEFAULT_FOLDER);
        state.set_mods(Category::Textures, true);
        state.set_mods(Category::Objects, true);
        state.set_mods(Category::Monsters, true);
        state.set_mods(Category::Menus, true);
        state.set_mods(Category::Hud, true);
        self.rediscover(state, env, files, entries);
    }

    /// The paths whose existence a launch depends on.
    pub fn paths_to_probe(&self, env: &Environment) -> (r: Vec<String>)
        ensures
            texts(r@) == probes(self@.state, catalog_spec(), env@),
    {
        let iwads = catalog();
        paths_to_probe(&self.state, &iwads, env)
    }

    /// Handles the launch intent: the current choices are validated and
    /// turned into the process to start, or into the message that says why
    /// not.
    pub fn launch(&self, env: &Environment, files: &FileSnapshot) -> (r: LaunchDecision)
        ensures
            r@ == decision_spec(launch_spec(self@.state, catalog_spec(), env@, files@)),
    {
        let iwads = catalog();
        match launch(&self.state, &iwads, env, files) {
            Ok(spawn) => LaunchDecision::Proceed { spawn },
            Err(e) => LaunchDecision::Refuse { message: e.message() },
        }
    }

    /// Ends a session: every choice is written to the store, and the store
    /// is applied.
    pub fn shutdown(&self, store: &mut SettingsStore)
        ensures
            final(store)@ == saved(old(store)@, self@.state).applied(),
    {
        self.state.save(store);
        store.apply();
    }
}

/// The discovery over given folder entries is unique: the supported IWADs
/// have different display names, so their order is settled too.
pub proof fn lemma_discovery_unique(
    entries: Seq<Seq<char>>,
    first: Seq<IWadView>,
    second: Seq<IWadView>,
)
    requires
        discovery_of(entries, first),
        discovery_of(entries, second),
    ensures
        first == second,
{
    let all = catalog_spec();
    let hits = found(entries, all);
    lemma_catalog_names_unique();
    lemma_discovery_sound(entries, all);
    first.to_multiset_ensures();
    hits.to_multiset_ensures();
    all.to_multiset_ensures();
    assert(all.len() == 8);
    assert(all.no_duplicates());
    all.lemma_multiset_has_no_duplicates();
    assert forall|x: IWadView| first.to_multiset().contains(x) implies first.to_multiset().count(
        x,
    ) == 1 by {
        lemma_found_count(entries, all, x);
        assert(hits.to_multiset().count(x) > 0);
        assert(all.to_multiset().count(x) > 0);
    }
    first.lemma_multiset_has_no_duplicates_conv();
    assert forall|i: int, j: int| 0 <= i < j < first.len() implies first[i].display_name
        != first[j].display_name by {
        assert(first.contains(first[i]) && first.contains(first[j]));
        assert(first.to_multiset().count(first[i]) > 0);
        assert(first.to_multiset().count(first[j]) > 0);
        assert(hits.contains(first[i]) && hits.contains(first[j]));
        assert(all.contains(first[i]) && all.contains(first[j]));
        let p = choose|p: int| 0 <= p < all.len() && all[p] == first[i];
        let q = choose|q: int| 0 <= q < all.len() && all[q] == first[j];
        assert(first[i] != first[j]);
        assert(p != q);
    }
    lemma_sorted_unique(first, second);
}

/// A session that ends with a shutdown is found again by the next startup:
/// if the IWAD folder holds the same entries, the next session starts with
/// the choices with which this one ended.
pub proof fn lemma_session_round_trip(
    session: ControllerView,
    settings: SettingsView,
    entries: Seq<Seq<char>>,
    rediscovered: Seq<IWadView>,
)
    requires
        session.valid(),
        discovery_of(entries, session.discovered),
        discovery_of(entries, rediscovered),
    ensures
        ({
            let stored = saved(settings, session.state).applied().committed;
            (LauncherStateView {
                selected_iwad: kept_selection(stored.selected_iwad, rediscovered),
                ..state_of(stored)
            }) == session.state
        }),
{
    let selected = session.state.selected_iwad;
    lemma_discovery_unique(entries, session.discovered, rediscovered);
    if selected.len() == 0 {
        lemma_lookup_member(rediscovered, selected);
        assert(kept_selection(selected, rediscovered) =~= selected);
    }
}

} // verus!
