//! Assembly of the game's command line from the launcher state.

use vstd::prelude::*;
use crate::catalog::{find_iwad, lookup, views, Category, IWadObject, IWadView};
use crate::environment::{expand, expand_spec, Environment};
use crate::files::{join_path, join_spec, FileSnapshot};
use crate::state::{LauncherState, LauncherStateView, ModToggles};
use crate::text::{lemma_texts_push, texts};

verus! {

/// Why a launch was refused.
#[derive(Debug, PartialEq, Eq)]
pub enum LaunchError {
    /// The game binary does not exist.
    ExecutableMissing,
    /// No IWAD is selected.
    NoIwadSelected,
    /// The selected IWAD, named here, is not in the IWAD folder.
    IwadMissing(String),
}

/// What a [`LaunchError`] stands for.
pub enum LaunchErrorView {
    ExecutableMissing,
    NoIwadSelected,
    IwadMissing(Seq<char>),
}

impl View for LaunchError {
    type V = LaunchErrorView;

    open spec fn view(&self) -> LaunchErrorView {
        match self {
            LaunchError::ExecutableMissing => LaunchErrorView::ExecutableMissing,
            LaunchError::NoIwadSelected => LaunchErrorView::NoIwadSelected,
            LaunchError::IwadMissing(name) => LaunchErrorView::IwadMissing(name@),
        }
    }
}

impl LaunchErrorView {
    /// The sentence shown to the user.
    pub open spec fn message(self) -> Seq<char> {
        match self {
            LaunchErrorView::ExecutableMissing => "Zandronum executable file not found"@,
            LaunchErrorView::NoIwadSelected => "No IWAD file specified"@,
            LaunchErrorView::IwadMissing(name) => "IWAD file '"@ + name + "' not found"@,
        }
    }
}

impl LaunchError {
    /// The sentence shown to the user.
    pub fn message(&self) -> (r: String)
        ensures
            r@ == self@.message(),
    {
        match self {
            LaunchError::ExecutableMissing => "Zandronum executable file not found".to_owned(),
            LaunchError::NoIwadSelected => "No IWAD file specified".to_owned(),
            LaunchError::IwadMissing(name) => {
                let mut text = "IWAD file '".to_owned();
                text.append(name.as_str());
                text.append("' not found");
                text
            },
        }
    }
}

/// The argument that names the IWAD: ` -iwad "<path>"`.
pub open spec fn iwad_arg(path: Seq<char>) -> Seq<char> {
    " -iwad \""@ + path + "\""@
}

/// The argument that names one patch file or asset pack: ` -file "<path>"`.
pub open spec fn file_arg(path: Seq<char>) -> Seq<char> {
    " -file \""@ + path + "\""@
}

/// The `-file` arguments for those of `paths` that exist, in the order of
/// `paths`. A path that does not exist contributes nothing.
pub open spec fn file_args(paths: Seq<Seq<char>>, files: Set<Seq<char>>) -> Seq<char>
    decreases paths.len(),
{
    if paths.len() == 0 {
        Seq::empty()
    } else if files.contains(paths.last()) {
        file_args(paths.drop_last(), files) + file_arg(paths.last())
    } else {
        file_args(paths.drop_last(), files)
    }
}

/// The extra parameters as they enter the command line: nothing when they
/// are empty, else a space and the text as the user wrote it.
pub open spec fn extra_arg(params: Seq<char>) -> Seq<char> {
    if params.len() == 0 {
        Seq::empty()
    } else {
        " "@ + params
    }
}

/// Each of `paths` with its variable references expanded.
pub open spec fn expanded(paths: Seq<Seq<char>>, vars: Map<Seq<char>, Seq<char>>) -> Seq<
    Seq<char>,
> {
    Seq::new(paths.len(), |i: int| expand_spec(paths[i], vars))
}

/// Each of `names` as a path inside `folder`.
pub open spec fn inside(folder: Seq<char>, names: Seq<Seq<char>>) -> Seq<Seq<char>> {
    Seq::new(names.len(), |i: int| join_spec(folder, names[i]))
}

/// The companions of one category when its switch is on, none otherwise.
pub open spec fn gated(iwad: IWadView, mods: ModToggles, category: Category) -> Seq<Seq<char>> {
    if mods.enabled(category) {
        iwad.companions(category)
    } else {
        Seq::empty()
    }
}

/// The companion packs that the switches ask for: category by category in
/// the order textures, objects, monsters, menus, hud, and within a category
/// in the order of the table.
pub open spec fn wanted_companions(iwad: IWadView, mods: ModToggles) -> Seq<Seq<char>> {
    gated(iwad, mods, Category::Textures) + gated(iwad, mods, Category::Objects) + gated(
        iwad,
        mods,
        Category::Monsters,
    ) + gated(iwad, mods, Category::Menus) + gated(iwad, mods, Category::Hud)
}

/// The companion packs wanted for the selected IWAD; none when the
/// selection names no entry of `iwads`.
pub open spec fn selected_companions(state: LauncherStateView, iwads: Seq<IWadView>) -> Seq<
    Seq<char>,
> {
    match lookup(iwads, state.selected_iwad) {
        Some(iwad) => wanted_companions(iwad, state.mods),
        None => Seq::empty(),
    }
}

/// The resolved path of the game binary.
pub open spec fn exec_path(state: LauncherStateView, vars: Map<Seq<char>, Seq<char>>) -> Seq<
    char,
> {
    expand_spec(state.exec_file, vars)
}

/// The resolved path of the selected IWAD.
pub open spec fn iwad_path(state: LauncherStateView, vars: Map<Seq<char>, Seq<char>>) -> Seq<
    char,
> {
    join_spec(expand_spec(state.iwad_folder, vars), state.selected_iwad)
}

/// The resolved paths of the patch files.
pub open spec fn pwad_paths(state: LauncherStateView, vars: Map<Seq<char>, Seq<char>>) -> Seq<
    Seq<char>,
> {
    expanded(state.pwad_files, vars)
}

/// The resolved paths of the wanted companion packs.
pub open spec fn mod_paths(
    state: LauncherStateView,
    iwads: Seq<IWadView>,
    vars: Map<Seq<char>, Seq<char>>,
) -> Seq<Seq<char>> {
    inside(expand_spec(state.mods_folder, vars), selected_companions(state, iwads))
}

/// The command line of a state that can be launched: the binary, the IWAD,
/// the existing patch files, the extra parameters, the existing companion
/// packs.
pub open spec fn assembled(
    state: LauncherStateView,
    iwads: Seq<IWadView>,
    vars: Map<Seq<char>, Seq<char>>,
    files: Set<Seq<char>>,
) -> Seq<char> {
    exec_path(state, vars) + iwad_arg(iwad_path(state, vars)) + file_args(
        pwad_paths(state, vars),
        files,
    ) + extra_arg(state.extra_params) + file_args(mod_paths(state, iwads, vars), files)
}

/// The outcome of assembling a command line. The checks are made in this
/// order: the binary must exist, an IWAD must be selected, the IWAD must
/// exist. Patch files and companion packs never cause a failure.
pub open spec fn command_line_spec(
    state: LauncherStateView,
    iwads: Seq<IWadView>,
    vars: Map<Seq<char>, Seq<char>>,
    files: Set<Seq<char>>,
) -> Result<Seq<char>, LaunchErrorView> {
    if !files.contains(exec_path(state, vars)) {
        Err(LaunchErrorView::ExecutableMissing)
    } else if state.selected_iwad.len() == 0 {
        Err(LaunchErrorView::NoIwadSelected)
    } else if !files.contains(iwad_path(state, vars)) {
        Err(LaunchErrorView::IwadMissing(state.selected_iwad))
    } else {
        Ok(assembled(state, iwads, vars, files))
    }
}

/// The patch files of the state with their variable references expanded.
pub fn resolved_pwads(state: &LauncherState, env: &Environment) -> (r: Vec<String>)
    ensures
        texts(r@) == pwad_paths(state@, env@),
{
    let stored = state.pwad_files();
    let mut r: Vec<String> = Vec::new();
    let mut i: usize = 0;
    while i < stored.len()
        invariant
            i <= stored.len(),
            texts(stored@) == state@.pwad_files,
            r.len() == i,
            forall|k: int| 0 <= k < i ==> r@[k]@ == expand_spec(stored@[k]@, env@),
        decreases stored.len() - i,
    {
        r.push(expand(stored[i].as_str(), env));
        i = i + 1;
    }
    assert(texts(r@) =~= pwad_paths(state@, env@));
    r
}

/// Appends the companions of one category if its switch is on.
fn push_gated(names: &mut Vec<String>, iwad: &IWadObject, mods: ModToggles, category: Category)
    ensures
        texts(final(names)@) == texts(old(names)@) + gated(iwad@, mods, category),
{
    if mods.is_enabled(category) {
        let listed = iwad.companions(category);
        let mut i: usize = 0;
        while i < listed.len()
            invariant
                i <= listed.len(),
                texts(listed@) == iwad@.companions(category),
                texts(names@) == texts(old(names)@) + texts(listed@).take(i as int),
            decreases listed.len() - i,
        {
            proof {
                lemma_texts_push(names@, listed@[i as int]);
            }
            names.push(listed[i].clone());
            assert(texts(names@) =~= texts(old(names)@) + texts(listed@).take(i + 1));
            i = i + 1;
        }
        assert(texts(listed@).take(i as int) =~= texts(listed@));
    } else {
        assert(texts(names@) =~= texts(old(names)@) + gated(iwad@, mods, category));
    }
}

/// The file names of the companion packs wanted for the selected IWAD.
pub fn companion_files(state: &LauncherState, iwads: &Vec<IWadObject>) -> (r: Vec<String>)
    ensures
        texts(r@) == selected_companions(state@, views(iwads@)),
{
    let mut names: Vec<String> = Vec::new();
    match find_iwad(iwads, state.selected_iwad()) {
        Some(position) => {
            let iwad = &iwads[position];
            let mods = state.mods();
            push_gated(&mut names, iwad, mods, Category::Textures);
            push_gated(&mut names, iwad, mods, Category::Objects);
            push_gated(&mut names, iwad, mods, Category::Monsters);
            push_gated(&mut names, iwad, mods, Category::Menus);
            push_gated(&mut names, iwad, mods, Category::Hud);
            assert(texts(names@) =~= wanted_companions(iwad@, mods));
        },
        None => {
            assert(texts(names@) =~= Seq::<Seq<char>>::empty());
        },
    }
    names
}

/// The paths of the wanted companion packs inside the mods folder.
pub fn resolved_mods(state: &LauncherState, iwads: &Vec<IWadObject>, env: &Environment) -> (r:
    Vec<String>)
    ensures
        texts(r@) == mod_paths(state@, views(iwads@), env@),
{
    let names = companion_files(state, iwads);
    let folder = expand(state.mods_folder(), env);
    let mut r: Vec<String> = Vec::new();
    let mut i: usize = 0;
    while i < names.len()
        invariant
            i <= names.len(),
            folder@ == expand_spec(state@.mods_folder, env@),
            r.len() == i,
            forall|k: int| 0 <= k < i ==> r@[k]@ == join_spec(folder@, names@[k]@),
        decreases names.len() - i,
    {
        r.push(join_path(folder.as_str(), names[i].as_str()));
        i = i + 1;
    }
    assert(texts(r@) =~= mod_paths(state@, views(iwads@), env@));
    r
}

/// Appends the `-file` argument of every path that exists.
fn append_file_args(line: &mut String, paths: &Vec<String>, files: &FileSnapshot)
    ensures
        final(line)@ == old(line)@ + file_args(texts(paths@), files@),
{
    let mut i: usize = 0;
    assert(texts(paths@).take(0) =~= Seq::<Seq<char>>::empty());
    assert(line@ =~= old(line)@ + file_args(texts(paths@).take(0), files@));
    while i < paths.len()
        invariant
            i <= paths.len(),
            line@ == old(line)@ + file_args(texts(paths@).take(i as int), files@),
        decreases paths.len() - i,
    {
        proof {
            let upto = texts(paths@).take(i + 1);
            assert(upto.drop_last() =~= texts(paths@).take(i as int));
            assert(upto.last() == paths@[i as int]@);
        }
        if files.contains(paths[i].as_str()) {
            line.append(" -file \"");
            line.append(paths[i].as_str());
            line.append("\"");
            assert(line@ =~= old(line)@ + file_args(texts(paths@).take(i + 1), files@));
        }
        i = i + 1;
    }
    assert(texts(paths@).take(i as int) =~= texts(paths@));
}

/// Assembles the command line for the state, or says why it cannot be
/// launched. Only existence is checked, and only through `files`.
pub fn command_line(
    state: &LauncherState,
    iwads: &Vec<IWadObject>,
    env: &Environment,
    files: &FileSnapshot,
) -> (r: Result<String, LaunchError>)
    ensures
        match r {
            Ok(line) => command_line_spec(state@, views(iwads@), env@, files@) == Ok::<
                Seq<char>,
                LaunchErrorView,
            >(line@),
            Err(e) => command_line_spec(state@, views(iwads@), env@, files@) == Err::<
                Seq<char>,
                LaunchErrorView,
            >(e@),
        },
{
    let exec = expand(state.exec_file(), env);
    if !files.contains(exec.as_str()) {
        return Err(LaunchError::ExecutableMissing);
    }
    let mut line = exec;

    let selected = state.selected_iwad();
    if selected.is_empty() {
        return Err(LaunchError::NoIwadSelected);
    }
    let folder = expand(state.iwad_folder(), env);
    let iwad_file = join_path(folder.as_str(), selected);
    if !files.contains(iwad_file.as_str()) {
        return Err(LaunchError::IwadMissing(selected.to_owned()));
    }
    line.append(" -iwad \"");
    line.append(iwad_file.as_str());
    line.append("\"");

    let pwads = resolved_pwads(state, env);
    append_file_args(&mut line, &pwads, files);

    let params = state.extra_params();
    if !params.is_empty() {
        line.append(" ");
        line.append(params);
    }

    let mods = resolved_mods(state, iwads, env);
    append_file_args(&mut line, &mods, files);

    assert(line@ =~= assembled(state@, views(iwads@), env@, files@));
    Ok(line)
}

/// The words into which `shlex::split` breaks a command line by the rules of
/// a POSIX shell, or nothing where it reports the line as malformed.
pub uninterp spec fn shell_words(line: Seq<char>) -> Option<Seq<Seq<char>>>;

/// The texts of an optional list of words.
pub open spec fn words_view(words: Option<Vec<String>>) -> Option<Seq<Seq<char>>> {
    match words {
        Some(list) => Some(texts(list@)),
        None => None,
    }
}

/// `shlex::split` depends on its argument alone. The contract names its
/// result `shell_words` of the line and claims nothing more of it.
pub assume_specification[ shlex::split ](in_str: &str) -> (words: Option<Vec<String>>)
    ensures
        words_view(words) == shell_words(in_str@),
;

/// A process to start: the program and the arguments handed to it.
#[derive(Debug, PartialEq, Eq)]
pub struct SpawnRequest {
    pub program: String,
    pub args: Vec<String>,
}

/// What a [`SpawnRequest`] stands for.
pub struct SpawnView {
    pub program: Seq<char>,
    pub args: Seq<Seq<char>>,
}

impl View for SpawnRequest {
    type V = SpawnView;

    open spec fn view(&self) -> SpawnView {
        SpawnView { program: self.program@, args: texts(self.args@) }
    }
}

/// What an optional [`SpawnRequest`] stands for.
pub open spec fn request_view(request: Option<SpawnRequest>) -> Option<SpawnView> {
    match request {
        Some(r) => Some(r@),
        None => None,
    }
}

/// The process that a split command line asks for: the first word is the
/// program, the others are its arguments. A malformed line and a line
/// without words ask for none.
pub open spec fn spawn_spec(words: Option<Seq<Seq<char>>>) -> Option<SpawnView> {
    match words {
        Some(list) => if list.len() > 0 {
            Some(SpawnView { program: list[0], args: list.skip(1) })
        } else {
            None
        },
        None => None,
    }
}

/// Turns the words of a command line into the process to start, if any.
pub fn spawn_request(words: Option<Vec<String>>) -> (r: Option<SpawnRequest>)
    ensures
        request_view(r) == spawn_spec(words_view(words)),
{
    match words {
        Some(list) => {
            if list.len() == 0 {
                None
            } else {
                let mut args = list;
                let program = args.remove(0);
                assert(texts(args@) =~= texts(list@).skip(1));
                Some(SpawnRequest { program, args })
            }
        },
        None => None,
    }
}

/// The outcome of a launch: the failure of the command line, or the process
/// that its words ask for.
pub open spec fn launch_spec(
    state: LauncherStateView,
    iwads: Seq<IWadView>,
    vars: Map<Seq<char>, Seq<char>>,
    files: Set<Seq<char>>,
) -> Result<Option<SpawnView>, LaunchErrorView> {
    match command_line_spec(state, iwads, vars, files) {
        Ok(line) => Ok(spawn_spec(shell_words(line))),
        Err(e) => Err(e),
    }
}

/// Validates the state, assembles the command line and splits it into the
/// process to start. `Ok(None)` means that there is nothing to start.
pub fn launch(
    state: &LauncherState,
    iwads: &Vec<IWadObject>,
    env: &Environment,
    files: &FileSnapshot,
) -> (r: Result<Option<SpawnRequest>, LaunchError>)
    ensures
        match r {
            Ok(request) => launch_spec(state@, views(iwads@), env@, files@) == Ok::<
                Option<SpawnView>,
                LaunchErrorView,
            >(request_view(request)),
            Err(e) => launch_spec(state@, views(iwads@), env@, files@) == Err::<
                Option<SpawnView>,
                LaunchErrorView,
            >(e@),
        },
{
    match command_line(state, iwads, env, files) {
        Ok(line) => Ok(spawn_request(shlex::split(line.as_str()))),
        Err(e) => Err(e),
    }
}

/// Every path whose existence decides what a launch does: the binary, the
/// IWAD, the patch files and the wanted companion packs.
pub open spec fn probes(
    state: LauncherStateView,
    iwads: Seq<IWadView>,
    vars: Map<Seq<char>, Seq<char>>,
) -> Seq<Seq<char>> {
    seq![exec_path(state, vars), iwad_path(state, vars)] + pwad_paths(state, vars) + mod_paths(
        state,
        iwads,
        vars,
    )
}

/// Lists the paths that a snapshot must answer for before a launch.
pub fn paths_to_probe(state: &LauncherState, iwads: &Vec<IWadObject>, env: &Environment) -> (r:
    Vec<String>)
    ensures
        texts(r@) == probes(state@, views(iwads@), env@),
{
    let mut r: Vec<String> = Vec::new();
    r.push(expand(state.exec_file(), env));
    let folder = expand(state.iwad_folder(), env);
    r.push(join_path(folder.as_str(), state.selected_iwad()));
    let ghost first = r@;
    let mut pwads = resolved_pwads(state, env);
    let mut mods = resolved_mods(state, iwads, env);
    let ghost second = pwads@;
    let ghost third = mods@;
    r.append(&mut pwads);
    r.append(&mut mods);
    assert(texts(r@) =~= texts(first) + texts(second) + texts(third));
    assert(texts(first) =~= seq![exec_path(state@, env@), iwad_path(state@, env@)]);
    r
}

/// The `-file` arguments of a list are those of its front followed by those
/// of its back.
pub proof fn lemma_file_args_concat(
    front: Seq<Seq<char>>,
    back: Seq<Seq<char>>,
    files: Set<Seq<char>>,
)
    ensures
        file_args(front + back, files) == file_args(front, files) + file_args(back, files),
    decreases back.len(),
{
    if back.len() == 0 {
        assert(front + back =~= front);
        assert(file_args(front, files) + file_args(back, files) =~= file_args(front, files));
    } else {
        lemma_file_args_concat(front, back.drop_last(), files);
        assert((front + back).drop_last() =~= front + back.drop_last());
        assert((front + back).last() == back.last());
        if files.contains(back.last()) {
            assert(file_args(front + back, files) =~= file_args(front, files) + file_args(
                back,
                files,
            ));
        }
    }
}

/// Two snapshots that agree on every path of a list give it the same
/// `-file` arguments.
pub proof fn lemma_file_args_agree(paths: Seq<Seq<char>>, a: Set<Seq<char>>, b: Set<Seq<char>>)
    requires
        forall|i: int| 0 <= i < paths.len() ==> a.contains(paths[i]) == b.contains(paths[i]),
    ensures
        file_args(paths, a) == file_args(paths, b),
    decreases paths.len(),
{
    if paths.len() > 0 {
        let shorter = paths.drop_last();
        assert forall|i: int| 0 <= i < shorter.len() implies a.contains(shorter[i])
            == b.contains(shorter[i]) by {
            assert(shorter[i] == paths[i]);
        }
        lemma_file_args_agree(shorter, a, b);
        assert(paths.last() == paths[paths.len() - 1]);
    }
}

/// A launch reads the file system only at the probed paths: two snapshots
/// that agree on them lead to the same outcome.
pub proof fn lemma_probes_suffice(
    state: LauncherStateView,
    iwads: Seq<IWadView>,
    vars: Map<Seq<char>, Seq<char>>,
    a: Set<Seq<char>>,
    b: Set<Seq<char>>,
)
    requires
        forall|i: int|
            0 <= i < probes(state, iwads, vars).len() ==> a.contains(
                #[trigger] probes(state, iwads, vars)[i],
            ) == b.contains(probes(state, iwads, vars)[i]),
    ensures
        command_line_spec(state, iwads, vars, a) == command_line_spec(state, iwads, vars, b),
        launch_spec(state, iwads, vars, a) == launch_spec(state, iwads, vars, b),
{
    let all = probes(state, iwads, vars);
    let pwads = pwad_paths(state, vars);
    let mods = mod_paths(state, iwads, vars);
    assert(all[0] == exec_path(state, vars));
    assert(all[1] == iwad_path(state, vars));
    assert forall|i: int| 0 <= i < pwads.len() implies a.contains(pwads[i]) == b.contains(
        pwads[i],
    ) by {
        assert(all[2 + i] == pwads[i]);
    }
    assert forall|i: int| 0 <= i < mods.len() implies a.contains(mods[i]) == b.contains(
        mods[i],
    ) by {
        assert(all[2 + pwads.len() + i] == mods[i]);
    }
    lemma_file_args_agree(pwads, a, b);
    lemma_file_args_agree(mods, a, b);
}

/// A path that does not exist can be struck from a list without changing
/// its `-file` arguments.
pub proof fn lemma_missing_file_skipped(paths: Seq<Seq<char>>, files: Set<Seq<char>>, i: int)
    requires
        0 <= i < paths.len(),
        !files.contains(paths[i]),
    ensures
        file_args(paths.remove(i), files) == file_args(paths, files),
{
    let front = paths.take(i);
    let one = seq![paths[i]];
    let back = paths.skip(i + 1);
    assert(paths =~= front + one + back);
    assert(paths.remove(i) =~= front + back);
    lemma_file_args_concat(front + one, back, files);
    lemma_file_args_concat(front, one, files);
    lemma_file_args_concat(front, back, files);
    assert(one.drop_last() =~= Seq::<Seq<char>>::empty());
    assert(one.last() == paths[i]);
    assert(file_args(one.drop_last(), files) =~= Seq::<char>::empty());
    assert(file_args(one, files) =~= Seq::<char>::empty());
    assert(file_args(front, files) + file_args(one, files) =~= file_args(front, files));
}

/// Whether a launch succeeds never depends on patch files or companion
/// packs, and a patch file that does not exist might as well not be listed:
/// the outcome is the same without it.
pub proof fn lemma_missing_pwad_skipped(
    state: LauncherStateView,
    iwads: Seq<IWadView>,
    vars: Map<Seq<char>, Seq<char>>,
    files: Set<Seq<char>>,
    i: int,
)
    requires
        0 <= i < state.pwad_files.len(),
        !files.contains(expand_spec(state.pwad_files[i], vars)),
    ensures
        command_line_spec(state, iwads, vars, files) is Ok <==> files.contains(
            exec_path(state, vars),
        ) && state.selected_iwad.len() > 0 && files.contains(iwad_path(state, vars)),
        command_line_spec(state, iwads, vars, files) == command_line_spec(
            LauncherStateView { pwad_files: state.pwad_files.remove(i), ..state },
            iwads,
            vars,
            files,
        ),
{
    let without = LauncherStateView { pwad_files: state.pwad_files.remove(i), ..state };
    assert(pwad_paths(without, vars) =~= pwad_paths(state, vars).remove(i));
    lemma_missing_file_skipped(pwad_paths(state, vars), files, i);
}

/// The wanted companions of the categories that come before `category`.
pub open spec fn wanted_before(iwad: IWadView, mods: ModToggles, category: Category) -> Seq<
    Seq<char>,
> {
    match category {
        Category::Textures => Seq::empty(),
        Category::Objects => gated(iwad, mods, Category::Textures),
        Category::Monsters => gated(iwad, mods, Category::Textures) + gated(
            iwad,
            mods,
            Category::Objects,
        ),
        Category::Menus => gated(iwad, mods, Category::Textures) + gated(
            iwad,
            mods,
            Category::Objects,
        ) + gated(iwad, mods, Category::Monsters),
        Category::Hud => gated(iwad, mods, Category::Textures) + gated(
            iwad,
            mods,
            Category::Objects,
        ) + gated(iwad, mods, Category::Monsters) + gated(iwad, mods, Category::Menus),
    }
}

/// The wanted companions of the categories that come after `category`.
pub open spec fn wanted_after(iwad: IWadView, mods: ModToggles, category: Category) -> Seq<
    Seq<char>,
> {
    match category {
        Category::Textures => gated(iwad, mods, Category::Objects) + gated(
            iwad,
            mods,
            Category::Monsters,
        ) + gated(iwad, mods, Category::Menus) + gated(iwad, mods, Category::Hud),
        Category::Objects => gated(iwad, mods, Category::Monsters) + gated(
            iwad,
            mods,
            Category::Menus,
        ) + gated(iwad, mods, Category::Hud),
        Category::Monsters => gated(iwad, mods, Category::Menus) + gated(
            iwad,
            mods,
            Category::Hud,
        ),
        Category::Menus => gated(iwad, mods, Category::Hud),
        Category::Hud => Seq::empty(),
    }
}

/// Ways of grouping a concatenation of five lists, with and without an
/// empty list among them.
proof fn lemma_regroup(
    a: Seq<Seq<char>>,
    b: Seq<Seq<char>>,
    c: Seq<Seq<char>>,
    d: Seq<Seq<char>>,
    e: Seq<Seq<char>>,
)
    ensures
        a + b + c + d + e == Seq::<Seq<char>>::empty() + a + (b + c + d + e),
        a + b + c + d + e == a + b + (c + d + e),
        a + b + c + d + e == a + b + c + (d + e),
        a + b + c + d + e == a + b + c + d + e + Seq::<Seq<char>>::empty(),
        Seq::<Seq<char>>::empty() + b + c + d + e == Seq::<Seq<char>>::empty() + (b + c + d + e),
        a + Seq::<Seq<char>>::empty() + c + d + e == a + (c + d + e),
        a + b + Seq::<Seq<char>>::empty() + d + e == a + b + (d + e),
        a + b + c + Seq::<Seq<char>>::empty() + e == a + b + c + e,
{
    let none = Seq::<Seq<char>>::empty();
    assert(a + b + c + d + e =~= none + a + (b + c + d + e));
    assert(a + b + c + d + e =~= a + b + (c + d + e));
    assert(a + b + c + d + e =~= a + b + c + (d + e));
    assert(a + b + c + d + e =~= a + b + c + d + e + none);
    assert(none + b + c + d + e =~= none + (b + c + d + e));
    assert(a + none + c + d + e =~= a + (c + d + e));
    assert(a + b + none + d + e =~= a + b + (d + e));
    assert(a + b + c + none + e =~= a + b + c + e);
}

/// Switching a category off removes exactly the companions listed under it:
/// with the switch on the wanted list is what comes before, the category's
/// own companions, and what comes after; with the switch off it is what
/// comes before followed by what comes after. What comes before and after
/// does not depend on the switch.
pub proof fn lemma_toggle_gating(iwad: IWadView, mods: ModToggles, category: Category)
    ensures
        wanted_companions(iwad, mods.with(category, true)) == wanted_before(
            iwad,
            mods,
            category,
        ) + iwad.companions(category) + wanted_after(iwad, mods, category),
        wanted_companions(iwad, mods.with(category, false)) == wanted_before(
            iwad,
            mods,
            category,
        ) + wanted_after(iwad, mods, category),
{
    let t = gated(iwad, mods, Category::Textures);
    let o = gated(iwad, mods, Category::Objects);
    let m = gated(iwad, mods, Category::Monsters);
    let n = gated(iwad, mods, Category::Menus);
    let h = gated(iwad, mods, Category::Hud);
    match category {
        Category::Textures => lemma_regroup(iwad.textures, o, m, n, h),
        Category::Objects => lemma_regroup(t, iwad.objects, m, n, h),
        Category::Monsters => lemma_regroup(t, o, iwad.monsters, n, h),
        Category::Menus => lemma_regroup(t, o, m, iwad.menus, h),
        Category::Hud => lemma_regroup(t, o, m, n, iwad.hud),
    }
}

/// The paths of a list of names are those of its front followed by those of
/// its back.
pub proof fn lemma_inside_concat(folder: Seq<char>, front: Seq<Seq<char>>, back: Seq<Seq<char>>)
    ensures
        inside(folder, front + back) == inside(folder, front) + inside(folder, back),
{
    assert(inside(folder, front + back) =~= inside(folder, front) + inside(folder, back));
}

/// The `-file` arguments of the wanted companions of one category.
pub open spec fn category_args(
    state: LauncherStateView,
    iwad: IWadView,
    vars: Map<Seq<char>, Seq<char>>,
    files: Set<Seq<char>>,
    category: Category,
) -> Seq<char> {
    file_args(
        inside(expand_spec(state.mods_folder, vars), gated(iwad, state.mods, category)),
        files,
    )
}

/// The `-file` arguments of the wanted companions, category by category.
/// There are none when the selection names no entry of `iwads`.
pub open spec fn companion_args(
    state: LauncherStateView,
    iwads: Seq<IWadView>,
    vars: Map<Seq<char>, Seq<char>>,
    files: Set<Seq<char>>,
) -> Seq<char> {
    match lookup(iwads, state.selected_iwad) {
        Some(iwad) => category_args(state, iwad, vars, files, Category::Textures) + category_args(
            state,
            iwad,
            vars,
            files,
            Category::Objects,
        ) + category_args(state, iwad, vars, files, Category::Monsters) + category_args(
            state,
            iwad,
            vars,
            files,
            Category::Menus,
        ) + category_args(state, iwad, vars, files, Category::Hud),
        None => Seq::empty(),
    }
}

/// The order of the arguments: the binary, the IWAD, the patch files, the
/// extra parameters, then the companion packs category by category as
/// textures, objects, monsters, menus, hud.
pub proof fn lemma_argument_order(
    state: LauncherStateView,
    iwads: Seq<IWadView>,
    vars: Map<Seq<char>, Seq<char>>,
    files: Set<Seq<char>>,
)
    requires
        command_line_spec(state, iwads, vars, files) is Ok,
    ensures
        command_line_spec(state, iwads, vars, files) == Ok::<Seq<char>, LaunchErrorView>(
            exec_path(state, vars) + iwad_arg(iwad_path(state, vars)) + file_args(
                pwad_paths(state, vars),
                files,
            ) + extra_arg(state.extra_params) + companion_args(state, iwads, vars, files),
        ),
{
    let folder = expand_spec(state.mods_folder, vars);
    match lookup(iwads, state.selected_iwad) {
        Some(iwad) => {
            let t = gated(iwad, state.mods, Category::Textures);
            let o = gated(iwad, state.mods, Category::Objects);
            let m = gated(iwad, state.mods, Category::Monsters);
            let n = gated(iwad, state.mods, Category::Menus);
            let h = gated(iwad, state.mods, Category::Hud);
            lemma_inside_concat(folder, t + o + m + n, h);
            lemma_inside_concat(folder, t + o + m, n);
            lemma_inside_concat(folder, t + o, m);
            lemma_inside_concat(folder, t, o);
            lemma_file_args_concat(inside(folder, t + o + m + n), inside(folder, h), files);
            lemma_file_args_concat(inside(folder, t + o + m), inside(folder, n), files);
            lemma_file_args_concat(inside(folder, t + o), inside(folder, m), files);
            lemma_file_args_concat(inside(folder, t), inside(folder, o), files);
        },
        None => {
            assert(inside(folder, Seq::<Seq<char>>::empty()) =~= Seq::<Seq<char>>::empty());
        },
    }
}

/// On the command line, switching a category off removes the `-file`
/// arguments of exactly its companions and leaves everything before and
/// after them in place.
pub proof fn lemma_toggle_gating_on_command_line(
    state: LauncherStateView,
    iwads: Seq<IWadView>,
    vars: Map<Seq<char>, Seq<char>>,
    files: Set<Seq<char>>,
    iwad: IWadView,
    category: Category,
)
    requires
        lookup(iwads, state.selected_iwad) == Some(iwad),
    ensures
        ({
            let folder = expand_spec(state.mods_folder, vars);
            let on = LauncherStateView { mods: state.mods.with(category, true), ..state };
            let off = LauncherStateView { mods: state.mods.with(category, false), ..state };
            let head = exec_path(state, vars) + iwad_arg(iwad_path(state, vars)) + file_args(
                pwad_paths(state, vars),
                files,
            ) + extra_arg(state.extra_params) + file_args(
                inside(folder, wanted_before(iwad, state.mods, category)),
                files,
            );
            let own = file_args(inside(folder, iwad.companions(category)), files);
            let tail = file_args(inside(folder, wanted_after(iwad, state.mods, category)), files);
            &&& assembled(on, iwads, vars, files) == head + own + tail
            &&& assembled(off, iwads, vars, files) == head + tail
        }),
{
    let folder = expand_spec(state.mods_folder, vars);
    let before = wanted_before(iwad, state.mods, category);
    let own = iwad.companions(category);
    let after = wanted_after(iwad, state.mods, category);
    lemma_toggle_gating(iwad, state.mods, category);
    lemma_inside_concat(folder, before + own, after);
    lemma_inside_concat(folder, before, own);
    lemma_inside_concat(folder, before, after);
    lemma_file_args_concat(inside(folder, before + own), inside(folder, after), files);
    lemma_file_args_concat(inside(folder, before), inside(folder, own), files);
    lemma_file_args_concat(inside(folder, before), inside(folder, after), files);
    let on = LauncherStateView { mods: state.mods.with(category, true), ..state };
    let off = LauncherStateView { mods: state.mods.with(category, false), ..state };
    let head = exec_path(state, vars) + iwad_arg(iwad_path(state, vars)) + file_args(
        pwad_paths(state, vars),
        files,
    ) + extra_arg(state.extra_params) + file_args(inside(folder, before), files);
    assert(assembled(on, iwads, vars, files) =~= head + file_args(inside(folder, own), files)
        + file_args(inside(folder, after), files));
    assert(assembled(off, iwads, vars, files) =~= head + file_args(
        inside(folder, after),
        files,
    ));
}

} // verus!
