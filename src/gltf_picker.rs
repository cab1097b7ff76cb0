use vstd::prelude::*;

verus! {

/// Whether a file dialog for a glTF file is open at the moment.
#[derive(Clone, Copy, Debug, PartialEq, Eq, Structural)]
pub enum PickerState {
    /// No dialog is open.
    Idle,
    /// A dialog was opened and has not been seen to close yet.
    Waiting,
}

/// What the picker learns between two decisions.
pub enum PickerEvent<F> {
    /// The user asked to load a glTF file.
    LoadRequested,
    /// The open dialog was polled and is still open.
    StillOpen,
    /// The open dialog closed; `Some` holds the file that was chosen.
    Closed(Option<F>),
}

/// What the host is to do after a decision.
pub enum PickerAction<F> {
    /// Nothing to do.
    Nothing,
    /// Open a file dialog for glTF files.
    OpenDialog,
    /// Load scene number `scene` of `file` and spawn it.
    SpawnScene { file: F, scene: usize },
}

/// The scene of a glTF file that the picker spawns.
pub const FIRST_SCENE: usize = 0;

/// The state after `e` has been handled in state `s`.
pub open spec fn next_state<F>(s: PickerState, e: PickerEvent<F>) -> PickerState {
    match e {
        PickerEvent::LoadRequested => PickerState::Waiting,
        PickerEvent::StillOpen => s,
        PickerEvent::Closed(_) => PickerState::Idle,
    }
}

/// The action that `e` leads to in state `s`. A request while a dialog is
/// open opens no second one; a close that comes while no dialog is open is
/// ignored.
pub open spec fn action_for<F>(s: PickerState, e: PickerEvent<F>) -> PickerAction<F> {
    match e {
        PickerEvent::LoadRequested => if s == PickerState::Idle {
            PickerAction::OpenDialog
        } else {
            PickerAction::Nothing
        },
        PickerEvent::StillOpen => PickerAction::Nothing,
        PickerEvent::Closed(chosen) => match chosen {
            Some(file) => if s == PickerState::Waiting {
                PickerAction::SpawnScene { file, scene: FIRST_SCENE }
            } else {
                PickerAction::Nothing
            },
            None => PickerAction::Nothing,
        },
    }
}

impl PickerState {
    /// Whether the open dialog is to be polled on this frame.
    pub fn should_poll(&self) -> (r: bool)
        ensures
            r == (*self == PickerState::Waiting),
    {
        match self {
            PickerState::Idle => false,
            PickerState::Waiting => true,
        }
    }
}

/// Handles one event: returns the next state and the action for the host.
pub fn step<F>(state: PickerState, event: PickerEvent<F>) -> (r: (PickerState, PickerAction<F>))
    ensures
        r.0 == next_state(state, event),
        r.1 == action_for(state, event),
{
    match event {
        PickerEvent::LoadRequested => {
            if state == PickerState::Idle {
                (PickerState::Waiting, PickerAction::OpenDialog)
            } else {
                (PickerState::Waiting, PickerAction::Nothing)
            }
        },
        PickerEvent::StillOpen => (state, PickerAction::Nothing),
        PickerEvent::Closed(chosen) => {
            let action = match chosen {
                Some(file) => {
                    if state == PickerState::Waiting {
                        PickerAction::SpawnScene { file, scene: FIRST_SCENE }
                    } else {
                        PickerAction::Nothing
                    }
                },
                None => PickerAction::Nothing,
            };
            (PickerState::Idle, action)
        },
    }
}

/// At most one dialog is open at a time: a dialog is opened only from the
/// idle state and leaves the picker waiting, and while the picker waits no
/// event opens another one.
pub proof fn lemma_one_dialog_at_a_time<F>(s: PickerState, e: PickerEvent<F>)
    ensures
        action_for(s, e) is OpenDialog ==> s == PickerState::Idle && next_state(s, e)
            == PickerState::Waiting,
        s == PickerState::Waiting ==> !(action_for(s, e) is OpenDialog),
{
}

/// A scene is spawned only when the open dialog closes with a chosen file,
/// and then exactly that file is loaded and the picker is idle again.
pub proof fn lemma_scene_only_from_chosen_file<F>(s: PickerState, e: PickerEvent<F>)
    ensures
        action_for(s, e) is SpawnScene ==> s == PickerState::Waiting && next_state(s, e)
            == PickerState::Idle && e == PickerEvent::Closed(
            Some(action_for(s, e)->file),
        ) && action_for(s, e)->scene == FIRST_SCENE,
{
}

/// The title of the glTF file dialog.
pub const DIALOG_TITLE: &'static str = "Load GLTF file";

/// The name under which the dialog lists its file filter.
pub const FILTER_NAME: &'static str = "gltf/glb";

/// What the glTF file dialog shows and which files it offers.
pub struct DialogSpec {
    pub title: String,
    pub filter_name: String,
    /// File extensions, without the dot, that the filter lets through.
    pub extensions: Vec<String>,
}

/// The dialog that the picker opens: titled `DIALOG_TITLE`, with one filter
/// named `FILTER_NAME` that lets `.gltf` and `.glb` files through.
pub fn gltf_dialog() -> (r: DialogSpec)
    ensures
        r.title@ == DIALOG_TITLE@,
        r.filter_name@ == FILTER_NAME@,
        r.extensions@.len() == 2,
        r.extensions@[0]@ == "gltf"@,
        r.extensions@[1]@ == "glb"@,
{
    let mut extensions: Vec<String> = Vec::new();
    extensions.push(String::from_str("gltf"));
    extensions.push(String::from_str("glb"));
    DialogSpec {
        title: String::from_str(DIALOG_TITLE),
        filter_name: String::from_str(FILTER_NAME),
        extensions,
    }
}

} // verus!
