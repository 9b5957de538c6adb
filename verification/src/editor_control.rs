//! Decisions of the editor wrapper: the play / pause / stop state machine,
//! keyboard shortcuts, menu-bar actions, and the names given to entities the
//! editor creates or duplicates.
//!
//! The editor itself (world snapshots, command history, panels) carries these
//! decisions out; every choice it makes from a key, a menu label or a play
//! control is made here.
use vstd::prelude::*;
use crate::text::{str_eq, decimal, spec_decimal, lemma_decimal_injective, lemma_decimal_nonempty};

verus! {

/// Minimum window width for the editor to be usable.
pub const MIN_EDITOR_WINDOW_WIDTH: u32 = 1024;

/// Minimum window height for the editor to be usable.
pub const MIN_EDITOR_WINDOW_HEIGHT: u32 = 720;

/// Scene file used until a file picker exists.
pub const DEFAULT_SCENE_PATH: &'static str = "scenes/scene.ron";

/// Where the editor is in a play session.
#[derive(Debug, Clone, Copy, PartialEq, Eq, Structural)]
pub enum PlayState {
    /// Editing the scene; the game does not run.
    Editing,
    /// The game runs inside the editor.
    Playing,
    /// A play session is frozen.
    Paused,
}

impl PlayState {
    /// Whether a play session is under way (playing or paused).
    pub open spec fn in_play_session(self) -> bool {
        self != PlayState::Editing
    }
}

/// A play control: the toolbar buttons and their shortcuts.
#[derive(Debug, Clone, Copy, PartialEq, Eq, Structural)]
pub enum PlayControlAction {
    Play,
    Pause,
    Stop,
}

/// The outcome of a play control: the new state and the work it asks for.
#[derive(Debug, Clone, Copy, PartialEq, Eq, Structural)]
pub struct PlayStep {
    /// The play state afterwards.
    pub state: PlayState,
    /// A new play session starts: capture a snapshot of the world.
    pub capture_snapshot: bool,
    /// The play session ends: restore the world from its snapshot, drop the
    /// transform caches, and tell the game that play stopped.
    pub restore_snapshot: bool,
    /// Cancel any gizmo drag in progress.
    pub cancel_gizmo_drag: bool,
    /// Close the add-component popup.
    pub close_popup: bool,
}

/// A step that leaves everything as it was.
pub open spec fn unchanged(state: PlayState) -> PlayStep {
    PlayStep {
        state,
        capture_snapshot: false,
        restore_snapshot: false,
        cancel_gizmo_drag: false,
        close_popup: false,
    }
}

/// The play state machine.
///
/// Play from Editing starts a session (snapshot, cancel drag, close popup);
/// Play from Paused resumes (close popup); Pause only pauses a running game;
/// Stop ends a session (playing or paused) and restores the world. Anything
/// else changes nothing.
pub open spec fn spec_play_step(state: PlayState, action: PlayControlAction) -> PlayStep {
    match action {
        PlayControlAction::Play => match state {
            PlayState::Editing => PlayStep {
                state: PlayState::Playing,
                capture_snapshot: true,
                restore_snapshot: false,
                cancel_gizmo_drag: true,
                close_popup: true,
            },
            PlayState::Paused => PlayStep { state: PlayState::Playing, close_popup: true, ..unchanged(state) },
            PlayState::Playing => unchanged(state),
        },
        PlayControlAction::Pause => if state == PlayState::Playing {
            unchanged(PlayState::Paused)
        } else {
            unchanged(state)
        },
        PlayControlAction::Stop => if state.in_play_session() {
            PlayStep { restore_snapshot: true, ..unchanged(PlayState::Editing) }
        } else {
            unchanged(state)
        },
    }
}

/// Apply a play control to the current play state.
pub fn play_step(state: PlayState, action: PlayControlAction) -> (r: PlayStep)
    ensures
        r == spec_play_step(state, action),
{
    match action {
        PlayControlAction::Play => match state {
            PlayState::Editing => PlayStep {
                state: PlayState::Playing,
                capture_snapshot: true,
                restore_snapshot: false,
                cancel_gizmo_drag: true,
                close_popup: true,
            },
            PlayState::Paused => PlayStep {
                state: PlayState::Playing,
                capture_snapshot: false,
                restore_snapshot: false,
                cancel_gizmo_drag: false,
                close_popup: true,
            },
            PlayState::Playing => PlayStep {
                state,
                capture_snapshot: false,
                restore_snapshot: false,
                cancel_gizmo_drag: false,
                close_popup: false,
            },
        },
        PlayControlAction::Pause => {
            let next = match state {
                PlayState::Playing => PlayState::Paused,
                _ => state,
            };
            PlayStep {
                state: next,
                capture_snapshot: false,
                restore_snapshot: false,
                cancel_gizmo_drag: false,
                close_popup: false,
            }
        },
        PlayControlAction::Stop => match state {
            PlayState::Editing => PlayStep {
                state,
                capture_snapshot: false,
                restore_snapshot: false,
                cancel_gizmo_drag: false,
                close_popup: false,
            },
            _ => PlayStep {
                state: PlayState::Editing,
                capture_snapshot: false,
                restore_snapshot: true,
                cancel_gizmo_drag: false,
                close_popup: false,
            },
        },
    }
}

/// Whether a world snapshot is held after `step`, given whether one was
/// held before: a restore consumes it, a capture makes one.
pub open spec fn holds_snapshot_after(held: bool, step: PlayStep) -> bool {
    (held && !step.restore_snapshot) || step.capture_snapshot
}

/// A world snapshot is held exactly while a play session is under way: every
/// play control keeps that true.
pub proof fn law_snapshot_held_during_session(state: PlayState, held: bool, action: PlayControlAction)
    requires
        held == state.in_play_session(),
    ensures
        holds_snapshot_after(held, spec_play_step(state, action)) == spec_play_step(state, action).state.in_play_session(),
{
}

/// Play always leaves the game running, Stop always returns to editing, and
/// Pause pauses exactly a running game.
pub proof fn law_controls_reach_their_state(state: PlayState)
    ensures
        spec_play_step(state, PlayControlAction::Play).state == PlayState::Playing,
        spec_play_step(state, PlayControlAction::Stop).state == PlayState::Editing,
        spec_play_step(state, PlayControlAction::Pause).state == (if state == PlayState::Playing {
            PlayState::Paused
        } else {
            state
        }),
{
}

/// A full Play → Pause → Play → Stop cycle from editing captures one
/// snapshot, restores it once, and ends where it started.
pub proof fn law_play_cycle_returns_to_editing()
    ensures
        ({
            let s1 = spec_play_step(PlayState::Editing, PlayControlAction::Play);
            let s2 = spec_play_step(s1.state, PlayControlAction::Pause);
            let s3 = spec_play_step(s2.state, PlayControlAction::Play);
            let s4 = spec_play_step(s3.state, PlayControlAction::Stop);
            &&& s1.state == PlayState::Playing && s1.capture_snapshot
            &&& s2.state == PlayState::Paused && !s2.capture_snapshot && !s2.restore_snapshot
            &&& s3.state == PlayState::Playing && !s3.capture_snapshot && !s3.restore_snapshot
            &&& s4.state == PlayState::Editing && s4.restore_snapshot && !s4.capture_snapshot
        }),
{
}

/// Stop outside a play session, and Play or Pause that find nothing to do,
/// change nothing.
pub proof fn law_idle_controls_change_nothing(state: PlayState)
    ensures
        !state.in_play_session() ==> spec_play_step(state, PlayControlAction::Stop) == unchanged(state),
        state == PlayState::Playing ==> spec_play_step(state, PlayControlAction::Play) == unchanged(state),
        state != PlayState::Playing ==> spec_play_step(state, PlayControlAction::Pause) == unchanged(state),
{
}

/// The work each control asks for. Starting a session from editing
/// captures the snapshot, cancels a gizmo drag and closes the popup;
/// resuming from pause only closes the popup; pausing asks for nothing;
/// stopping a session (playing or paused) restores the snapshot and nothing
/// else. Only a new session captures, and only a stop restores.
pub proof fn law_play_step_effects(state: PlayState, action: PlayControlAction)
    ensures
        spec_play_step(PlayState::Editing, PlayControlAction::Play) == (PlayStep {
            state: PlayState::Playing,
            capture_snapshot: true,
            restore_snapshot: false,
            cancel_gizmo_drag: true,
            close_popup: true,
        }),
        spec_play_step(PlayState::Paused, PlayControlAction::Play) == (PlayStep {
            state: PlayState::Playing,
            capture_snapshot: false,
            restore_snapshot: false,
            cancel_gizmo_drag: false,
            close_popup: true,
        }),
        spec_play_step(PlayState::Playing, PlayControlAction::Pause) == (PlayStep {
            state: PlayState::Paused,
            capture_snapshot: false,
            restore_snapshot: false,
            cancel_gizmo_drag: false,
            close_popup: false,
        }),
        state.in_play_session() ==> spec_play_step(state, PlayControlAction::Stop) == (PlayStep {
            state: PlayState::Editing,
            capture_snapshot: false,
            restore_snapshot: true,
            cancel_gizmo_drag: false,
            close_popup: false,
        }),
        spec_play_step(state, action).capture_snapshot <==> (state == PlayState::Editing && action
            == PlayControlAction::Play),
        spec_play_step(state, action).restore_snapshot <==> (state.in_play_session() && action
            == PlayControlAction::Stop),
{
}

/// The keys the editor gives a meaning to; every other key is `Other`.
#[derive(Debug, Clone, Copy, PartialEq, Eq, Structural)]
pub enum EditorKey {
    KeyP,
    KeyZ,
    KeyY,
    KeyG,
    KeyC,
    KeyS,
    KeyN,
    KeyO,
    KeyD,
    Delete,
    Backspace,
    Equal,
    Minus,
    Digit0,
    F5,
    Other,
}

/// What a key press does in the editor.
#[derive(Debug, Clone, Copy, PartialEq, Eq, Structural)]
pub enum KeyCommand {
    /// A focused text input owns the keyboard: the editor does nothing.
    Ignore,
    /// A play control; when it stops a session the game is told.
    Control(PlayControlAction),
    /// The key goes to the game.
    Forward,
    Undo,
    Redo,
    ToggleGrid,
    ToggleColliders,
    SaveAs,
    Save,
    NewScene,
    OpenScene,
    Duplicate,
    DeleteSelection,
    ZoomIn,
    ZoomOut,
    ResetCamera,
}

/// The editor's keyboard map.
///
/// Play shortcuts are always intercepted: Ctrl+Shift+P stops, Ctrl+P toggles
/// play and pause. While the game is playing every other key goes to the
/// game. While editing or paused the editor shortcuts apply (undo, redo,
/// grid, colliders, save, save as, new, open, duplicate, delete, zoom, reset
/// camera, F5 to play); keys without a shortcut go to the game.
pub open spec fn spec_key_command(key: EditorKey, ctrl: bool, shift: bool, text_focus: bool, playing: bool) -> KeyCommand {
    if text_focus {
        KeyCommand::Ignore
    } else if key == EditorKey::KeyP && ctrl && shift {
        KeyCommand::Control(PlayControlAction::Stop)
    } else if key == EditorKey::KeyP && ctrl {
        if playing {
            KeyCommand::Control(PlayControlAction::Pause)
        } else {
            KeyCommand::Control(PlayControlAction::Play)
        }
    } else if playing {
        KeyCommand::Forward
    } else {
        match key {
            EditorKey::KeyZ => if ctrl && !shift {
                KeyCommand::Undo
            } else if ctrl {
                KeyCommand::Redo
            } else {
                KeyCommand::Forward
            },
            EditorKey::KeyY => if ctrl { KeyCommand::Redo } else { KeyCommand::Forward },
            EditorKey::KeyG => KeyCommand::ToggleGrid,
            EditorKey::KeyC => if !ctrl { KeyCommand::ToggleColliders } else { KeyCommand::Forward },
            EditorKey::KeyS => if ctrl && shift {
                KeyCommand::SaveAs
            } else if ctrl {
                KeyCommand::Save
            } else {
                KeyCommand::Forward
            },
            EditorKey::KeyN => if ctrl { KeyCommand::NewScene } else { KeyCommand::Forward },
            EditorKey::KeyO => if ctrl { KeyCommand::OpenScene } else { KeyCommand::Forward },
            EditorKey::KeyD => if ctrl { KeyCommand::Duplicate } else { KeyCommand::Forward },
            EditorKey::Delete | EditorKey::Backspace => KeyCommand::DeleteSelection,
            EditorKey::Equal => KeyCommand::ZoomIn,
            EditorKey::Minus => KeyCommand::ZoomOut,
            EditorKey::Digit0 => KeyCommand::ResetCamera,
            EditorKey::F5 => KeyCommand::Control(PlayControlAction::Play),
            _ => KeyCommand::Forward,
        }
    }
}

/// What pressing `key` does, given the modifier keys held, whether a text
/// input has keyboard focus, and whether the game is playing.
pub fn key_command(key: EditorKey, ctrl: bool, shift: bool, text_focus: bool, playing: bool) -> (r: KeyCommand)
    ensures
        r == spec_key_command(key, ctrl, shift, text_focus, playing),
{
    if text_focus {
        return KeyCommand::Ignore;
    }
    if key == EditorKey::KeyP && ctrl && shift {
        return KeyCommand::Control(PlayControlAction::Stop);
    }
    if key == EditorKey::KeyP && ctrl {
        return if playing {
            KeyCommand::Control(PlayControlAction::Pause)
        } else {
            KeyCommand::Control(PlayControlAction::Play)
        };
    }
    if playing {
        return KeyCommand::Forward;
    }
    match key {
        EditorKey::KeyZ => if ctrl && !shift {
            KeyCommand::Undo
        } else if ctrl {
            KeyCommand::Redo
        } else {
            KeyCommand::Forward
        },
        EditorKey::KeyY => if ctrl { KeyCommand::Redo } else { KeyCommand::Forward },
        EditorKey::KeyG => KeyCommand::ToggleGrid,
        EditorKey::KeyC => if !ctrl { KeyCommand::ToggleColliders } else { KeyCommand::Forward },
        EditorKey::KeyS => if ctrl && shift {
            KeyCommand::SaveAs
        } else if ctrl {
            KeyCommand::Save
        } else {
            KeyCommand::Forward
        },
        EditorKey::KeyN => if ctrl { KeyCommand::NewScene } else { KeyCommand::Forward },
        EditorKey::KeyO => if ctrl { KeyCommand::OpenScene } else { KeyCommand::Forward },
        EditorKey::KeyD => if ctrl { KeyCommand::Duplicate } else { KeyCommand::Forward },
        EditorKey::Delete | EditorKey::Backspace => KeyCommand::DeleteSelection,
        EditorKey::Equal => KeyCommand::ZoomIn,
        EditorKey::Minus => KeyCommand::ZoomOut,
        EditorKey::Digit0 => KeyCommand::ResetCamera,
        EditorKey::F5 => KeyCommand::Control(PlayControlAction::Play),
        _ => KeyCommand::Forward,
    }
}

/// The keyboard map's promises: a focused text input swallows every key;
/// otherwise Ctrl+P always reaches the play controls, and while the game is
/// playing every other key reaches the game.
pub proof fn law_key_routing(key: EditorKey, ctrl: bool, shift: bool, text_focus: bool, playing: bool)
    ensures
        text_focus ==> spec_key_command(key, ctrl, shift, text_focus, playing) == KeyCommand::Ignore,
        !text_focus && key == EditorKey::KeyP && ctrl
            ==> spec_key_command(key, ctrl, shift, text_focus, playing) is Control,
        !text_focus && playing && !(key == EditorKey::KeyP && ctrl)
            ==> spec_key_command(key, ctrl, shift, text_focus, playing) == KeyCommand::Forward,
{
}

/// The editing shortcut table. While editing or paused with no text focus:
/// Ctrl+Z undoes and Ctrl+Shift+Z or Ctrl+Y redoes; G toggles the grid and
/// C (without Ctrl) the colliders; Ctrl+S saves, Ctrl+Shift+S saves as;
/// Ctrl+N, Ctrl+O and Ctrl+D make a new scene, open one and duplicate;
/// Delete and Backspace both delete the selection; `=`, `-` and `0` zoom in,
/// zoom out and reset the camera; F5 plays; Ctrl+Shift+P stops and Ctrl+P
/// plays; any other key goes to the game.
pub proof fn law_editing_shortcuts(ctrl: bool, shift: bool)
    ensures
        spec_key_command(EditorKey::Delete, ctrl, shift, false, false) == KeyCommand::DeleteSelection,
        spec_key_command(EditorKey::Backspace, ctrl, shift, false, false) == KeyCommand::DeleteSelection,
        spec_key_command(EditorKey::KeyZ, true, false, false, false) == KeyCommand::Undo,
        spec_key_command(EditorKey::KeyZ, true, true, false, false) == KeyCommand::Redo,
        spec_key_command(EditorKey::KeyZ, false, shift, false, false) == KeyCommand::Forward,
        spec_key_command(EditorKey::KeyY, true, shift, false, false) == KeyCommand::Redo,
        spec_key_command(EditorKey::KeyY, false, shift, false, false) == KeyCommand::Forward,
        spec_key_command(EditorKey::KeyG, ctrl, shift, false, false) == KeyCommand::ToggleGrid,
        spec_key_command(EditorKey::KeyC, false, shift, false, false) == KeyCommand::ToggleColliders,
        spec_key_command(EditorKey::KeyC, true, shift, false, false) == KeyCommand::Forward,
        spec_key_command(EditorKey::KeyS, true, true, false, false) == KeyCommand::SaveAs,
        spec_key_command(EditorKey::KeyS, true, false, false, false) == KeyCommand::Save,
        spec_key_command(EditorKey::KeyS, false, shift, false, false) == KeyCommand::Forward,
        spec_key_command(EditorKey::KeyN, true, shift, false, false) == KeyCommand::NewScene,
        spec_key_command(EditorKey::KeyN, false, shift, false, false) == KeyCommand::Forward,
        spec_key_command(EditorKey::KeyO, true, shift, false, false) == KeyCommand::OpenScene,
        spec_key_command(EditorKey::KeyO, false, shift, false, false) == KeyCommand::Forward,
        spec_key_command(EditorKey::KeyD, true, shift, false, false) == KeyCommand::Duplicate,
        spec_key_command(EditorKey::KeyD, false, shift, false, false) == KeyCommand::Forward,
        spec_key_command(EditorKey::Equal, ctrl, shift, false, false) == KeyCommand::ZoomIn,
        spec_key_command(EditorKey::Minus, ctrl, shift, false, false) == KeyCommand::ZoomOut,
        spec_key_command(EditorKey::Digit0, ctrl, shift, false, false) == KeyCommand::ResetCamera,
        spec_key_command(EditorKey::F5, ctrl, shift, false, false) == KeyCommand::Control(PlayControlAction::Play),
        spec_key_command(EditorKey::KeyP, true, true, false, false) == KeyCommand::Control(PlayControlAction::Stop),
        spec_key_command(EditorKey::KeyP, true, false, false, false) == KeyCommand::Control(PlayControlAction::Play),
        spec_key_command(EditorKey::KeyP, false, shift, false, false) == KeyCommand::Forward,
        spec_key_command(EditorKey::Other, ctrl, shift, false, false) == KeyCommand::Forward,
{
}

/// While the game plays, Ctrl+Shift+P stops it, Ctrl+P pauses it, and every
/// other key — Delete, F5 and Ctrl+Z included — reaches the game.
pub proof fn law_playing_shortcuts(key: EditorKey, ctrl: bool, shift: bool)
    ensures
        spec_key_command(EditorKey::KeyP, true, true, false, true) == KeyCommand::Control(PlayControlAction::Stop),
        spec_key_command(EditorKey::KeyP, true, false, false, true) == KeyCommand::Control(PlayControlAction::Pause),
        key != EditorKey::KeyP ==> spec_key_command(key, ctrl, shift, false, true) == KeyCommand::Forward,
{
}

/// Ctrl+P twice from editing plays and then pauses; Ctrl+Shift+P then stops
/// the session and returns to editing.
pub proof fn law_ctrl_p_toggles()
    ensures
        ({
            let k1 = spec_key_command(EditorKey::KeyP, true, false, false, false);
            let s1 = spec_play_step(PlayState::Editing, k1->Control_0);
            let k2 = spec_key_command(EditorKey::KeyP, true, false, false, s1.state == PlayState::Playing);
            let s2 = spec_play_step(s1.state, k2->Control_0);
            let k3 = spec_key_command(EditorKey::KeyP, true, true, false, s2.state == PlayState::Playing);
            let s3 = spec_play_step(s2.state, k3->Control_0);
            &&& k1 == KeyCommand::Control(PlayControlAction::Play) && s1.state == PlayState::Playing
            &&& k2 == KeyCommand::Control(PlayControlAction::Pause) && s2.state == PlayState::Paused
            &&& k3 == KeyCommand::Control(PlayControlAction::Stop) && s3.state == PlayState::Editing
            &&& s3.restore_snapshot
        }),
{
}

/// The editing tools.
#[derive(Debug, Clone, Copy, PartialEq, Eq, Structural)]
pub enum EditorTool {
    Select,
    Move,
    Rotate,
    Scale,
}

/// The tool chosen by the Q/W/E/R shortcuts this frame: none while the game
/// plays or a text input has focus; otherwise the first of Q, W, E, R that
/// was just pressed selects Select, Move, Rotate or Scale.
pub open spec fn spec_tool_shortcut(playing: bool, text_focus: bool, q: bool, w: bool, e: bool, r: bool) -> Option<EditorTool> {
    if playing || text_focus {
        None
    } else if q {
        Some(EditorTool::Select)
    } else if w {
        Some(EditorTool::Move)
    } else if e {
        Some(EditorTool::Rotate)
    } else if r {
        Some(EditorTool::Scale)
    } else {
        None
    }
}

/// The tool to switch to, from which of Q, W, E, R were just pressed.
pub fn tool_shortcut(playing: bool, text_focus: bool, q: bool, w: bool, e: bool, r: bool) -> (t: Option<EditorTool>)
    ensures
        t == spec_tool_shortcut(playing, text_focus, q, w, e, r),
{
    if playing || text_focus {
        None
    } else if q {
        Some(EditorTool::Select)
    } else if w {
        Some(EditorTool::Move)
    } else if e {
        Some(EditorTool::Rotate)
    } else if r {
        Some(EditorTool::Scale)
    } else {
        None
    }
}

/// Q, W, E and R pick Select, Move, Rotate and Scale, the first pressed in
/// that order winning; nothing switches while the game plays or a text
/// input has focus, or when none of them was pressed.
pub proof fn law_tool_keys(playing: bool, text_focus: bool, q: bool, w: bool, e: bool, r: bool)
    ensures
        (playing || text_focus) ==> spec_tool_shortcut(playing, text_focus, q, w, e, r) is None,
        spec_tool_shortcut(false, false, true, w, e, r) == Some(EditorTool::Select),
        spec_tool_shortcut(false, false, false, true, e, r) == Some(EditorTool::Move),
        spec_tool_shortcut(false, false, false, false, true, r) == Some(EditorTool::Rotate),
        spec_tool_shortcut(false, false, false, false, false, true) == Some(EditorTool::Scale),
        spec_tool_shortcut(playing, text_focus, false, false, false, false) is None,
{
}

/// The kinds of entity the Create menu makes.
#[derive(Debug, Clone, Copy, PartialEq, Eq, Structural)]
pub enum CreateKind {
    Empty,
    Sprite,
    Camera,
    StaticBody,
    DynamicBody,
    KinematicBody,
}

/// The panels the View menu shows and hides.
#[derive(Debug, Clone, Copy, PartialEq, Eq, Structural)]
pub enum PanelToggle {
    Inspector,
    Hierarchy,
    AssetBrowser,
}

/// What a menu-bar item does.
#[derive(Debug, Clone, Copy, PartialEq, Eq, Structural)]
pub enum MenuCommand {
    Create(CreateKind),
    Delete,
    Duplicate,
    Undo,
    Redo,
    NewScene,
    OpenScene,
    Save,
    SaveAs,
    Exit,
    ToggleGrid,
    ToggleColliders,
    TogglePanel(PanelToggle),
    ResetLayout,
    /// Not a known item, or one that is disabled while the game plays.
    Unhandled,
}

/// The Create menu item for each kind, by its label.
pub open spec fn spec_create_kind(label: Seq<char>) -> Option<CreateKind> {
    if label == "Create Empty"@ {
        Some(CreateKind::Empty)
    } else if label == "Create Sprite"@ {
        Some(CreateKind::Sprite)
    } else if label == "Create Camera"@ {
        Some(CreateKind::Camera)
    } else if label == "Create Static Body"@ {
        Some(CreateKind::StaticBody)
    } else if label == "Create Dynamic Body"@ {
        Some(CreateKind::DynamicBody)
    } else if label == "Create Kinematic Body"@ {
        Some(CreateKind::KinematicBody)
    } else {
        None
    }
}

/// The entity a Create menu action makes, or `None` when the action is not a
/// create action.
pub fn create_kind(action: &str) -> (r: Option<CreateKind>)
    ensures
        r == spec_create_kind(action@),
{
    if str_eq(action, "Create Empty") {
        Some(CreateKind::Empty)
    } else if str_eq(action, "Create Sprite") {
        Some(CreateKind::Sprite)
    } else if str_eq(action, "Create Camera") {
        Some(CreateKind::Camera)
    } else if str_eq(action, "Create Static Body") {
        Some(CreateKind::StaticBody)
    } else if str_eq(action, "Create Dynamic Body") {
        Some(CreateKind::DynamicBody)
    } else if str_eq(action, "Create Kinematic Body") {
        Some(CreateKind::KinematicBody)
    } else {
        None
    }
}

/// The menu bar's dispatch. Items that change the scene (create, delete,
/// duplicate, undo, redo, new, open) are disabled while the game plays;
/// saving, exiting and the View menu always work.
pub open spec fn spec_menu_command(label: Seq<char>, playing: bool) -> MenuCommand {
    if spec_create_kind(label) is Some && !playing {
        MenuCommand::Create(spec_create_kind(label)->0)
    } else if label == "Delete"@ && !playing {
        MenuCommand::Delete
    } else if label == "Duplicate"@ && !playing {
        MenuCommand::Duplicate
    } else if label == "Undo"@ && !playing {
        MenuCommand::Undo
    } else if label == "Redo"@ && !playing {
        MenuCommand::Redo
    } else if label == "New Scene"@ && !playing {
        MenuCommand::NewScene
    } else if label == "Open Scene..."@ && !playing {
        MenuCommand::OpenScene
    } else if label == "Save"@ {
        MenuCommand::Save
    } else if label == "Save As..."@ {
        MenuCommand::SaveAs
    } else if label == "Exit"@ {
        MenuCommand::Exit
    } else if label == "Toggle Grid"@ {
        MenuCommand::ToggleGrid
    } else if label == "Toggle Colliders"@ {
        MenuCommand::ToggleColliders
    } else if label == "Inspector"@ {
        MenuCommand::TogglePanel(PanelToggle::Inspector)
    } else if label == "Hierarchy"@ {
        MenuCommand::TogglePanel(PanelToggle::Hierarchy)
    } else if label == "Asset Browser"@ {
        MenuCommand::TogglePanel(PanelToggle::AssetBrowser)
    } else if label == "Reset Layout"@ {
        MenuCommand::ResetLayout
    } else {
        MenuCommand::Unhandled
    }
}

/// What the menu item labelled `action` does.
pub fn menu_command(action: &str, playing: bool) -> (r: MenuCommand)
    ensures
        r == spec_menu_command(action@, playing),
{
    if !playing {
        if let Some(kind) = create_kind(action) {
            return MenuCommand::Create(kind);
        }
    }
    if !playing && str_eq(action, "Delete") {
        MenuCommand::Delete
    } else if !playing && str_eq(action, "Duplicate") {
        MenuCommand::Duplicate
    } else if !playing && str_eq(action, "Undo") {
        MenuCommand::Undo
    } else if !playing && str_eq(action, "Redo") {
        MenuCommand::Redo
    } else if !playing && str_eq(action, "New Scene") {
        MenuCommand::NewScene
    } else if !playing && str_eq(action, "Open Scene...") {
        MenuCommand::OpenScene
    } else if str_eq(action, "Save") {
        MenuCommand::Save
    } else if str_eq(action, "Save As...") {
        MenuCommand::SaveAs
    } else if str_eq(action, "Exit") {
        MenuCommand::Exit
    } else if str_eq(action, "Toggle Grid") {
        MenuCommand::ToggleGrid
    } else if str_eq(action, "Toggle Colliders") {
        MenuCommand::ToggleColliders
    } else if str_eq(action, "Inspector") {
        MenuCommand::TogglePanel(PanelToggle::Inspector)
    } else if str_eq(action, "Hierarchy") {
        MenuCommand::TogglePanel(PanelToggle::Hierarchy)
    } else if str_eq(action, "Asset Browser") {
        MenuCommand::TogglePanel(PanelToggle::AssetBrowser)
    } else if str_eq(action, "Reset Layout") {
        MenuCommand::ResetLayout
    } else {
        MenuCommand::Unhandled
    }
}

/// While the game plays, no menu item changes the scene.
pub proof fn law_playing_locks_scene_edits(label: Seq<char>)
    ensures
        ({
            let c = spec_menu_command(label, true);
            !(c is Create || c is Delete || c is Duplicate || c is Undo || c is Redo || c is NewScene
                || c is OpenScene)
        }),
{
}

/// The menu table while editing: every item maps to its own command — the
/// Create items to their kind, Delete, Duplicate, Undo, Redo, New Scene,
/// Open Scene..., Save, Save As..., Exit, the two toggles, the three panels
/// and Reset Layout.
pub proof fn law_menu_items_while_editing()
    ensures
        spec_menu_command("Create Empty"@, false) == MenuCommand::Create(CreateKind::Empty),
        spec_menu_command("Create Sprite"@, false) == MenuCommand::Create(CreateKind::Sprite),
        spec_menu_command("Create Camera"@, false) == MenuCommand::Create(CreateKind::Camera),
        spec_menu_command("Create Static Body"@, false) == MenuCommand::Create(CreateKind::StaticBody),
        spec_menu_command("Create Dynamic Body"@, false) == MenuCommand::Create(CreateKind::DynamicBody),
        spec_menu_command("Create Kinematic Body"@, false) == MenuCommand::Create(CreateKind::KinematicBody),
        spec_menu_command("Delete"@, false) == MenuCommand::Delete,
        spec_menu_command("Duplicate"@, false) == MenuCommand::Duplicate,
        spec_menu_command("Undo"@, false) == MenuCommand::Undo,
        spec_menu_command("Redo"@, false) == MenuCommand::Redo,
        spec_menu_command("New Scene"@, false) == MenuCommand::NewScene,
        spec_menu_command("Open Scene..."@, false) == MenuCommand::OpenScene,
        spec_menu_command("Save"@, false) == MenuCommand::Save,
        spec_menu_command("Save As..."@, false) == MenuCommand::SaveAs,
        spec_menu_command("Exit"@, false) == MenuCommand::Exit,
        spec_menu_command("Toggle Grid"@, false) == MenuCommand::ToggleGrid,
        spec_menu_command("Toggle Colliders"@, false) == MenuCommand::ToggleColliders,
        spec_menu_command("Inspector"@, false) == MenuCommand::TogglePanel(PanelToggle::Inspector),
        spec_menu_command("Hierarchy"@, false) == MenuCommand::TogglePanel(PanelToggle::Hierarchy),
        spec_menu_command("Asset Browser"@, false) == MenuCommand::TogglePanel(PanelToggle::AssetBrowser),
        spec_menu_command("Reset Layout"@, false) == MenuCommand::ResetLayout,
{
    reveal_menu_labels();
}

/// The menu table while playing: the scene edits are disabled (unhandled);
/// saving, exiting, the View toggles and panels, and Reset Layout still work.
pub proof fn law_menu_items_while_playing()
    ensures
        spec_menu_command("Create Empty"@, true) == MenuCommand::Unhandled,
        spec_menu_command("Create Sprite"@, true) == MenuCommand::Unhandled,
        spec_menu_command("Delete"@, true) == MenuCommand::Unhandled,
        spec_menu_command("Duplicate"@, true) == MenuCommand::Unhandled,
        spec_menu_command("Undo"@, true) == MenuCommand::Unhandled,
        spec_menu_command("Redo"@, true) == MenuCommand::Unhandled,
        spec_menu_command("New Scene"@, true) == MenuCommand::Unhandled,
        spec_menu_command("Open Scene..."@, true) == MenuCommand::Unhandled,
        spec_menu_command("Save"@, true) == MenuCommand::Save,
        spec_menu_command("Save As..."@, true) == MenuCommand::SaveAs,
        spec_menu_command("Exit"@, true) == MenuCommand::Exit,
        spec_menu_command("Toggle Grid"@, true) == MenuCommand::ToggleGrid,
        spec_menu_command("Toggle Colliders"@, true) == MenuCommand::ToggleColliders,
        spec_menu_command("Inspector"@, true) == MenuCommand::TogglePanel(PanelToggle::Inspector),
        spec_menu_command("Hierarchy"@, true) == MenuCommand::TogglePanel(PanelToggle::Hierarchy),
        spec_menu_command("Asset Browser"@, true) == MenuCommand::TogglePanel(PanelToggle::AssetBrowser),
        spec_menu_command("Reset Layout"@, true) == MenuCommand::ResetLayout,
{
    reveal_menu_labels();
}

/// The menu labels are pairwise different texts.
proof fn reveal_menu_labels()
    ensures
        "Create Sprite"@ != "Create Empty"@,
        "Create Camera"@ != "Create Empty"@,
        "Create Camera"@ != "Create Sprite"@,
        "Create Static Body"@ != "Create Empty"@,
        "Create Static Body"@ != "Create Sprite"@,
        "Create Static Body"@ != "Create Camera"@,
        "Create Dynamic Body"@ != "Create Empty"@,
        "Create Dynamic Body"@ != "Create Sprite"@,
        "Create Dynamic Body"@ != "Create Camera"@,
        "Create Dynamic Body"@ != "Create Static Body"@,
        "Create Kinematic Body"@ != "Create Empty"@,
        "Create Kinematic Body"@ != "Create Sprite"@,
        "Create Kinematic Body"@ != "Create Camera"@,
        "Create Kinematic Body"@ != "Create Static Body"@,
        "Create Kinematic Body"@ != "Create Dynamic Body"@,
        "Delete"@ != "Create Empty"@,
        "Delete"@ != "Create Sprite"@,
        "Delete"@ != "Create Camera"@,
        "Delete"@ != "Create Static Body"@,
        "Delete"@ != "Create Dynamic Body"@,
        "Delete"@ != "Create Kinematic Body"@,
        "Duplicate"@ != "Create Empty"@,
        "Duplicate"@ != "Create Sprite"@,
        "Duplicate"@ != "Create Camera"@,
        "Duplicate"@ != "Create Static Body"@,
        "Duplicate"@ != "Create Dynamic Body"@,
        "Duplicate"@ != "Create Kinematic Body"@,
        "Duplicate"@ != "Delete"@,
        "Undo"@ != "Create Empty"@,
        "Undo"@ != "Create Sprite"@,
        "Undo"@ != "Create Camera"@,
        "Undo"@ != "Create Static Body"@,
        "Undo"@ != "Create Dynamic Body"@,
        "Undo"@ != "Create Kinematic Body"@,
        "Undo"@ != "Delete"@,
        "Undo"@ != "Duplicate"@,
        "Redo"@ != "Create Empty"@,
        "Redo"@ != "Create Sprite"@,
        "Redo"@ != "Create Camera"@,
        "Redo"@ != "Create Static Body"@,
        "Redo"@ != "Create Dynamic Body"@,
        "Redo"@ != "Create Kinematic Body"@,
        "Redo"@ != "Delete"@,
        "Redo"@ != "Duplicate"@,
        "Redo"@ != "Undo"@,
        "New Scene"@ != "Create Empty"@,
        "New Scene"@ != "Create Sprite"@,
        "New Scene"@ != "Create Camera"@,
        "New Scene"@ != "Create Static Body"@,
        "New Scene"@ != "Create Dynamic Body"@,
        "New Scene"@ != "Create Kinematic Body"@,
        "New Scene"@ != "Delete"@,
        "New Scene"@ != "Duplicate"@,
        "New Scene"@ != "Undo"@,
        "New Scene"@ != "Redo"@,
        "Open Scene..."@ != "Create Empty"@,
        "Open Scene..."@ != "Create Sprite"@,
        "Open Scene..."@ != "Create Camera"@,
        "Open Scene..."@ != "Create Static Body"@,
        "Open Scene..."@ != "Create Dynamic Body"@,
        "Open Scene..."@ != "Create Kinematic Body"@,
        "Open Scene..."@ != "Delete"@,
        "Open Scene..."@ != "Duplicate"@,
        "Open Scene..."@ != "Undo"@,
        "Open Scene..."@ != "Redo"@,
        "Open Scene..."@ != "New Scene"@,
        "Save"@ != "Create Empty"@,
        "Save"@ != "Create Sprite"@,
        "Save"@ != "Create Camera"@,
        "Save"@ != "Create Static Body"@,
        "Save"@ != "Create Dynamic Body"@,
        "Save"@ != "Create Kinematic Body"@,
        "Save"@ != "Delete"@,
        "Save"@ != "Duplicate"@,
        "Save"@ != "Undo"@,
        "Save"@ != "Redo"@,
        "Save"@ != "New Scene"@,
        "Save"@ != "Open Scene..."@,
        "Save As..."@ != "Create Empty"@,
        "Save As..."@ != "Create Sprite"@,
        "Save As..."@ != "Create Camera"@,
        "Save As..."@ != "Create Static Body"@,
        "Save As..."@ != "Create Dynamic Body"@,
        "Save As..."@ != "Create Kinematic Body"@,
        "Save As..."@ != "Delete"@,
        "Save As..."@ != "Duplicate"@,
        "Save As..."@ != "Undo"@,
        "Save As..."@ != "Redo"@,
        "Save As..."@ != "New Scene"@,
        "Save As..."@ != "Open Scene..."@,
        "Save As..."@ != "Save"@,
        "Exit"@ != "Create Empty"@,
        "Exit"@ != "Create Sprite"@,
        "Exit"@ != "Create Camera"@,
        "Exit"@ != "Create Static Body"@,
        "Exit"@ != "Create Dynamic Body"@,
        "Exit"@ != "Create Kinematic Body"@,
        "Exit"@ != "Delete"@,
        "Exit"@ != "Duplicate"@,
        "Exit"@ != "Undo"@,
        "Exit"@ != "Redo"@,
        "Exit"@ != "New Scene"@,
        "Exit"@ != "Open Scene..."@,
        "Exit"@ != "Save"@,
        "Exit"@ != "Save As..."@,
        "Toggle Grid"@ != "Create Empty"@,
        "Toggle Grid"@ != "Create Sprite"@,
        "Toggle Grid"@ != "Create Camera"@,
        "Toggle Grid"@ != "Create Static Body"@,
        "Toggle Grid"@ != "Create Dynamic Body"@,
        "Toggle Grid"@ != "Create Kinematic Body"@,
        "Toggle Grid"@ != "Delete"@,
        "Toggle Grid"@ != "Duplicate"@,
        "Toggle Grid"@ != "Undo"@,
        "Toggle Grid"@ != "Redo"@,
        "Toggle Grid"@ != "New Scene"@,
        "Toggle Grid"@ != "Open Scene..."@,
        "Toggle Grid"@ != "Save"@,
        "Toggle Grid"@ != "Save As..."@,
        "Toggle Grid"@ != "Exit"@,
        "Toggle Colliders"@ != "Create Empty"@,
        "Toggle Colliders"@ != "Create Sprite"@,
        "Toggle Colliders"@ != "Create Camera"@,
        "Toggle Colliders"@ != "Create Static Body"@,
        "Toggle Colliders"@ != "Create Dynamic Body"@,
        "Toggle Colliders"@ != "Create Kinematic Body"@,
        "Toggle Colliders"@ != "Delete"@,
        "Toggle Colliders"@ != "Duplicate"@,
        "Toggle Colliders"@ != "Undo"@,
        "Toggle Colliders"@ != "Redo"@,
        "Toggle Colliders"@ != "New Scene"@,
        "Toggle Colliders"@ != "Open Scene..."@,
        "Toggle Colliders"@ != "Save"@,
        "Toggle Colliders"@ != "Save As..."@,
        "Toggle Colliders"@ != "Exit"@,
        "Toggle Colliders"@ != "Toggle Grid"@,
        "Inspector"@ != "Create Empty"@,
        "Inspector"@ != "Create Sprite"@,
        "Inspector"@ != "Create Camera"@,
        "Inspector"@ != "Create Static Body"@,
        "Inspector"@ != "Create Dynamic Body"@,
        "Inspector"@ != "Create Kinematic Body"@,
        "Inspector"@ != "Delete"@,
        "Inspector"@ != "Duplicate"@,
        "Inspector"@ != "Undo"@,
        "Inspector"@ != "Redo"@,
        "Inspector"@ != "New Scene"@,
        "Inspector"@ != "Open Scene..."@,
        "Inspector"@ != "Save"@,
        "Inspector"@ != "Save As..."@,
        "Inspector"@ != "Exit"@,
        "Inspector"@ != "Toggle Grid"@,
        "Inspector"@ != "Toggle Colliders"@,
        "Hierarchy"@ != "Create Empty"@,
        "Hierarchy"@ != "Create Sprite"@,
        "Hierarchy"@ != "Create Camera"@,
        "Hierarchy"@ != "Create Static Body"@,
        "Hierarchy"@ != "Create Dynamic Body"@,
        "Hierarchy"@ != "Create Kinematic Body"@,
        "Hierarchy"@ != "Delete"@,
        "Hierarchy"@ != "Duplicate"@,
        "Hierarchy"@ != "Undo"@,
        "Hierarchy"@ != "Redo"@,
        "Hierarchy"@ != "New Scene"@,
        "Hierarchy"@ != "Open Scene..."@,
        "Hierarchy"@ != "Save"@,
        "Hierarchy"@ != "Save As..."@,
        "Hierarchy"@ != "Exit"@,
        "Hierarchy"@ != "Toggle Grid"@,
        "Hierarchy"@ != "Toggle Colliders"@,
        "Hierarchy"@ != "Inspector"@,
        "Asset Browser"@ != "Create Empty"@,
        "Asset Browser"@ != "Create Sprite"@,
        "Asset Browser"@ != "Create Camera"@,
        "Asset Browser"@ != "Create Static Body"@,
        "Asset Browser"@ != "Create Dynamic Body"@,
        "Asset Browser"@ != "Create Kinematic Body"@,
        "Asset Browser"@ != "Delete"@,
        "Asset Browser"@ != "Duplicate"@,
        "Asset Browser"@ != "Undo"@,
        "Asset Browser"@ != "Redo"@,
        "Asset Browser"@ != "New Scene"@,
        "Asset Browser"@ != "Open Scene..."@,
        "Asset Browser"@ != "Save"@,
        "Asset Browser"@ != "Save As..."@,
        "Asset Browser"@ != "Exit"@,
        "Asset Browser"@ != "Toggle Grid"@,
        "Asset Browser"@ != "Toggle Colliders"@,
        "Asset Browser"@ != "Inspector"@,
        "Asset Browser"@ != "Hierarchy"@,
        "Reset Layout"@ != "Create Empty"@,
        "Reset Layout"@ != "Create Sprite"@,
        "Reset Layout"@ != "Create Camera"@,
        "Reset Layout"@ != "Create Static Body"@,
        "Reset Layout"@ != "Create Dynamic Body"@,
        "Reset Layout"@ != "Create Kinematic Body"@,
        "Reset Layout"@ != "Delete"@,
        "Reset Layout"@ != "Duplicate"@,
        "Reset Layout"@ != "Undo"@,
        "Reset Layout"@ != "Redo"@,
        "Reset Layout"@ != "New Scene"@,
        "Reset Layout"@ != "Open Scene..."@,
        "Reset Layout"@ != "Save"@,
        "Reset Layout"@ != "Save As..."@,
        "Reset Layout"@ != "Exit"@,
        "Reset Layout"@ != "Toggle Grid"@,
        "Reset Layout"@ != "Toggle Colliders"@,
        "Reset Layout"@ != "Inspector"@,
        "Reset Layout"@ != "Hierarchy"@,
        "Reset Layout"@ != "Asset Browser"@,
{
    reveal_strlit("Create Empty");
    reveal_strlit("Create Sprite");
    reveal_strlit("Create Camera");
    reveal_strlit("Create Static Body");
    reveal_strlit("Create Dynamic Body");
    reveal_strlit("Create Kinematic Body");
    reveal_strlit("Delete");
    reveal_strlit("Duplicate");
    reveal_strlit("Undo");
    reveal_strlit("Redo");
    reveal_strlit("New Scene");
    reveal_strlit("Open Scene...");
    reveal_strlit("Save");
    reveal_strlit("Save As...");
    reveal_strlit("Exit");
    reveal_strlit("Toggle Grid");
    reveal_strlit("Toggle Colliders");
    reveal_strlit("Inspector");
    reveal_strlit("Hierarchy");
    reveal_strlit("Asset Browser");
    reveal_strlit("Reset Layout");
    assert("Create Sprite"@.len() != "Create Empty"@.len());
    assert("Create Camera"@.len() != "Create Empty"@.len());
    assert("Create Camera"@[7] != "Create Sprite"@[7]);
    assert("Create Static Body"@.len() != "Create Empty"@.len());
    assert("Create Static Body"@.len() != "Create Sprite"@.len());
    assert("Create Static Body"@.len() != "Create Camera"@.len());
    assert("Create Dynamic Body"@.len() != "Create Empty"@.len());
    assert("Create Dynamic Body"@.len() != "Create Sprite"@.len());
    assert("Create Dynamic Body"@.len() != "Create Camera"@.len());
    assert("Create Dynamic Body"@.len() != "Create Static Body"@.len());
    assert("Create Kinematic Body"@.len() != "Create Empty"@.len());
    assert("Create Kinematic Body"@.len() != "Create Sprite"@.len());
    assert("Create Kinematic Body"@.len() != "Create Camera"@.len());
    assert("Create Kinematic Body"@.len() != "Create Static Body"@.len());
    assert("Create Kinematic Body"@.len() != "Create Dynamic Body"@.len());
    assert("Delete"@.len() != "Create Empty"@.len());
    assert("Delete"@.len() != "Create Sprite"@.len());
    assert("Delete"@.len() != "Create Camera"@.len());
    assert("Delete"@.len() != "Create Static Body"@.len());
    assert("Delete"@.len() != "Create Dynamic Body"@.len());
    assert("Delete"@.len() != "Create Kinematic Body"@.len());
    assert("Duplicate"@.len() != "Create Empty"@.len());
    assert("Duplicate"@.len() != "Create Sprite"@.len());
    assert("Duplicate"@.len() != "Create Camera"@.len());
    assert("Duplicate"@.len() != "Create Static Body"@.len());
    assert("Duplicate"@.len() != "Create Dynamic Body"@.len());
    assert("Duplicate"@.len() != "Create Kinematic Body"@.len());
    assert("Duplicate"@.len() != "Delete"@.len());
    assert("Undo"@.len() != "Create Empty"@.len());
    assert("Undo"@.len() != "Create Sprite"@.len());
    assert("Undo"@.len() != "Create Camera"@.len());
    assert("Undo"@.len() != "Create Static Body"@.len());
    assert("Undo"@.len() != "Create Dynamic Body"@.len());
    assert("Undo"@.len() != "Create Kinematic Body"@.len());
    assert("Undo"@.len() != "Delete"@.len());
    assert("Undo"@.len() != "Duplicate"@.len());
    assert("Redo"@.len() != "Create Empty"@.len());
    assert("Redo"@.len() != "Create Sprite"@.len());
    assert("Redo"@.len() != "Create Camera"@.len());
    assert("Redo"@.len() != "Create Static Body"@.len());
    assert("Redo"@.len() != "Create Dynamic Body"@.len());
    assert("Redo"@.len() != "Create Kinematic Body"@.len());
    assert("Redo"@.len() != "Delete"@.len());
    assert("Redo"@.len() != "Duplicate"@.len());
    assert("Redo"@[0] != "Undo"@[0]);
    assert("New Scene"@.len() != "Create Empty"@.len());
    assert("New Scene"@.len() != "Create Sprite"@.len());
    assert("New Scene"@.len() != "Create Camera"@.len());
    assert("New Scene"@.len() != "Create Static Body"@.len());
    assert("New Scene"@.len() != "Create Dynamic Body"@.len());
    assert("New Scene"@.len() != "Create Kinematic Body"@.len());
    assert("New Scene"@.len() != "Delete"@.len());
    assert("New Scene"@[0] != "Duplicate"@[0]);
    assert("New Scene"@.len() != "Undo"@.len());
    assert("New Scene"@.len() != "Redo"@.len());
    assert("Open Scene..."@.len() != "Create Empty"@.len());
    assert("Open Scene..."@[0] != "Create Sprite"@[0]);
    assert("Open Scene..."@[0] != "Create Camera"@[0]);
    assert("Open Scene..."@.len() != "Create Static Body"@.len());
    assert("Open Scene..."@.len() != "Create Dynamic Body"@.len());
    assert("Open Scene..."@.len() != "Create Kinematic Body"@.len());
    assert("Open Scene..."@.len() != "Delete"@.len());
    assert("Open Scene..."@.len() != "Duplicate"@.len());
    assert("Open Scene..."@.len() != "Undo"@.len());
    assert("Open Scene..."@.len() != "Redo"@.len());
    assert("Open Scene..."@.len() != "New Scene"@.len());
    assert("Save"@.len() != "Create Empty"@.len());
    assert("Save"@.len() != "Create Sprite"@.len());
    assert("Save"@.len() != "Create Camera"@.len());
    assert("Save"@.len() != "Create Static Body"@.len());
    assert("Save"@.len() != "Create Dynamic Body"@.len());
    assert("Save"@.len() != "Create Kinematic Body"@.len());
    assert("Save"@.len() != "Delete"@.len());
    assert("Save"@.len() != "Duplicate"@.len());
    assert("Save"@[0] != "Undo"@[0]);
    assert("Save"@[0] != "Redo"@[0]);
    assert("Save"@.len() != "New Scene"@.len());
    assert("Save"@.len() != "Open Scene..."@.len());
    assert("Save As..."@.len() != "Create Empty"@.len());
    assert("Save As..."@.len() != "Create Sprite"@.len());
    assert("Save As..."@.len() != "Create Camera"@.len());
    assert("Save As..."@.len() != "Create Static Body"@.len());
    assert("Save As..."@.len() != "Create Dynamic Body"@.len());
    assert("Save As..."@.len() != "Create Kinematic Body"@.len());
    assert("Save As..."@.len() != "Delete"@.len());
    assert("Save As..."@.len() != "Duplicate"@.len());
    assert("Save As..."@.len() != "Undo"@.len());
    assert("Save As..."@.len() != "Redo"@.len());
    assert("Save As..."@.len() != "New Scene"@.len());
    assert("Save As..."@.len() != "Open Scene..."@.len());
    assert("Save As..."@.len() != "Save"@.len());
    assert("Exit"@.len() != "Create Empty"@.len());
    assert("Exit"@.len() != "Create Sprite"@.len());
    assert("Exit"@.len() != "Create Camera"@.len());
    assert("Exit"@.len() != "Create Static Body"@.len());
    assert("Exit"@.len() != "Create Dynamic Body"@.len());
    assert("Exit"@.len() != "Create Kinematic Body"@.len());
    assert("Exit"@.len() != "Delete"@.len());
    assert("Exit"@.len() != "Duplicate"@.len());
    assert("Exit"@[0] != "Undo"@[0]);
    assert("Exit"@[0] != "Redo"@[0]);
    assert("Exit"@.len() != "New Scene"@.len());
    assert("Exit"@.len() != "Open Scene..."@.len());
    assert("Exit"@[0] != "Save"@[0]);
    assert("Exit"@.len() != "Save As..."@.len());
    assert("Toggle Grid"@.len() != "Create Empty"@.len());
    assert("Toggle Grid"@.len() != "Create Sprite"@.len());
    assert("Toggle Grid"@.len() != "Create Camera"@.len());
    assert("Toggle Grid"@.len() != "Create Static Body"@.len());
    assert("Toggle Grid"@.len() != "Create Dynamic Body"@.len());
    assert("Toggle Grid"@.len() != "Create Kinematic Body"@.len());
    assert("Toggle Grid"@.len() != "Delete"@.len());
    assert("Toggle Grid"@.len() != "Duplicate"@.len());
    assert("Toggle Grid"@.len() != "Undo"@.len());
    assert("Toggle Grid"@.len() != "Redo"@.len());
    assert("Toggle Grid"@.len() != "New Scene"@.len());
    assert("Toggle Grid"@.len() != "Open Scene..."@.len());
    assert("Toggle Grid"@.len() != "Save"@.len());
    assert("Toggle Grid"@.len() != "Save As..."@.len());
    assert("Toggle Grid"@.len() != "Exit"@.len());
    assert("Toggle Colliders"@.len() != "Create Empty"@.len());
    assert("Toggle Colliders"@.len() != "Create Sprite"@.len());
    assert("Toggle Colliders"@.len() != "Create Camera"@.len());
    assert("Toggle Colliders"@.len() != "Create Static Body"@.len());
    assert("Toggle Colliders"@.len() != "Create Dynamic Body"@.len());
    assert("Toggle Colliders"@.len() != "Create Kinematic Body"@.len());
    assert("Toggle Colliders"@.len() != "Delete"@.len());
    assert("Toggle Colliders"@.len() != "Duplicate"@.len());
    assert("Toggle Colliders"@.len() != "Undo"@.len());
    assert("Toggle Colliders"@.len() != "Redo"@.len());
    assert("Toggle Colliders"@.len() != "New Scene"@.len());
    assert("Toggle Colliders"@.len() != "Open Scene..."@.len());
    assert("Toggle Colliders"@.len() != "Save"@.len());
    assert("Toggle Colliders"@.len() != "Save As..."@.len());
    assert("Toggle Colliders"@.len() != "Exit"@.len());
    assert("Toggle Colliders"@.len() != "Toggle Grid"@.len());
    assert("Inspector"@.len() != "Create Empty"@.len());
    assert("Inspector"@.len() != "Create Sprite"@.len());
    assert("Inspector"@.len() != "Create Camera"@.len());
    assert("Inspector"@.len() != "Create Static Body"@.len());
    assert("Inspector"@.len() != "Create Dynamic Body"@.len());
    assert("Inspector"@.len() != "Create Kinematic Body"@.len());
    assert("Inspector"@.len() != "Delete"@.len());
    assert("Inspector"@[0] != "Duplicate"@[0]);
    assert("Inspector"@.len() != "Undo"@.len());
    assert("Inspector"@.len() != "Redo"@.len());
    assert("Inspector"@[0] != "New Scene"@[0]);
    assert("Inspector"@.len() != "Open Scene..."@.len());
    assert("Inspector"@.len() != "Save"@.len());
    assert("Inspector"@.len() != "Save As..."@.len());
    assert("Inspector"@.len() != "Exit"@.len());
    assert("Inspector"@.len() != "Toggle Grid"@.len());
    assert("Inspector"@.len() != "Toggle Colliders"@.len());
    assert("Hierarchy"@.len() != "Create Empty"@.len());
    assert("Hierarchy"@.len() != "Create Sprite"@.len());
    assert("Hierarchy"@.len() != "Create Camera"@.len());
    assert("Hierarchy"@.len() != "Create Static Body"@.len());
    assert("Hierarchy"@.len() != "Create Dynamic Body"@.len());
    assert("Hierarchy"@.len() != "Create Kinematic Body"@.len());
    assert("Hierarchy"@.len() != "Delete"@.len());
    assert("Hierarchy"@[0] != "Duplicate"@[0]);
    assert("Hierarchy"@.len() != "Undo"@.len());
    assert("Hierarchy"@.len() != "Redo"@.len());
    assert("Hierarchy"@[0] != "New Scene"@[0]);
    assert("Hierarchy"@.len() != "Open Scene..."@.len());
    assert("Hierarchy"@.len() != "Save"@.len());
    assert("Hierarchy"@.len() != "Save As..."@.len());
    assert("Hierarchy"@.len() != "Exit"@.len());
    assert("Hierarchy"@.len() != "Toggle Grid"@.len());
    assert("Hierarchy"@.len() != "Toggle Colliders"@.len());
    assert("Hierarchy"@[0] != "Inspector"@[0]);
    assert("Asset Browser"@.len() != "Create Empty"@.len());
    assert("Asset Browser"@[0] != "Create Sprite"@[0]);
    assert("Asset Browser"@[0] != "Create Camera"@[0]);
    assert("Asset Browser"@.len() != "Create Static Body"@.len());
    assert("Asset Browser"@.len() != "Create Dynamic Body"@.len());
    assert("Asset Browser"@.len() != "Create Kinematic Body"@.len());
    assert("Asset Browser"@.len() != "Delete"@.len());
    assert("Asset Browser"@.len() != "Duplicate"@.len());
    assert("Asset Browser"@.len() != "Undo"@.len());
    assert("Asset Browser"@.len() != "Redo"@.len());
    assert("Asset Browser"@.len() != "New Scene"@.len());
    assert("Asset Browser"@[0] != "Open Scene..."@[0]);
    assert("Asset Browser"@.len() != "Save"@.len());
    assert("Asset Browser"@.len() != "Save As..."@.len());
    assert("Asset Browser"@.len() != "Exit"@.len());
    assert("Asset Browser"@.len() != "Toggle Grid"@.len());
    assert("Asset Browser"@.len() != "Toggle Colliders"@.len());
    assert("Asset Browser"@.len() != "Inspector"@.len());
    assert("Asset Browser"@.len() != "Hierarchy"@.len());
    assert("Reset Layout"@[0] != "Create Empty"@[0]);
    assert("Reset Layout"@.len() != "Create Sprite"@.len());
    assert("Reset Layout"@.len() != "Create Camera"@.len());
    assert("Reset Layout"@.len() != "Create Static Body"@.len());
    assert("Reset Layout"@.len() != "Create Dynamic Body"@.len());
    assert("Reset Layout"@.len() != "Create Kinematic Body"@.len());
    assert("Reset Layout"@.len() != "Delete"@.len());
    assert("Reset Layout"@.len() != "Duplicate"@.len());
    assert("Reset Layout"@.len() != "Undo"@.len());
    assert("Reset Layout"@.len() != "Redo"@.len());
    assert("Reset Layout"@.len() != "New Scene"@.len());
    assert("Reset Layout"@.len() != "Open Scene..."@.len());
    assert("Reset Layout"@.len() != "Save"@.len());
    assert("Reset Layout"@.len() != "Save As..."@.len());
    assert("Reset Layout"@.len() != "Exit"@.len());
    assert("Reset Layout"@.len() != "Toggle Grid"@.len());
    assert("Reset Layout"@.len() != "Toggle Colliders"@.len());
    assert("Reset Layout"@.len() != "Inspector"@.len());
    assert("Reset Layout"@.len() != "Hierarchy"@.len());
    assert("Reset Layout"@.len() != "Asset Browser"@.len());
}

/// The name prefix of each kind of created entity.
pub open spec fn spec_create_label(kind: CreateKind) -> Seq<char> {
    match kind {
        CreateKind::Empty => "Entity"@,
        CreateKind::Sprite => "Sprite"@,
        CreateKind::Camera => "Camera"@,
        CreateKind::StaticBody => "StaticBody"@,
        CreateKind::DynamicBody => "DynamicBody"@,
        CreateKind::KinematicBody => "KinematicBody"@,
    }
}

/// The name prefix given to a created entity of `kind`.
pub fn create_label(kind: CreateKind) -> (r: &'static str)
    ensures
        r@ == spec_create_label(kind),
{
    match kind {
        CreateKind::Empty => "Entity",
        CreateKind::Sprite => "Sprite",
        CreateKind::Camera => "Camera",
        CreateKind::StaticBody => "StaticBody",
        CreateKind::DynamicBody => "DynamicBody",
        CreateKind::KinematicBody => "KinematicBody",
    }
}

/// Each created entity is named after its own kind: Entity (empty),
/// Sprite, Camera, StaticBody, DynamicBody, KinematicBody — so different
/// kinds never share a name prefix.
pub proof fn law_create_labels(a: CreateKind, b: CreateKind)
    ensures
        spec_create_label(CreateKind::Empty) == "Entity"@,
        spec_create_label(CreateKind::Sprite) == "Sprite"@,
        spec_create_label(CreateKind::Camera) == "Camera"@,
        spec_create_label(CreateKind::StaticBody) == "StaticBody"@,
        spec_create_label(CreateKind::DynamicBody) == "DynamicBody"@,
        spec_create_label(CreateKind::KinematicBody) == "KinematicBody"@,
        a != b ==> spec_create_label(a) != spec_create_label(b),
{
    reveal_strlit("Entity");
    reveal_strlit("Sprite");
    reveal_strlit("Camera");
    reveal_strlit("StaticBody");
    reveal_strlit("DynamicBody");
    reveal_strlit("KinematicBody");
    if a != b {
        let la = spec_create_label(a);
        let lb = spec_create_label(b);
        assert(la.len() != lb.len() || la[0] != lb[0]);
    }
}

/// The name of the `n`-th entity the editor created, labelled `label`:
/// the label, a space, and `n` in decimal.
pub open spec fn spec_entity_name(label: Seq<char>, n: nat) -> Seq<char> {
    label + " "@ + spec_decimal(n)
}

/// Count one more created entity and name it after `label`.
pub fn next_entity_name(label: &str, counter: &mut u32) -> (r: String)
    requires
        *old(counter) < u32::MAX,
    ensures
        *final(counter) == *old(counter) + 1,
        r@ == spec_entity_name(label@, *final(counter) as nat),
{
    *counter = *counter + 1;
    let mut name = label.to_string();
    name.append(" ");
    let digits = decimal(*counter as u128);
    name.append(digits.as_str());
    name
}

/// The name of a duplicate: the original name with " (Copy)" appended.
pub open spec fn spec_copy_name(name: Seq<char>) -> Seq<char> {
    name + " (Copy)"@
}

/// Entities created under one label get different names for different
/// counts — "Sprite 1", "Sprite 2", ... — each the label, a space, then the
/// count. A duplicate keeps the original name and ends in " (Copy)".
pub proof fn law_entity_names(label: Seq<char>, n1: nat, n2: nat, name: Seq<char>)
    ensures
        n1 != n2 ==> spec_entity_name(label, n1) != spec_entity_name(label, n2),
        spec_entity_name(label, n1).subrange(0, label.len() as int) == label,
        spec_entity_name(label, n1)[label.len() as int] == ' ',
        spec_copy_name(name).subrange(0, name.len() as int) == name,
        spec_copy_name(name).subrange(name.len() as int, spec_copy_name(name).len() as int) == seq![
            ' ',
            '(',
            'C',
            'o',
            'p',
            'y',
            ')',
        ],
{
    reveal_strlit(" ");
    reveal_strlit(" (Copy)");
    let a = spec_entity_name(label, n1);
    let b = spec_entity_name(label, n2);
    let pre = label + " "@;
    assert(a.subrange(0, label.len() as int) =~= label);
    assert(spec_copy_name(name).subrange(0, name.len() as int) =~= name);
    assert(spec_copy_name(name).subrange(name.len() as int, spec_copy_name(name).len() as int) =~= seq![
        ' ',
        '(',
        'C',
        'o',
        'p',
        'y',
        ')',
    ]);
    if a == b {
        assert(a.subrange(pre.len() as int, a.len() as int) =~= spec_decimal(n1));
        assert(b.subrange(pre.len() as int, b.len() as int) =~= spec_decimal(n2));
        lemma_decimal_injective(n1, n2);
    }
}

/// The name given to a duplicated entity.
pub fn copy_name(name: &str) -> (r: String)
    ensures
        r@ == spec_copy_name(name@),
{
    let mut s = name.to_string();
    s.append(" (Copy)");
    s
}

/// Where Save writes: the scene's own path, or the default scene path for a
/// scene never saved.
pub fn save_target<'a>(scene_path: Option<&'a str>) -> (r: &'a str)
    ensures
        r@ == (match scene_path {
            Some(p) => p@,
            None => DEFAULT_SCENE_PATH@,
        }),
{
    match scene_path {
        Some(p) => p,
        None => DEFAULT_SCENE_PATH,
    }
}

/// How a scene file refers to a texture: by its asset path when it has
/// one; otherwise `#white` for the built-in white texture (id 0) and
/// `#texture_<id>` for any other generated texture.
pub open spec fn spec_texture_ref(handle: u32, path: Option<Seq<char>>) -> Seq<char> {
    match path {
        Some(p) => p,
        None => if handle == 0 {
            "#white"@
        } else {
            "#texture_"@ + spec_decimal(handle as nat)
        },
    }
}

/// The reference a saved scene uses for texture `handle`, given the asset
/// path it was loaded from, if any.
pub fn texture_ref(handle: u32, path: Option<&str>) -> (r: String)
    ensures
        r@ == spec_texture_ref(handle, match path {
            Some(p) => Some(p@),
            None => None,
        }),
{
    match path {
        Some(p) => p.to_string(),
        None => if handle == 0 {
            "#white".to_string()
        } else {
            let mut s = "#texture_".to_string();
            let digits = decimal(handle as u128);
            s.append(digits.as_str());
            s
        },
    }
}

/// Generated textures never share a reference: handle 0 is `#white`,
/// any other handle `#texture_<id>`, and different handles give different
/// references. A texture with an asset path is referred to by that path.
pub proof fn law_texture_refs(h1: u32, h2: u32, path: Seq<char>)
    ensures
        spec_texture_ref(0, None) == "#white"@,
        spec_texture_ref(h1, Some(path)) == path,
        h1 != h2 ==> spec_texture_ref(h1, None) != spec_texture_ref(h2, None),
        h1 != 0 ==> spec_texture_ref(h1, None).subrange(0, 9) == "#texture_"@,
{
    reveal_strlit("#white");
    reveal_strlit("#texture_");
    let prefix = "#texture_"@;
    if h1 != 0 {
        assert(spec_texture_ref(h1, None).subrange(0, 9) =~= prefix);
    }
    if h1 != h2 {
        let a = spec_texture_ref(h1, None);
        let b = spec_texture_ref(h2, None);
        if h1 != 0 && h2 != 0 {
            if a == b {
                assert(a.subrange(9, a.len() as int) =~= spec_decimal(h1 as nat));
                assert(b.subrange(9, b.len() as int) =~= spec_decimal(h2 as nat));
                lemma_decimal_injective(h1 as nat, h2 as nat);
            }
        } else if h1 == 0 {
            lemma_decimal_nonempty(h2 as nat);
            assert(b[1] == 't');
            assert(a[1] == 'w');
        } else {
            lemma_decimal_nonempty(h1 as nat);
            assert(a[1] == 't');
            assert(b[1] == 'w');
        }
    }
}

/// Whether the wrapped game runs its update this frame: only while playing
/// (editing and paused freeze it).
pub fn inner_game_runs(state: PlayState) -> (r: bool)
    ensures
        r == (state == PlayState::Playing),
{
    match state {
        PlayState::Playing => true,
        _ => false,
    }
}

/// Whether the scene is dirty after an undo or redo: it becomes dirty only
/// when the history step actually applied (an empty history changes
/// nothing).
pub fn dirty_after_history_step(dirty: bool, applied: bool) -> (r: bool)
    ensures
        r == (dirty || applied),
{
    dirty || applied
}

/// What a click in the scene view does to the selection.
#[derive(Debug, Clone, Copy, PartialEq, Eq, Structural)]
pub enum ClickSelection {
    /// Select only this entity.
    Select(u64),
    /// Add this entity to the selection.
    Add(u64),
    /// Add or remove this entity.
    Toggle(u64),
    /// Clear the selection.
    Clear,
    /// Leave the selection as it is.
    Keep,
}

/// The selection change of a click whose topmost hit is `hit`: with shift
/// the entity is added, with ctrl toggled, otherwise selected alone; a click
/// on empty space clears the selection unless shift or ctrl is held.
pub open spec fn spec_click_selection(hit: Option<u64>, shift: bool, ctrl: bool) -> ClickSelection {
    match hit {
        Some(e) => if shift {
            ClickSelection::Add(e)
        } else if ctrl {
            ClickSelection::Toggle(e)
        } else {
            ClickSelection::Select(e)
        },
        None => if !shift && !ctrl {
            ClickSelection::Clear
        } else {
            ClickSelection::Keep
        },
    }
}

/// What a click in the scene view does to the selection.
pub fn click_selection(hit: Option<u64>, shift: bool, ctrl: bool) -> (r: ClickSelection)
    ensures
        r == spec_click_selection(hit, shift, ctrl),
{
    match hit {
        Some(e) => if shift {
            ClickSelection::Add(e)
        } else if ctrl {
            ClickSelection::Toggle(e)
        } else {
            ClickSelection::Select(e)
        },
        None => if !shift && !ctrl {
            ClickSelection::Clear
        } else {
            ClickSelection::Keep
        },
    }
}

/// What a click does, by its modifiers: on an entity, shift adds it
/// (whatever ctrl is), ctrl alone toggles it, and no modifier selects it
/// alone; on empty space, no modifier clears the selection and any modifier
/// keeps it.
pub proof fn law_click_modifiers(e: u64, shift: bool, ctrl: bool)
    ensures
        spec_click_selection(Some(e), true, ctrl) == ClickSelection::Add(e),
        spec_click_selection(Some(e), false, true) == ClickSelection::Toggle(e),
        spec_click_selection(Some(e), false, false) == ClickSelection::Select(e),
        spec_click_selection(None, false, false) == ClickSelection::Clear,
        (shift || ctrl) ==> spec_click_selection(None, shift, ctrl) == ClickSelection::Keep,
{
}

/// A click with shift or ctrl held never clears the selection, and a click
/// that hits an entity always acts on that entity.
pub proof fn law_modifier_clicks_keep_selection(hit: Option<u64>, shift: bool, ctrl: bool)
    ensures
        (shift || ctrl) ==> spec_click_selection(hit, shift, ctrl) != ClickSelection::Clear,
        hit matches Some(e) ==> (spec_click_selection(hit, shift, ctrl) == ClickSelection::Select(e)
            || spec_click_selection(hit, shift, ctrl) == ClickSelection::Add(e)
            || spec_click_selection(hit, shift, ctrl) == ClickSelection::Toggle(e)),
{
}

/// What the transform gizmo does this frame.
#[derive(Debug, Clone, Copy, PartialEq, Eq, Structural)]
pub enum GizmoDrag {
    /// A handle was just grabbed: remember the entity's transform (and
    /// collider) as the drag's start, then apply this frame's deltas.
    Begin,
    /// A handle is held: apply this frame's deltas.
    Continue,
    /// The handle was let go: record one undo entry for the whole drag and
    /// mark the scene dirty.
    End,
    /// No drag.
    Idle,
}

/// The gizmo's step from whether a handle is held now and whether a drag
/// was under way.
pub open spec fn spec_gizmo_drag(handle_held: bool, dragging: bool) -> GizmoDrag {
    if handle_held {
        if dragging { GizmoDrag::Continue } else { GizmoDrag::Begin }
    } else if dragging {
        GizmoDrag::End
    } else {
        GizmoDrag::Idle
    }
}

/// The gizmo's step this frame.
pub fn gizmo_drag(handle_held: bool, dragging: bool) -> (r: GizmoDrag)
    ensures
        r == spec_gizmo_drag(handle_held, dragging),
{
    if handle_held {
        if dragging { GizmoDrag::Continue } else { GizmoDrag::Begin }
    } else if dragging {
        GizmoDrag::End
    } else {
        GizmoDrag::Idle
    }
}

/// The undo entry a finished gizmo drag records: the transform change
/// alone, or — when the scale tool also resized the collider — both in one
/// "Scale Entity" entry.
#[derive(Debug, Clone, Copy, PartialEq, Eq, Structural)]
pub enum GizmoUndo {
    Transform,
    TransformAndCollider,
}

/// The undo entry of a finished drag, from whether the collider changed.
pub fn gizmo_undo(collider_changed: bool) -> (r: GizmoUndo)
    ensures
        r == (if collider_changed { GizmoUndo::TransformAndCollider } else { GizmoUndo::Transform }),
{
    if collider_changed { GizmoUndo::TransformAndCollider } else { GizmoUndo::Transform }
}

/// A drag begins once and ends once: a drag is under way after a step
/// exactly while the handle is held, `Begin` comes only when none was under
/// way, and `End` (the one undo entry) only when the held handle is let go.
pub proof fn law_one_undo_entry_per_drag(handle_held: bool, dragging: bool)
    ensures
        (spec_gizmo_drag(handle_held, dragging) == GizmoDrag::Begin) <==> (handle_held && !dragging),
        (spec_gizmo_drag(handle_held, dragging) == GizmoDrag::End) <==> (!handle_held && dragging),
        (spec_gizmo_drag(handle_held, dragging) == GizmoDrag::Begin || spec_gizmo_drag(handle_held, dragging)
            == GizmoDrag::Continue) <==> handle_held,
{
}

/// Whether a finished rectangle selection replaces the selection (clears it
/// before adding the entities inside) rather than extending it: it extends
/// only while shift is held.
pub fn rect_selection_replaces(shift: bool) -> (r: bool)
    ensures
        r == !shift,
{
    !shift
}

/// Whether the scene view handles picking this frame: not while the game
/// plays, not while an asset drag is in flight or drops, and not where an
/// overlay blocks the pointer or the gizmo has priority.
pub fn viewport_picks(playing: bool, dropped: bool, drag_in_flight: bool, pointer_blocked: bool, gizmo_priority: bool) -> (r: bool)
    ensures
        r == (!playing && !dropped && !drag_in_flight && !pointer_blocked && !gizmo_priority),
{
    !playing && !dropped && !drag_in_flight && !pointer_blocked && !gizmo_priority
}

/// The window size the editor runs at: the requested size, enlarged to at
/// least 1024×720.
pub fn editor_window_size(width: u32, height: u32) -> (r: (u32, u32))
    ensures
        r.0 == (if width < MIN_EDITOR_WINDOW_WIDTH { MIN_EDITOR_WINDOW_WIDTH } else { width }),
        r.1 == (if height < MIN_EDITOR_WINDOW_HEIGHT { MIN_EDITOR_WINDOW_HEIGHT } else { height }),
{
    let w = if width < MIN_EDITOR_WINDOW_WIDTH { MIN_EDITOR_WINDOW_WIDTH } else { width };
    let h = if height < MIN_EDITOR_WINDOW_HEIGHT { MIN_EDITOR_WINDOW_HEIGHT } else { height };
    (w, h)
}

} // verus!
