//! The application's forward-only phase machine.
use vstd::prelude::*;

use crate::assets::LoadState;

verus! {

/// The phase the application is in.
#[derive(Clone, Copy, Debug, PartialEq, Eq, Structural, Hash)]
pub enum AppState {
    LoadingAssets,
    SettingUpScene,
    InGame,
}

impl Default for AppState {
    fn default() -> (r: AppState)
        ensures
            r == AppState::LoadingAssets,
    {
        AppState::LoadingAssets
    }
}

/// Position of a phase in the order the application goes through them.
pub open spec fn rank(s: AppState) -> int {
    match s {
        AppState::LoadingAssets => 0,
        AppState::SettingUpScene => 1,
        AppState::InGame => 2,
    }
}

/// What the host does at the end of a tick.
#[derive(Clone, Copy, Debug, PartialEq, Eq, Structural)]
pub enum Transition {
    /// Remain in the current phase.
    Stay,
    /// Move to this phase.
    Enter(AppState),
    /// Terminate: the level cannot be loaded.
    Exit,
}

/// Which of the one-time setup passes have run for the current scene.
#[derive(Clone, Copy, Debug, PartialEq, Eq, Structural)]
pub struct SetupProgress {
    /// The collider synthesis pass has run.
    pub physics: bool,
    /// The lighting and material pass has run.
    pub lighting: bool,
}

pub open spec fn setup_complete(p: SetupProgress) -> bool {
    p.physics && p.lighting
}

/// The decision while loading: set up the scene once everything has loaded,
/// terminate once anything has failed, wait otherwise.
pub open spec fn loading_transition(status: LoadState) -> Transition {
    match status {
        LoadState::Loaded => Transition::Enter(AppState::SettingUpScene),
        LoadState::Failed => Transition::Exit,
        LoadState::Pending => Transition::Stay,
    }
}

/// The decision while setting up: play once both setup passes have run.
pub open spec fn setup_transition(p: SetupProgress) -> Transition {
    if setup_complete(p) {
        Transition::Enter(AppState::InGame)
    } else {
        Transition::Stay
    }
}

/// The transition out of phase `s` for one tick.
pub open spec fn step_spec(s: AppState, status: LoadState, p: SetupProgress) -> Transition {
    match s {
        AppState::LoadingAssets => loading_transition(status),
        AppState::SettingUpScene => setup_transition(p),
        AppState::InGame => Transition::Stay,
    }
}

/// The phase after transition `t` out of `s`.
pub open spec fn apply_spec(s: AppState, t: Transition) -> AppState {
    match t {
        Transition::Enter(n) => n,
        _ => s,
    }
}

impl SetupProgress {
    /// No pass has run.
    pub fn new() -> (r: SetupProgress)
        ensures
            !r.physics && !r.lighting,
    {
        SetupProgress { physics: false, lighting: false }
    }

    /// Claims the collider synthesis pass: true the first time only, so the
    /// pass runs once per scene.
    pub fn begin_physics(&mut self) -> (r: bool)
        ensures
            r == !old(self).physics,
            final(self).physics,
            final(self).lighting == old(self).lighting,
    {
        let first = !self.physics;
        self.physics = true;
        first
    }

    /// Claims the lighting and material pass: true the first time only, so
    /// the pass runs once per scene.
    pub fn begin_lighting(&mut self) -> (r: bool)
        ensures
            r == !old(self).lighting,
            final(self).lighting,
            final(self).physics == old(self).physics,
    {
        let first = !self.lighting;
        self.lighting = true;
        first
    }

    /// Whether both passes have run.
    pub fn is_complete(&self) -> (r: bool)
        ensures
            r == setup_complete(*self),
    {
        self.physics && self.lighting
    }
}

/// The decision while loading, from the combined state of the tracked assets.
pub fn wait_for_scene_to_load(status: LoadState) -> (r: Transition)
    ensures
        r == loading_transition(status),
{
    match status {
        LoadState::Loaded => Transition::Enter(AppState::SettingUpScene),
        LoadState::Failed => Transition::Exit,
        LoadState::Pending => Transition::Stay,
    }
}

/// The decision while setting up the scene: start the game once both setup
/// passes have run.
pub fn start_game(progress: &SetupProgress) -> (r: Transition)
    ensures
        r == setup_transition(*progress),
{
    if progress.is_complete() {
        Transition::Enter(AppState::InGame)
    } else {
        Transition::Stay
    }
}

impl AppState {
    /// The transition out of this phase for one tick, given the combined
    /// state of the tracked assets and the setup progress.
    pub fn step(self, status: LoadState, progress: &SetupProgress) -> (r: Transition)
        ensures
            r == step_spec(self, status, *progress),
    {
        match self {
            AppState::LoadingAssets => wait_for_scene_to_load(status),
            AppState::SettingUpScene => start_game(progress),
            AppState::InGame => Transition::Stay,
        }
    }

    /// The phase after transition `t`.
    pub fn apply(self, t: Transition) -> (r: AppState)
        ensures
            r == apply_spec(self, t),
    {
        match t {
            Transition::Enter(n) => n,
            _ => self,
        }
    }
}

/// Phases only move forward, one at a time: a tick either keeps the phase or
/// enters the next one, so no phase is visited twice.
pub proof fn lemma_forward_only(s: AppState, status: LoadState, p: SetupProgress)
    ensures
        step_spec(s, status, p) matches Transition::Enter(n) ==> rank(n) == rank(s) + 1,
        rank(apply_spec(s, step_spec(s, status, p))) >= rank(s),
        s == AppState::InGame ==> step_spec(s, status, p) == Transition::Stay,
{
}

/// Loading ends in failure exactly when the combined asset state is failed.
pub proof fn lemma_exit_on_failure(status: LoadState, p: SetupProgress)
    ensures
        step_spec(AppState::LoadingAssets, status, p) == Transition::Exit <==> status
            == LoadState::Failed,
{
}

} // verus!
