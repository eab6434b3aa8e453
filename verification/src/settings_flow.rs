use vstd::prelude::*;

use crate::app_settings::{CharacterPlacement, CharacterWindowPosition};
use crate::codex::parser::opt_view;
use crate::mascot_window::MascotWindowPlacement;
use crate::text::clone_opt;

verus! {

/// What an update of the settings changes, as far as the windows are concerned. The
/// scale itself stays with the caller: it says whether the scales are equal, whether they
/// differ by more than rounding, and the window sizes they give.
#[derive(Debug, Clone, PartialEq, Eq)]
pub struct SettingsChange {
    pub previous_always_on_top: bool,
    pub next_always_on_top: bool,
    pub previous_monitor: Option<String>,
    pub next_monitor: Option<String>,
    pub previous_position: Option<CharacterWindowPosition>,
    pub next_position: Option<CharacterWindowPosition>,
    pub scale_equal: bool,
    pub scale_changed: bool,
    pub previous_width: u32,
    pub previous_height: u32,
    pub next_width: u32,
    pub next_height: u32,
}

/// A step that undoes part of an update that failed; its own failure is ignored.
#[derive(Debug, Clone, PartialEq, Eq)]
pub enum UndoStep {
    SetAlwaysOnTop(bool),
    MoveToMonitor(Option<String>),
    ResizeWindow(u32, u32),
    ResizeMascot(u32, u32),
    MoveToPosition(CharacterWindowPosition, Option<String>),
}

/// What the caller does next to apply an update of the settings.
#[derive(Debug, Clone, PartialEq, Eq)]
pub enum SettingsAction {
    SetAlwaysOnTop(bool),
    MoveToMonitor(Option<String>),
    ResizeWindow(u32, u32),
    ResizeMascot(u32, u32),
    MoveToPosition(CharacterWindowPosition, Option<String>),
    /// Write the settings with this placement.
    Persist(CharacterPlacement),
    /// Done: nothing changed; keep the previous settings.
    KeepPrevious,
    /// Done: keep and announce the settings with this placement.
    Commit(CharacterPlacement),
    /// Done: run these undo steps in order, then report the failure.
    Abort(Vec<UndoStep>),
}

/// How the last action went.
#[derive(Debug, Clone, PartialEq, Eq)]
pub enum StepOutcome {
    Done,
    Placed(MascotWindowPlacement),
    Failed,
}

/// Where an update stands: the action it is waiting on.
#[derive(Debug, Clone, Copy, PartialEq, Eq, Structural)]
pub enum FlowStage {
    Start,
    OnTop,
    Monitor,
    ResizeWindow,
    ResizeMascot,
    Position,
    Persist,
    Finished,
}

/// An update of the settings as a sequence of window actions, undone in reverse when
/// one fails.
#[derive(Debug)]
pub struct SettingsUpdate {
    change: SettingsChange,
    stage: FlowStage,
    next_monitor: Option<String>,
    next_position: Option<CharacterWindowPosition>,
}

pub struct FlowView {
    pub change: SettingsChange,
    pub stage: FlowStage,
    pub next_monitor: Option<Seq<char>>,
    pub next_position: Option<CharacterWindowPosition>,
}

impl View for SettingsUpdate {
    type V = FlowView;

    closed spec fn view(&self) -> FlowView {
        FlowView {
            change: self.change,
            stage: self.stage,
            next_monitor: opt_view(self.next_monitor),
            next_position: self.next_position,
        }
    }
}

/// Undo steps and actions as plain values.
pub enum UndoView {
    SetAlwaysOnTop(bool),
    MoveToMonitor(Option<Seq<char>>),
    ResizeWindow(u32, u32),
    ResizeMascot(u32, u32),
    MoveToPosition(CharacterWindowPosition, Option<Seq<char>>),
}

pub enum ActionView {
    SetAlwaysOnTop(bool),
    MoveToMonitor(Option<Seq<char>>),
    ResizeWindow(u32, u32),
    ResizeMascot(u32, u32),
    MoveToPosition(CharacterWindowPosition, Option<Seq<char>>),
    Persist(Option<Seq<char>>, Option<CharacterWindowPosition>),
    KeepPrevious,
    Commit(Option<Seq<char>>, Option<CharacterWindowPosition>),
    Abort(Seq<UndoView>),
}

pub open spec fn undo_view(u: UndoStep) -> UndoView {
    match u {
        UndoStep::SetAlwaysOnTop(b) => UndoView::SetAlwaysOnTop(b),
        UndoStep::MoveToMonitor(m) => UndoView::MoveToMonitor(opt_view(m)),
        UndoStep::ResizeWindow(w, h) => UndoView::ResizeWindow(w, h),
        UndoStep::ResizeMascot(w, h) => UndoView::ResizeMascot(w, h),
        UndoStep::MoveToPosition(p, m) => UndoView::MoveToPosition(p, opt_view(m)),
    }
}

pub open spec fn action_view(a: SettingsAction) -> ActionView {
    match a {
        SettingsAction::SetAlwaysOnTop(b) => ActionView::SetAlwaysOnTop(b),
        SettingsAction::MoveToMonitor(m) => ActionView::MoveToMonitor(opt_view(m)),
        SettingsAction::ResizeWindow(w, h) => ActionView::ResizeWindow(w, h),
        SettingsAction::ResizeMascot(w, h) => ActionView::ResizeMascot(w, h),
        SettingsAction::MoveToPosition(p, m) => ActionView::MoveToPosition(p, opt_view(m)),
        SettingsAction::Persist(pl) => ActionView::Persist(opt_view(pl.display_monitor_id), pl.character_window_position),
        SettingsAction::KeepPrevious => ActionView::KeepPrevious,
        SettingsAction::Commit(pl) => ActionView::Commit(opt_view(pl.display_monitor_id), pl.character_window_position),
        SettingsAction::Abort(steps) => ActionView::Abort(steps@.map_values(|u: UndoStep| undo_view(u))),
    }
}

/// Nothing that the settings hold changes.
pub open spec fn nothing_changes(c: SettingsChange) -> bool {
    &&& c.previous_always_on_top == c.next_always_on_top
    &&& opt_view(c.previous_monitor) == opt_view(c.next_monitor)
    &&& c.previous_position == c.next_position
    &&& c.scale_equal
}

/// The position asked of the window: the new one, else the previous one, else (160, 160).
pub open spec fn requested_position(c: SettingsChange, next_position: Option<CharacterWindowPosition>) -> CharacterWindowPosition {
    match next_position {
        Some(p) => p,
        None => match c.previous_position {
            Some(p) => p,
            None => CharacterWindowPosition { x: 160, y: 160 },
        },
    }
}

/// The steps after the monitor: resize when the scale changed, move when the position
/// changed, then write the settings.
pub open spec fn from_persist(v: FlowView) -> (FlowView, ActionView) {
    (FlowView { stage: FlowStage::Persist, ..v }, ActionView::Persist(v.next_monitor, v.next_position))
}

pub open spec fn from_position(v: FlowView) -> (FlowView, ActionView) {
    if v.next_position != v.change.previous_position {
        (
            FlowView { stage: FlowStage::Position, ..v },
            ActionView::MoveToPosition(requested_position(v.change, v.next_position), v.next_monitor),
        )
    } else {
        from_persist(v)
    }
}

pub open spec fn from_resize(v: FlowView) -> (FlowView, ActionView) {
    if v.change.scale_changed {
        (
            FlowView { stage: FlowStage::ResizeWindow, ..v },
            ActionView::ResizeWindow(v.change.next_width, v.change.next_height),
        )
    } else {
        from_position(v)
    }
}

pub open spec fn from_monitor(v: FlowView) -> (FlowView, ActionView) {
    if v.next_monitor != opt_view(v.change.previous_monitor) {
        (FlowView { stage: FlowStage::Monitor, ..v }, ActionView::MoveToMonitor(v.next_monitor))
    } else {
        from_resize(v)
    }
}

/// The undo steps once the windows were moved and resized as far as `v` says.
pub open spec fn undo_moves(v: FlowView, with_position: bool) -> Seq<UndoView> {
    let c = v.change;
    let monitor = if v.next_monitor != opt_view(c.previous_monitor) {
        seq![UndoView::MoveToMonitor(opt_view(c.previous_monitor))]
    } else {
        Seq::empty()
    };
    let position = if with_position && v.next_position != c.previous_position && c.previous_position is Some {
        seq![UndoView::MoveToPosition(c.previous_position->0, opt_view(c.previous_monitor))]
    } else {
        Seq::empty()
    };
    let scale = if c.scale_changed {
        seq![
            UndoView::ResizeMascot(c.previous_width, c.previous_height),
            UndoView::ResizeWindow(c.previous_width, c.previous_height),
        ]
    } else {
        Seq::empty()
    };
    monitor + position + scale + seq![UndoView::SetAlwaysOnTop(c.previous_always_on_top)]
}

pub open spec fn finished(v: FlowView, action: ActionView) -> (FlowView, ActionView) {
    (FlowView { stage: FlowStage::Finished, ..v }, action)
}

/// The next action of an update, given how the last one went.
pub open spec fn flow_step(v: FlowView, outcome: StepOutcome) -> (FlowView, ActionView) {
    let c = v.change;
    let on_top = seq![UndoView::SetAlwaysOnTop(c.previous_always_on_top)];
    match v.stage {
        FlowStage::Start => if nothing_changes(c) {
            finished(v, ActionView::KeepPrevious)
        } else {
            (FlowView { stage: FlowStage::OnTop, ..v }, ActionView::SetAlwaysOnTop(c.next_always_on_top))
        },
        FlowStage::OnTop => if outcome is Failed {
            finished(v, ActionView::Abort(Seq::empty()))
        } else {
            from_monitor(v)
        },
        FlowStage::Monitor => match outcome {
            StepOutcome::Failed => finished(v, ActionView::Abort(on_top)),
            StepOutcome::Placed(p) => from_resize(
                FlowView { next_monitor: opt_view(p.monitor_id), next_position: p.position, ..v },
            ),
            StepOutcome::Done => from_resize(v),
        },
        FlowStage::ResizeWindow => if outcome is Failed {
            finished(v, ActionView::Abort(on_top))
        } else {
            (
                FlowView { stage: FlowStage::ResizeMascot, ..v },
                ActionView::ResizeMascot(c.next_width, c.next_height),
            )
        },
        FlowStage::ResizeMascot => if outcome is Failed {
            finished(v, ActionView::Abort(seq![UndoView::ResizeWindow(c.previous_width, c.previous_height)] + on_top))
        } else {
            from_position(v)
        },
        FlowStage::Position => match outcome {
            StepOutcome::Failed => finished(v, ActionView::Abort(undo_moves(v, false))),
            StepOutcome::Placed(p) => from_persist(
                FlowView { next_monitor: opt_view(p.monitor_id), next_position: p.position, ..v },
            ),
            StepOutcome::Done => from_persist(v),
        },
        FlowStage::Persist => if outcome is Failed {
            finished(v, ActionView::Abort(undo_moves(v, true)))
        } else {
            finished(v, ActionView::Commit(v.next_monitor, v.next_position))
        },
        FlowStage::Finished => finished(v, ActionView::Abort(Seq::empty())),
    }
}

fn same_monitor(a: &Option<String>, b: &Option<String>) -> (r: bool)
    ensures
        r == (opt_view(*a) == opt_view(*b)),
{
    match (a, b) {
        (Some(x), Some(y)) => crate::json::str_eq(x.as_str(), y.as_str()),
        (None, None) => true,
        _ => false,
    }
}

fn same_position(a: Option<CharacterWindowPosition>, b: Option<CharacterWindowPosition>) -> (r: bool)
    ensures
        r == (a == b),
{
    match (a, b) {
        (Some(x), Some(y)) => x.x == y.x && x.y == y.y,
        (None, None) => true,
        _ => false,
    }
}

impl SettingsUpdate {
    /// An update that has not started.
    pub fn new(change: SettingsChange) -> (r: Self)
        ensures
            r@ == (FlowView {
                change,
                stage: FlowStage::Start,
                next_monitor: opt_view(change.next_monitor),
                next_position: change.next_position,
            }),
    {
        let next_monitor = clone_opt(&change.next_monitor);
        let next_position = change.next_position;
        SettingsUpdate { change, stage: FlowStage::Start, next_monitor, next_position }
    }

    fn persist(&mut self) -> (r: SettingsAction)
        ensures
            (final(self)@, action_view(r)) == from_persist(old(self)@),
    {
        self.stage = FlowStage::Persist;
        SettingsAction::Persist(CharacterPlacement {
            display_monitor_id: clone_opt(&self.next_monitor),
            character_window_position: self.next_position,
        })
    }

    fn position(&mut self) -> (r: SettingsAction)
        ensures
            (final(self)@, action_view(r)) == from_position(old(self)@),
    {
        if !same_position(self.next_position, self.change.previous_position) {
            self.stage = FlowStage::Position;
            let requested = match self.next_position {
                Some(p) => p,
                None => match self.change.previous_position {
                    Some(p) => p,
                    None => CharacterWindowPosition { x: 160, y: 160 },
                },
            };
            SettingsAction::MoveToPosition(requested, clone_opt(&self.next_monitor))
        } else {
            self.persist()
        }
    }

    fn resize(&mut self) -> (r: SettingsAction)
        ensures
            (final(self)@, action_view(r)) == from_resize(old(self)@),
    {
        if self.change.scale_changed {
            self.stage = FlowStage::ResizeWindow;
            SettingsAction::ResizeWindow(self.change.next_width, self.change.next_height)
        } else {
            self.position()
        }
    }

    fn monitor(&mut self) -> (r: SettingsAction)
        ensures
            (final(self)@, action_view(r)) == from_monitor(old(self)@),
    {
        if !same_monitor(&self.next_monitor, &self.change.previous_monitor) {
            self.stage = FlowStage::Monitor;
            SettingsAction::MoveToMonitor(clone_opt(&self.next_monitor))
        } else {
            self.resize()
        }
    }

    fn undo_moves(&self, with_position: bool) -> (r: Vec<UndoStep>)
        ensures
            r@.map_values(|u: UndoStep| undo_view(u)) == undo_moves(self@, with_position),
    {
        let c = &self.change;
        let mut steps: Vec<UndoStep> = Vec::new();
        if !same_monitor(&self.next_monitor, &c.previous_monitor) {
            steps.push(UndoStep::MoveToMonitor(clone_opt(&c.previous_monitor)));
        }
        if with_position && !same_position(self.next_position, c.previous_position) {
            if let Some(previous) = c.previous_position {
                steps.push(UndoStep::MoveToPosition(previous, clone_opt(&c.previous_monitor)));
            }
        }
        if c.scale_changed {
            steps.push(UndoStep::ResizeMascot(c.previous_width, c.previous_height));
            steps.push(UndoStep::ResizeWindow(c.previous_width, c.previous_height));
        }
        steps.push(UndoStep::SetAlwaysOnTop(c.previous_always_on_top));
        assert(steps@.map_values(|u: UndoStep| undo_view(u)) =~= undo_moves(self@, with_position));
        steps
    }

    fn finish(&mut self, action: SettingsAction) -> (r: SettingsAction)
        ensures
            (final(self)@, action_view(r)) == finished(old(self)@, action_view(action)),
    {
        self.stage = FlowStage::Finished;
        action
    }

    /// The next action, given how the last one went (anything, for the first action).
    pub fn advance(&mut self, outcome: StepOutcome) -> (r: SettingsAction)
        ensures
            (final(self)@, action_view(r)) == flow_step(old(self)@, outcome),
    {
        let failed = match outcome {
            StepOutcome::Failed => true,
            _ => false,
        };
        let previous_on_top = self.change.previous_always_on_top;
        match self.stage {
            FlowStage::Start => {
                let unchanged = self.change.previous_always_on_top == self.change.next_always_on_top
                    && same_monitor(&self.change.previous_monitor, &self.change.next_monitor)
                    && same_position(self.change.previous_position, self.change.next_position)
                    && self.change.scale_equal;
                if unchanged {
                    self.finish(SettingsAction::KeepPrevious)
                } else {
                    self.stage = FlowStage::OnTop;
                    SettingsAction::SetAlwaysOnTop(self.change.next_always_on_top)
                }
            },
            FlowStage::OnTop => {
                if failed {
                    let steps: Vec<UndoStep> = Vec::new();
                    assert(steps@.map_values(|u: UndoStep| undo_view(u)) =~= Seq::<UndoView>::empty());
                    self.finish(SettingsAction::Abort(steps))
                } else {
                    self.monitor()
                }
            },
            FlowStage::Monitor => match outcome {
                StepOutcome::Failed => {
                    let steps = vec![UndoStep::SetAlwaysOnTop(previous_on_top)];
                    assert(steps@.map_values(|u: UndoStep| undo_view(u)) =~= seq![UndoView::SetAlwaysOnTop(previous_on_top)]);
                    self.finish(SettingsAction::Abort(steps))
                },
                StepOutcome::Placed(p) => {
                    self.next_monitor = p.monitor_id;
                    self.next_position = p.position;
                    self.resize()
                },
                StepOutcome::Done => self.resize(),
            },
            FlowStage::ResizeWindow => {
                if failed {
                    let steps = vec![UndoStep::SetAlwaysOnTop(previous_on_top)];
                    assert(steps@.map_values(|u: UndoStep| undo_view(u)) =~= seq![UndoView::SetAlwaysOnTop(previous_on_top)]);
                    self.finish(SettingsAction::Abort(steps))
                } else {
                    self.stage = FlowStage::ResizeMascot;
                    SettingsAction::ResizeMascot(self.change.next_width, self.change.next_height)
                }
            },
            FlowStage::ResizeMascot => {
                if failed {
                    let w = self.change.previous_width;
                    let h = self.change.previous_height;
                    let steps = vec![UndoStep::ResizeWindow(w, h), UndoStep::SetAlwaysOnTop(previous_on_top)];
                    assert(steps@.map_values(|u: UndoStep| undo_view(u)) =~= seq![UndoView::ResizeWindow(w, h)]
                        + seq![UndoView::SetAlwaysOnTop(previous_on_top)]);
                    self.finish(SettingsAction::Abort(steps))
                } else {
                    self.position()
                }
            },
            FlowStage::Position => match outcome {
                StepOutcome::Failed => {
                    let steps = self.undo_moves(false);
                    self.finish(SettingsAction::Abort(steps))
                },
                StepOutcome::Placed(p) => {
                    self.next_monitor = p.monitor_id;
                    self.next_position = p.position;
                    self.persist()
                },
                StepOutcome::Done => self.persist(),
            },
            FlowStage::Persist => {
                if failed {
                    let steps = self.undo_moves(true);
                    self.finish(SettingsAction::Abort(steps))
                } else {
                    let placement = CharacterPlacement {
                        display_monitor_id: clone_opt(&self.next_monitor),
                        character_window_position: self.next_position,
                    };
                    self.finish(SettingsAction::Commit(placement))
                }
            },
            FlowStage::Finished => {
                let steps: Vec<UndoStep> = Vec::new();
                assert(steps@.map_values(|u: UndoStep| undo_view(u)) =~= Seq::<UndoView>::empty());
                self.finish(SettingsAction::Abort(steps))
            },
        }
    }
}

} // verus!
