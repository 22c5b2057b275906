use vstd::prelude::*;
use crate::NodeType;
use crate::command::{
    get_source_specifier, modify_rel, modify_set, percent_text, relative_step, set_volume_texts,
    specifier, texts, toggle,
};
use crate::level::VolumeLevel;

verus! {

/// The operation a request asks for.
#[derive(Clone, Copy, Debug, PartialEq, Eq, Structural)]
pub enum OpType {
    Dec,
    Get,
    Inc,
    SetVolume { value: u32 },
    Show,
    Toggle,
}

/// A request: an operation, its step in percent for `Dec` and `Inc`, and the node type.
#[derive(Clone, Copy, Debug, PartialEq, Eq, Structural)]
pub struct VolumeOp {
    pub op_type: OpType,
    pub step: Option<u32>,
    pub node_type: NodeType,
}

impl VolumeOp {
    pub fn new(change_type: OpType, step: Option<u32>, node_type: NodeType) -> (r: Self)
        ensures
            r.op_type == change_type,
            r.step == step,
            r.node_type == node_type,
    {
        VolumeOp { op_type: change_type, step, node_type }
    }
}

/// Whether an operation changes the node's state.
pub open spec fn is_mutating(op_type: OpType) -> bool {
    !(op_type is Get || op_type is Show)
}

/// The arguments of the call that carries out a changing operation.
pub open spec fn mutation_texts(op: VolumeOp) -> Seq<Seq<char>> {
    match op.op_type {
        OpType::Dec => set_volume_texts(
            op.node_type,
            percent_text(relative_step(op.step)) + "-"@,
        ),
        OpType::Inc => set_volume_texts(
            op.node_type,
            percent_text(relative_step(op.step)) + "+"@,
        ),
        OpType::SetVolume { value } => set_volume_texts(op.node_type, percent_text(value as nat)),
        _ => seq!["set-mute"@, specifier(op.node_type), "toggle"@],
    }
}

/// The arguments of the call that carries out the operation, or `None` for the
/// operations that only read.
pub fn mutation_args(op: &VolumeOp) -> (r: Option<Vec<String>>)
    ensures
        is_mutating(op.op_type) <==> r is Some,
        r matches Some(v) ==> texts(v@) == mutation_texts(*op),
{
    match op.op_type {
        OpType::Dec => Some(modify_rel(op.step, "-", &op.node_type)),
        OpType::Inc => Some(modify_rel(op.step, "+", &op.node_type)),
        OpType::SetVolume { value } => Some(modify_set(value, &op.node_type)),
        OpType::Toggle => Some(toggle(get_source_specifier(&op.node_type))),
        OpType::Get | OpType::Show => None,
    }
}

/// Whether a change from `old` to `new` is shown: when the level moved, or when it is
/// zero, so that pressing mute or lowering a silent node still gives feedback.
pub fn should_notify(old: VolumeLevel, new: VolumeLevel) -> (r: bool)
    ensures
        r == (old != new || new.micros == 0),
{
    old.micros != new.micros || new.micros == 0
}

/// Where a request stands.
#[derive(Clone, Copy, Debug, PartialEq, Eq, Structural)]
pub enum Phase {
    Start,
    ReadingBefore,
    Changing { before: VolumeLevel },
    ReadingAfter { before: VolumeLevel },
    Done,
}

/// What the outside world reports back.
#[derive(Clone, Copy, Debug, PartialEq, Eq, Structural)]
pub enum Event {
    Begin,
    LevelRead { level: VolumeLevel },
    Changed,
}

/// What the outside world is asked to do next.
#[derive(Clone, Copy, Debug, PartialEq, Eq, Structural)]
pub enum Action {
    /// Read the level of the default node.
    ReadLevel,
    /// Run the call of `mutation_args`.
    Change,
    /// Print the level; the request is over.
    Print { level: VolumeLevel },
    /// Show the level in a notification; the request is over.
    Notify { level: VolumeLevel },
    /// Nothing more to do.
    Finish,
}

/// The phase and action that follow an event.
pub open spec fn next(op: VolumeOp, phase: Phase, event: Event) -> (Phase, Action) {
    match (phase, event) {
        (Phase::Start, Event::Begin) => (Phase::ReadingBefore, Action::ReadLevel),
        (Phase::ReadingBefore, Event::LevelRead { level }) => match op.op_type {
            OpType::Get => (Phase::Done, Action::Print { level }),
            OpType::Show => (Phase::Done, Action::Notify { level }),
            _ => (Phase::Changing { before: level }, Action::Change),
        },
        (Phase::Changing { before }, Event::Changed) => (
            Phase::ReadingAfter { before },
            Action::ReadLevel,
        ),
        (Phase::ReadingAfter { before }, Event::LevelRead { level }) => if before != level
            || level.micros == 0 {
            (Phase::Done, Action::Notify { level })
        } else {
            (Phase::Done, Action::Finish)
        },
        _ => (Phase::Done, Action::Finish),
    }
}

/// One request in progress.
pub struct Session {
    pub op: VolumeOp,
    pub phase: Phase,
}

impl Session {
    pub fn new(op: VolumeOp) -> (r: Self)
        ensures
            r.op == op,
            r.phase == Phase::Start,
    {
        Session { op, phase: Phase::Start }
    }

    /// Takes in an event and says what to do next.
    pub fn advance(&mut self, event: Event) -> (r: Action)
        ensures
            final(self).op == old(self).op,
            (final(self).phase, r) == next(old(self).op, old(self).phase, event),
    {
        let (phase, action) = match (self.phase, event) {
            (Phase::Start, Event::Begin) => (Phase::ReadingBefore, Action::ReadLevel),
            (Phase::ReadingBefore, Event::LevelRead { level }) => match self.op.op_type {
                OpType::Get => (Phase::Done, Action::Print { level }),
                OpType::Show => (Phase::Done, Action::Notify { level }),
                _ => (Phase::Changing { before: level }, Action::Change),
            },
            (Phase::Changing { before }, Event::Changed) => (
                Phase::ReadingAfter { before },
                Action::ReadLevel,
            ),
            (Phase::ReadingAfter { before }, Event::LevelRead { level }) => {
                if should_notify(before, level) {
                    (Phase::Done, Action::Notify { level })
                } else {
                    (Phase::Done, Action::Finish)
                }
            },
            _ => (Phase::Done, Action::Finish),
        };
        self.phase = phase;
        action
    }
}

/// A request that only reads (`Get`, `Show`) is never asked to change the node, from
/// any phase and on any event.
pub proof fn lemma_reads_never_change(op: VolumeOp, phase: Phase, event: Event)
    requires
        !is_mutating(op.op_type),
    ensures
        next(op, phase, event).1 != Action::Change,
{
}

/// After a change, a level equal to the one before is shown only when it is zero.
pub proof fn lemma_unchanged_level_notifies_only_at_zero(
    op: VolumeOp,
    before: VolumeLevel,
    level: VolumeLevel,
)
    requires
        before == level,
    ensures
        next(op, Phase::ReadingAfter { before }, Event::LevelRead { level }).1 == (if level.micros
            == 0 {
            Action::Notify { level }
        } else {
            Action::Finish
        }),
{
}

} // verus!
