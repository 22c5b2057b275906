use nor::level::VolumeLevel;
use nor::volume::{mutation_args, should_notify, Action, Event, OpType, Session, VolumeOp};
use nor::NodeType;

fn lv(micros: u64) -> VolumeLevel {
    VolumeLevel { micros }
}

/// Runs a request against a node whose level reads `before` and then `after`,
/// returning every action asked for.
fn run(op: VolumeOp, before: u64, after: u64) -> Vec<Action> {
    let mut s = Session::new(op);
    let mut actions = Vec::new();
    let mut reads = vec![lv(after), lv(before)];
    let mut action = s.advance(Event::Begin);
    loop {
        actions.push(action);
        action = match action {
            Action::ReadLevel => s.advance(Event::LevelRead { level: reads.pop().unwrap() }),
            Action::Change => s.advance(Event::Changed),
            _ => break,
        };
    }
    actions
}

#[test]
fn new_keeps_fields() {
    let op = VolumeOp::new(OpType::Inc, Some(3), NodeType::Source);
    assert_eq!(op.op_type, OpType::Inc);
    assert_eq!(op.step, Some(3));
    assert_eq!(op.node_type, NodeType::Source);
}

#[test]
fn notify_rule() {
    assert!(!should_notify(lv(500_000), lv(500_000)));
    assert!(should_notify(lv(0), lv(0)));
    assert!(should_notify(lv(500_000), lv(550_000)));
    assert!(should_notify(lv(500_000), lv(0)));
}

#[test]
fn get_prints_without_change() {
    for nt in [NodeType::Sink, NodeType::Source] {
        let op = VolumeOp::new(OpType::Get, None, nt);
        assert_eq!(run(op, 300_000, 900_000), vec![Action::ReadLevel, Action::Print { level: lv(300_000) }]);
        assert!(mutation_args(&op).is_none());
    }
}

#[test]
fn show_notifies_without_change() {
    for nt in [NodeType::Sink, NodeType::Source] {
        let op = VolumeOp::new(OpType::Show, None, nt);
        assert_eq!(run(op, 0, 0), vec![Action::ReadLevel, Action::Notify { level: lv(0) }]);
        assert!(mutation_args(&op).is_none());
    }
}

#[test]
fn increase_that_moves_notifies() {
    let op = VolumeOp::new(OpType::Inc, None, NodeType::Sink);
    assert_eq!(
        run(op, 400_000, 450_000),
        vec![Action::ReadLevel, Action::Change, Action::ReadLevel, Action::Notify { level: lv(450_000) }]
    );
}

#[test]
fn unchanged_nonzero_level_is_silent() {
    let op = VolumeOp::new(OpType::Inc, None, NodeType::Sink);
    assert_eq!(
        run(op, 1_500_000, 1_500_000),
        vec![Action::ReadLevel, Action::Change, Action::ReadLevel, Action::Finish]
    );
}

#[test]
fn unchanged_zero_level_notifies() {
    let op = VolumeOp::new(OpType::Dec, Some(5), NodeType::Sink);
    assert_eq!(
        run(op, 0, 0),
        vec![Action::ReadLevel, Action::Change, Action::ReadLevel, Action::Notify { level: lv(0) }]
    );
    let op = VolumeOp::new(OpType::Toggle, None, NodeType::Source);
    assert_eq!(
        run(op, 0, 0),
        vec![Action::ReadLevel, Action::Change, Action::ReadLevel, Action::Notify { level: lv(0) }]
    );
}

#[test]
fn mutation_args_per_operation() {
    let s = |v: &[&str]| v.iter().map(|x| x.to_string()).collect::<Vec<_>>();
    assert_eq!(
        mutation_args(&VolumeOp::new(OpType::Dec, None, NodeType::Sink)),
        Some(s(&["set-volume", "-l", "1.5", "@DEFAULT_AUDIO_SINK@", "0.05-"]))
    );
    assert_eq!(
        mutation_args(&VolumeOp::new(OpType::Inc, Some(0), NodeType::Source)),
        Some(s(&["set-volume", "-l", "1.5", "@DEFAULT_AUDIO_SOURCE@", "0.01+"]))
    );
    assert_eq!(
        mutation_args(&VolumeOp::new(OpType::SetVolume { value: 80 }, None, NodeType::Sink)),
        Some(s(&["set-volume", "-l", "1.5", "@DEFAULT_AUDIO_SINK@", "0.8"]))
    );
    assert_eq!(
        mutation_args(&VolumeOp::new(OpType::Toggle, None, NodeType::Source)),
        Some(s(&["set-mute", "@DEFAULT_AUDIO_SOURCE@", "toggle"]))
    );
}

#[test]
fn events_out_of_turn_finish() {
    let mut s = Session::new(VolumeOp::new(OpType::Inc, None, NodeType::Sink));
    assert_eq!(s.advance(Event::Changed), Action::Finish);
    assert_eq!(s.advance(Event::Begin), Action::Finish);
}
