use x11_clipboard::acquire::{Acquirer, Action, EventKind, Input, Stage};
use x11_clipboard::Error;

const SEL: u32 = 101;
const TARGET: u32 = 202;
const PROP: u32 = 303;
const INCR: u32 = 404;

fn machine(seqno: u64) -> Acquirer {
    Acquirer::begin(SEL, TARGET, PROP, INCR, false, seqno)
}

#[test]
fn test_direct_transfer_completes() {
    let mut m = machine(10);
    let act = m.step(Input::Event {
        seq: 10,
        kind: EventKind::Notify { selection: SEL, property: PROP },
    });
    assert_eq!(act, Action::Fetch { property: PROP, offset: 0 });
    let act = m.step(Input::Value { type_: TARGET, data: vec![1, 2, 3] });
    assert_eq!(act, Action::Finished);
    assert_eq!(m.stage, Stage::Done);
    assert_eq!(m.buff, vec![1, 2, 3]);
}

#[test]
fn test_stale_sequence_ignored() {
    let mut m = machine(10);
    // A stale reply-notify, even a matching one, must not advance the machine.
    let act = m.step(Input::Event {
        seq: 9,
        kind: EventKind::Notify { selection: SEL, property: PROP },
    });
    assert_eq!(act, Action::Poll);
    assert_eq!(m.stage, Stage::AwaitNotify);
    // A stale declined-notify must not terminate the machine early either.
    let act = m.step(Input::Event {
        seq: 9,
        kind: EventKind::Notify { selection: SEL, property: 0 },
    });
    assert_eq!(act, Action::Poll);
    assert_eq!(m.stage, Stage::AwaitNotify);
    // The event of the triggering request itself still completes the run.
    let act = m.step(Input::Event {
        seq: 10,
        kind: EventKind::Notify { selection: SEL, property: PROP },
    });
    assert_eq!(act, Action::Fetch { property: PROP, offset: 0 });
    let act = m.step(Input::Value { type_: TARGET, data: vec![7] });
    assert_eq!(act, Action::Finished);
    assert_eq!(m.buff, vec![7]);
}

#[test]
fn test_timeout_reported() {
    let mut m = machine(1);
    let act = m.step(Input::NoEvent);
    assert_eq!(act, Action::Poll);
    let act = m.step(Input::TimedOut);
    assert_eq!(act, Action::Fail(Error::Timeout));
    assert_eq!(m.stage, Stage::Failed(Error::Timeout));
    assert!(m.buff.is_empty());
}

#[test]
fn test_declined_conversion_is_empty_result() {
    let mut m = machine(1);
    let act = m.step(Input::Event {
        seq: 1,
        kind: EventKind::Notify { selection: SEL, property: 0 },
    });
    assert_eq!(act, Action::Finished);
    assert_eq!(m.stage, Stage::Done);
    assert!(m.buff.is_empty());
}

#[test]
fn test_unexpected_type_fails() {
    let mut m = machine(1);
    m.step(Input::Event { seq: 1, kind: EventKind::Notify { selection: SEL, property: PROP } });
    let act = m.step(Input::Value { type_: 777, data: vec![1, 2] });
    assert_eq!(act, Action::Fail(Error::UnexpectedType(777)));
    assert_eq!(m.stage, Stage::Failed(Error::UnexpectedType(777)));
    assert!(m.buff.is_empty());
}

#[test]
fn test_atom_array_reply_accepted() {
    // A reply typed as an atom array passes the type check even when the
    // requested target differs: format enumeration is delivered this way.
    let mut m = machine(1);
    m.step(Input::Event { seq: 1, kind: EventKind::Notify { selection: SEL, property: PROP } });
    let act = m.step(Input::Value { type_: 4, data: vec![1, 0, 0, 0] });
    assert_eq!(act, Action::Finished);
    assert_eq!(m.buff, vec![1, 0, 0, 0]);
}

#[test]
fn test_incremental_announcement_acknowledged() {
    // The announcement's size hint is capacity advice only: the machine
    // acknowledges by deleting the scratch property and keeps its buffer
    // empty until real chunks arrive.
    let mut m = machine(1);
    m.step(Input::Event { seq: 1, kind: EventKind::Notify { selection: SEL, property: PROP } });
    let act = m.step(Input::Value { type_: INCR, data: vec![16, 0, 0, 0] });
    assert_eq!(act, Action::Ack { property: PROP });
    assert!(m.buff.is_empty());
    assert_eq!(m.stage, Stage::IncrAwaitNotify);
    // A chunk of a mismatched type is skipped, not accumulated.
    m.step(Input::Event { seq: 2, kind: EventKind::PropertyChanged { new_value: true } });
    let act = m.step(Input::Value { type_: 999, data: vec![1, 2, 3] });
    assert_eq!(act, Action::Poll);
    assert!(m.buff.is_empty());
    assert_eq!(m.stage, Stage::IncrAwaitNotify);
}

#[test]
fn test_other_selection_ignored() {
    let mut m = machine(1);
    let act = m.step(Input::Event {
        seq: 2,
        kind: EventKind::Notify { selection: SEL + 1, property: PROP },
    });
    assert_eq!(act, Action::Poll);
    assert_eq!(m.stage, Stage::AwaitNotify);
}

#[test]
fn test_wait_variant_rerequests_on_owner_change() {
    let mut m = Acquirer::begin(SEL, TARGET, PROP, INCR, true, 5);
    // The wait-for-owner variant blocks instead of polling.
    let act = m.step(Input::NoEvent);
    assert_eq!(act, Action::Wait);
    // An ownership change re-issues the conversion request, stamped with the
    // event's timestamp, and keeps waiting for the reply.
    let act = m.step(Input::Event { seq: 6, kind: EventKind::OwnerChanged { timestamp: 42 } });
    assert_eq!(
        act,
        Action::Request { selection: SEL, target: TARGET, property: PROP, time: 42 }
    );
    assert_eq!(m.stage, Stage::AwaitNotify);
    // The reply then completes as usual.
    let act = m.step(Input::Event {
        seq: 7,
        kind: EventKind::Notify { selection: SEL, property: PROP },
    });
    assert_eq!(act, Action::Fetch { property: PROP, offset: 0 });
    let act = m.step(Input::Value { type_: TARGET, data: vec![9, 9] });
    assert_eq!(act, Action::Finished);
    assert_eq!(m.buff, vec![9, 9]);
}

#[test]
fn test_terminal_stages_are_absorbing() {
    let mut m = machine(1);
    m.step(Input::Event { seq: 1, kind: EventKind::Notify { selection: SEL, property: 0 } });
    assert_eq!(m.stage, Stage::Done);
    // A finished machine only re-announces its result, whatever arrives.
    let act = m.step(Input::TimedOut);
    assert_eq!(act, Action::Finished);
    assert_eq!(m.stage, Stage::Done);

    let mut m = machine(1);
    m.step(Input::TimedOut);
    let act = m.step(Input::Event {
        seq: 2,
        kind: EventKind::Notify { selection: SEL, property: PROP },
    });
    assert_eq!(act, Action::Fail(Error::Timeout));
    assert_eq!(m.stage, Stage::Failed(Error::Timeout));
}

#[test]
fn test_property_change_irrelevant_outside_incremental() {
    let mut m = machine(1);
    let act = m.step(Input::Event {
        seq: 1,
        kind: EventKind::PropertyChanged { new_value: true },
    });
    assert_eq!(act, Action::Poll);
    assert_eq!(m.stage, Stage::AwaitNotify);
}
