//! The selection-acquisition state machine: the client-side protocol that
//! obtains foreign selection content, handling direct and incremental
//! replies, sequence-number filtering of stale events, and timeouts.
//!
//! The machine is driven from outside: the surrounding code performs each
//! returned [`Action`] on its transport session and feeds the observation
//! back as the next [`Input`]. Every transition is pinned down by
//! [`step_spec`].
use vstd::prelude::*;
use crate::{Atom, Error, ATOM_ATOM, ATOM_NONE};

verus! {

/// Where the acquisition stands.
#[derive(Clone, Copy, Debug, PartialEq, Eq, Structural)]
pub enum Stage {
    /// Waiting for the reply-notify of the conversion request (or, in the
    /// wait-for-owner variant, for an ownership-change event first).
    AwaitNotify,
    /// A matching reply-notify arrived; waiting for the deposited property
    /// value to be read back.
    AwaitValue { notified_property: Atom },
    /// The owner announced an incremental transfer; waiting for the next
    /// new-value property event.
    IncrAwaitNotify,
    /// A new chunk was announced; waiting for its destructive read-back.
    IncrAwaitValue,
    /// The accumulated buffer is the result.
    Done,
    /// The acquisition failed; no further transition leaves this stage.
    Failed(Error),
}

/// What the surrounding code observed and hands to the machine.
pub enum Input {
    /// A transport event, with the sequence number it was observed under.
    Event { seq: u64, kind: EventKind },
    /// A non-blocking poll found no event pending.
    NoEvent,
    /// The caller's timeout budget was exceeded before this iteration.
    TimedOut,
    /// The value read back from a property, as a [`Action::Fetch`] or
    /// [`Action::FetchChunk`] asked for: its declared type and its bytes.
    Value { type_: Atom, data: Vec<u8> },
}

/// The protocol events the machine reacts to.
#[derive(Clone, Copy, Debug, PartialEq, Eq, Structural)]
pub enum EventKind {
    /// A new owner appeared on some selection (ownership-change
    /// notification), carrying the server timestamp of the change.
    OwnerChanged { timestamp: u32 },
    /// The owner answered a conversion request: content for `selection` was
    /// deposited at `property` on our window, or `property` is the null
    /// marker and the conversion was declined.
    Notify { selection: Atom, property: Atom },
    /// A property of our window changed; `new_value` says whether the change
    /// installed a new value (as opposed to deleting one).
    PropertyChanged { new_value: bool },
    /// Anything else; always ignored.
    Other,
}

/// What the surrounding code must do next on its transport session.
#[derive(Debug, PartialEq, Eq, Structural)]
pub enum Action {
    /// Block until the next event arrives (wait-for-owner variant).
    Wait,
    /// Poll for an event; if none is pending, sleep one short poll interval,
    /// check the timeout budget, and poll again.
    Poll,
    /// Issue a conversion request for `selection` into `target`, to be
    /// deposited at `property`, stamped with `time`.
    Request { selection: Atom, target: Atom, property: Atom, time: u32 },
    /// Read the value deposited at `property` (not deleting it), starting at
    /// `offset`, and feed it back as [`Input::Value`].
    Fetch { property: Atom, offset: usize },
    /// Destructively read the whole value at `property` and feed it back as
    /// [`Input::Value`].
    FetchChunk { property: Atom },
    /// Delete `property`, acknowledging the incremental-transfer
    /// announcement, then resume waiting.
    Ack { property: Atom },
    /// The acquisition is complete; the machine's buffer is the result.
    Finished,
    /// The acquisition failed with this error.
    Fail(Error),
}

/// The acquisition state machine.
pub struct Acquirer {
    /// The selection whose content is requested.
    pub selection: Atom,
    /// The format the content is requested in.
    pub target: Atom,
    /// The scratch property on our window where content is deposited.
    pub property: Atom,
    /// The resolved incremental-transfer marker format.
    pub incr_atom: Atom,
    /// Whether this is the wait-for-owner variant: block indefinitely and
    /// re-request on every ownership change, honoring no local timeout.
    pub use_xfixes: bool,
    /// The sequence number of the triggering request; events observed under a
    /// strictly smaller number are stale and ignored.
    pub sequence_number: u64,
    /// The content accumulated so far.
    pub buff: Vec<u8>,
    /// Where the acquisition stands.
    pub stage: Stage,
}

impl Acquirer {
    /// A machine ready to run, with an empty buffer.
    pub fn begin(
        selection: Atom,
        target: Atom,
        property: Atom,
        incr_atom: Atom,
        use_xfixes: bool,
        sequence_number: u64,
    ) -> (r: Acquirer)
        ensures
            r.selection == selection,
            r.target == target,
            r.property == property,
            r.incr_atom == incr_atom,
            r.use_xfixes == use_xfixes,
            r.sequence_number == sequence_number,
            r.buff@ == Seq::<u8>::empty(),
            r.stage == Stage::AwaitNotify,
    {
        Acquirer {
            selection,
            target,
            property,
            incr_atom,
            use_xfixes,
            sequence_number,
            buff: Vec::new(),
            stage: Stage::AwaitNotify,
        }
    }

    /// Whether the machine has reached a result or a failure.
    pub open spec fn is_terminal(self) -> bool {
        self.stage is Done || self.stage is Failed
    }

    /// How the machine idles between events: the wait-for-owner variant
    /// blocks, the timed variant polls.
    pub open spec fn idle_action(self) -> Action {
        if self.use_xfixes {
            Action::Wait
        } else {
            Action::Poll
        }
    }

    /// What a finished machine keeps announcing: its result or its failure.
    pub open spec fn terminal_action(self) -> Action {
        match self.stage {
            Stage::Done => Action::Finished,
            Stage::Failed(e) => Action::Fail(e),
            _ => self.idle_action(),
        }
    }

    fn idle(&self) -> (act: Action)
        ensures
            act == self.idle_action(),
    {
        if self.use_xfixes {
            Action::Wait
        } else {
            Action::Poll
        }
    }

    /// Feeds one observation to the machine; returns what to do next.
    pub fn step(&mut self, input: Input) -> (act: Action)
        ensures
            step_spec(*old(self), input, *final(self), act),
    {
        match self.stage {
            Stage::Done => {
                return Action::Finished;
            },
            Stage::Failed(e) => {
                return Action::Fail(e);
            },
            _ => {},
        }
        match input {
            Input::TimedOut => {
                self.stage = Stage::Failed(Error::Timeout);
                Action::Fail(Error::Timeout)
            },
            Input::NoEvent => self.idle(),
            Input::Event { seq, kind } => {
                if seq < self.sequence_number {
                    return self.idle();
                }
                match kind {
                    EventKind::OwnerChanged { timestamp } => {
                        if matches!(self.stage, Stage::AwaitNotify) && self.use_xfixes {
                            Action::Request {
                                selection: self.selection,
                                target: self.target,
                                property: self.property,
                                time: timestamp,
                            }
                        } else {
                            self.idle()
                        }
                    },
                    EventKind::Notify { selection, property } => {
                        if !matches!(self.stage, Stage::AwaitNotify) || selection
                            != self.selection {
                            self.idle()
                        } else if property == ATOM_NONE {
                            self.stage = Stage::Done;
                            Action::Finished
                        } else {
                            self.stage = Stage::AwaitValue { notified_property: property };
                            Action::Fetch { property, offset: self.buff.len() }
                        }
                    },
                    EventKind::PropertyChanged { new_value } => {
                        if matches!(self.stage, Stage::IncrAwaitNotify) && new_value {
                            self.stage = Stage::IncrAwaitValue;
                            Action::FetchChunk { property: self.property }
                        } else {
                            self.idle()
                        }
                    },
                    EventKind::Other => self.idle(),
                }
            },
            Input::Value { type_, data } => {
                match self.stage {
                    Stage::AwaitValue { notified_property: _ } => {
                        if type_ == self.incr_atom {
                            self.stage = Stage::IncrAwaitNotify;
                            Action::Ack { property: self.property }
                        } else if type_ != ATOM_ATOM && type_ != self.target {
                            self.stage = Stage::Failed(Error::UnexpectedType(type_));
                            Action::Fail(Error::UnexpectedType(type_))
                        } else {
                            let mut d = data;
                            self.buff.append(&mut d);
                            self.stage = Stage::Done;
                            Action::Finished
                        }
                    },
                    Stage::IncrAwaitValue => {
                        if type_ != self.target {
                            self.stage = Stage::IncrAwaitNotify;
                            self.idle()
                        } else if data.len() > 0 {
                            let mut d = data;
                            self.buff.append(&mut d);
                            self.stage = Stage::IncrAwaitNotify;
                            self.idle()
                        } else {
                            self.stage = Stage::Done;
                            Action::Finished
                        }
                    },
                    _ => self.idle(),
                }
            },
        }
    }
}

/// `post` is `pre` with another stage, everything else untouched.
pub open spec fn with_stage(pre: Acquirer, st: Stage) -> Acquirer {
    Acquirer { stage: st, ..pre }
}

/// `post` is `pre` with `data` appended to the buffer and stage `st`.
pub open spec fn appended(pre: Acquirer, post: Acquirer, data: Seq<u8>, st: Stage) -> bool {
    &&& post.selection == pre.selection
    &&& post.target == pre.target
    &&& post.property == pre.property
    &&& post.incr_atom == pre.incr_atom
    &&& post.use_xfixes == pre.use_xfixes
    &&& post.sequence_number == pre.sequence_number
    &&& post.buff@ == pre.buff@ + data
    &&& post.stage == st
}

/// The machine's full transition relation: for machine state `pre` and
/// observation `input`, the successor state `post` and the demanded `act`.
pub open spec fn step_spec(pre: Acquirer, input: Input, post: Acquirer, act: Action) -> bool {
    if pre.is_terminal() {
        post == pre && act == pre.terminal_action()
    } else {
        step_spec_live(pre, input, post, act)
    }
}

/// The transitions of a machine that has not yet finished.
pub open spec fn step_spec_live(pre: Acquirer, input: Input, post: Acquirer, act: Action) -> bool {
    match input {
        Input::TimedOut => {
            &&& post == with_stage(pre, Stage::Failed(Error::Timeout))
            &&& act == Action::Fail(Error::Timeout)
        },
        Input::NoEvent => post == pre && act == pre.idle_action(),
        Input::Event { seq, kind } => {
            if seq < pre.sequence_number {
                post == pre && act == pre.idle_action()
            } else {
                match kind {
                    EventKind::OwnerChanged { timestamp } => {
                        if pre.stage is AwaitNotify && pre.use_xfixes {
                            &&& post == pre
                            &&& act == (Action::Request {
                                selection: pre.selection,
                                target: pre.target,
                                property: pre.property,
                                time: timestamp,
                            })
                        } else {
                            post == pre && act == pre.idle_action()
                        }
                    },
                    EventKind::Notify { selection, property } => {
                        if !(pre.stage is AwaitNotify) || selection != pre.selection {
                            post == pre && act == pre.idle_action()
                        } else if property == ATOM_NONE {
                            post == with_stage(pre, Stage::Done) && act == Action::Finished
                        } else {
                            &&& post == with_stage(
                                pre,
                                Stage::AwaitValue { notified_property: property },
                            )
                            &&& act == (Action::Fetch { property, offset: pre.buff.len() })
                        }
                    },
                    EventKind::PropertyChanged { new_value } => {
                        if pre.stage is IncrAwaitNotify && new_value {
                            &&& post == with_stage(pre, Stage::IncrAwaitValue)
                            &&& act == (Action::FetchChunk { property: pre.property })
                        } else {
                            post == pre && act == pre.idle_action()
                        }
                    },
                    EventKind::Other => post == pre && act == pre.idle_action(),
                }
            }
        },
        Input::Value { type_, data } => {
            match pre.stage {
                Stage::AwaitValue { notified_property: _ } => {
                    if type_ == pre.incr_atom {
                        &&& post == with_stage(pre, Stage::IncrAwaitNotify)
                        &&& act == (Action::Ack { property: pre.property })
                    } else if type_ != ATOM_ATOM && type_ != pre.target {
                        &&& post == with_stage(pre, Stage::Failed(Error::UnexpectedType(type_)))
                        &&& act == Action::Fail(Error::UnexpectedType(type_))
                    } else {
                        &&& appended(pre, post, data@, Stage::Done)
                        &&& act == Action::Finished
                    }
                },
                Stage::IncrAwaitValue => {
                    if type_ != pre.target {
                        post == with_stage(pre, Stage::IncrAwaitNotify) && act == pre.idle_action()
                    } else if data@.len() > 0 {
                        &&& appended(pre, post, data@, Stage::IncrAwaitNotify)
                        &&& act == pre.idle_action()
                    } else {
                        post == with_stage(pre, Stage::Done) && act == Action::Finished
                    }
                },
                _ => post == pre && act == pre.idle_action(),
            }
        },
    }
}

/// Stale events are ignored: an event observed under a sequence number below
/// the triggering request's changes nothing and completes nothing, whatever
/// the event is.
pub proof fn lemma_stale_event_ignored(
    pre: Acquirer,
    seq: u64,
    kind: EventKind,
    post: Acquirer,
    act: Action,
)
    requires
        !pre.is_terminal(),
        seq < pre.sequence_number,
        step_spec(pre, Input::Event { seq, kind }, post, act),
    ensures
        post == pre,
        act == pre.idle_action(),
{
}

/// An exceeded timeout budget always surfaces as the timeout error: the
/// machine fails, and the buffer and request parameters are left as they
/// were.
pub proof fn lemma_timeout_reported(pre: Acquirer, post: Acquirer, act: Action)
    requires
        !pre.is_terminal(),
        step_spec(pre, Input::TimedOut, post, act),
    ensures
        post == with_stage(pre, Stage::Failed(Error::Timeout)),
        act == Action::Fail(Error::Timeout),
{
}

/// A finished machine is final: no observation changes its state or its
/// result any more.
pub proof fn lemma_terminal_is_absorbing(pre: Acquirer, input: Input, post: Acquirer, act: Action)
    requires
        pre.is_terminal(),
        step_spec(pre, input, post, act),
    ensures
        post == pre,
        act == pre.terminal_action(),
{
}

} // verus!
