use vstd::prelude::*;
use crate::interest::Interest;

verus! {

/// The kinds of I/O error that the connection logic tells apart.
#[derive(Clone, Copy, Debug, PartialEq, Eq, Structural)]
pub enum IoErrorKind {
    WouldBlock,
    Interrupted,
    Other,
}

pub fn would_block(kind: IoErrorKind) -> (r: bool)
    ensures
        r == (kind == IoErrorKind::WouldBlock),
{
    match kind {
        IoErrorKind::WouldBlock => true,
        _ => false,
    }
}

pub fn interrupted(kind: IoErrorKind) -> (r: bool)
    ensures
        r == (kind == IoErrorKind::Interrupted),
{
    match kind {
        IoErrorKind::Interrupted => true,
        _ => false,
    }
}

/// Outcome of one `recv_msg` or `send_msg` on the connection's pipe.
#[derive(Clone, Copy, Debug, PartialEq, Eq, Structural)]
pub enum IoResult {
    /// The call moved this many bytes; zero means end of file.
    Transferred(usize),
    Failed(IoErrorKind),
}

/// What happens once a pending re-registration has been made.
#[derive(Clone, Copy, Debug, PartialEq, Eq, Structural)]
pub enum AfterRegistration {
    /// Write interest was added after a send would block: the send loop ends.
    LeaveSendLoop { outbound_empty: bool },
    /// Write interest was cleared after the outbound buffer drained.
    SendLoopDrained,
    /// Read interest was cleared because the driver is done: the event ends.
    EventFinished { outbound_empty: bool },
}

/// Where a connection stands while it handles one readiness or wake event.
#[derive(Clone, Copy, Debug, PartialEq, Eq, Structural)]
pub enum Phase {
    Idle,
    /// Waiting for the result of `recv_msg` into the inbound buffer.
    Receiving,
    /// Waiting for the driver to process the inbound buffer.
    Processing,
    /// Waiting for the driver to fill the outbound buffer.
    Flushing { done: bool },
    /// Waiting for the result of `send_msg` from the outbound buffer.
    Sending { done: bool },
    /// Waiting for the registry to take the new interest, or to forget the
    /// connection when no interest is left.
    Registering { done: bool, then: AfterRegistration },
}

/// What the driver made of the inbound buffer.
#[derive(Clone, Copy, Debug, PartialEq, Eq, Structural)]
pub enum DriverOutcome {
    /// All complete messages were handled; more input is welcome.
    Continue,
    /// The driver is done with the connection.
    Done,
    Failed,
}

/// What the caller reports back after carrying out the last action.
#[derive(Clone, Copy, Debug, PartialEq, Eq, Structural)]
pub enum ConnEvent {
    /// A readiness event for this connection arrived.
    Readiness { readable: bool },
    /// The connection was asked to push out queued messages.
    Wake,
    Received { result: IoResult, inbound_empty: bool },
    Processed { outcome: DriverOutcome, inbound_empty: bool },
    Flushed { ok: bool, outbound_empty: bool },
    Sent { result: IoResult, outbound_empty: bool },
    Registered { ok: bool },
}

/// How the handling of an event ended.
#[derive(Clone, Copy, Debug, PartialEq, Eq, Structural)]
pub enum ConnOutcome {
    /// Handling succeeded; `true` when the connection is finished.
    Done(bool),
    /// The last operation failed; the connection is to be dropped.
    Failed,
}

/// The next thing the caller must do.
#[derive(Clone, Copy, Debug, PartialEq, Eq, Structural)]
pub enum Action {
    Recv,
    Process,
    Flush,
    Send,
    /// Register the connection again, for this interest.
    Register(Interest),
    /// Change the registered interest to this one.
    Reregister(Interest),
    /// Remove the connection from the registry: no interest is left.
    Deregister,
    Complete(ConnOutcome),
}

/// How the connection stands with the registry.
#[derive(Clone, Copy, Debug, PartialEq, Eq, Structural)]
pub enum Registration {
    Registered(Interest),
    Deregistered,
}

/// The decision state of one connection of the event loop.
#[derive(Clone, Copy, Debug, PartialEq, Eq, Structural)]
pub struct ConnectionState {
    pub registration: Registration,
    /// The driver has reported that it is done; kept across events.
    pub driver_done: bool,
    pub phase: Phase,
}

/// The event is the one the phase waits for.
pub open spec fn event_fits(p: Phase, ev: ConnEvent) -> bool {
    match (p, ev) {
        (Phase::Idle, ConnEvent::Readiness { .. }) => true,
        (Phase::Idle, ConnEvent::Wake) => true,
        (Phase::Receiving, ConnEvent::Received { .. }) => true,
        (Phase::Processing, ConnEvent::Processed { .. }) => true,
        (Phase::Flushing { .. }, ConnEvent::Flushed { .. }) => true,
        (Phase::Sending { .. }, ConnEvent::Sent { .. }) => true,
        (Phase::Registering { .. }, ConnEvent::Registered { .. }) => true,
        _ => false,
    }
}

/// The event leaves inbound data unprocessed where the connection requires
/// its inbound buffer to be empty.
pub open spec fn leaves_inbound_data(ev: ConnEvent) -> bool {
    ||| ev == (ConnEvent::Received { result: IoResult::Transferred(0), inbound_empty: false })
    ||| ev == (ConnEvent::Processed { outcome: DriverOutcome::Failed, inbound_empty: false })
}

/// What holds of every state a connection reaches: a registered interest is
/// never empty, and handling that counts the driver as done only happens
/// once the driver has said so.
pub open spec fn conn_inv(s: ConnectionState) -> bool {
    &&& (s.registration matches Registration::Registered(i) ==> i.wf())
    &&& (match s.phase {
        Phase::Flushing { done } => done ==> s.driver_done,
        Phase::Sending { done } => done ==> s.driver_done,
        Phase::Registering { done, then: _ } => done ==> s.driver_done,
        _ => true,
    })
}

/// A connection never aborts over its interests: an event that belongs to the
/// phase is refused only when it would leave inbound data unprocessed.
pub proof fn lemma_only_inbound_data_aborts(s: ConnectionState, ev: ConnEvent)
    requires
        event_fits(s.phase, ev),
        !leaves_inbound_data(ev),
    ensures
        s.accepts(ev),
{
}

/// Every accepted step keeps the invariant, and a registered interest in the
/// next action is the one the state now holds.
pub proof fn lemma_conn_inv_preserved(s: ConnectionState, ev: ConnEvent)
    requires
        conn_inv(s),
        s.accepts(ev),
    ensures
        s.next(ev) matches Some((t, a)) && conn_inv(t) && (a matches Action::Reregister(i)
            ==> t.registration == Registration::Registered(i)) && (a matches Action::Register(i)
            ==> t.registration == Registration::Registered(i)) && (a == Action::Deregister
            ==> t.registration == Registration::Deregistered),
{
}

/// Once the driver is done it stays done.
pub proof fn lemma_driver_done_persists(s: ConnectionState, ev: ConnEvent)
    requires
        s.driver_done,
        s.accepts(ev),
    ensures
        s.next(ev) matches Some((t, _)) && t.driver_done,
{
}

/// A connection is reported finished only when a send reaches end of file or
/// when its driver is done.
pub proof fn lemma_finished_only_when_done(s: ConnectionState, ev: ConnEvent)
    requires
        conn_inv(s),
        s.accepts(ev),
        s.next(ev) matches Some((_, a)) && a == Action::Complete(ConnOutcome::Done(true)),
    ensures
        (ev matches ConnEvent::Sent { result: IoResult::Transferred(0), .. }) || s.driver_done,
{
}

/// A send that would block makes the connection wait for writability,
/// keeping its read interest.
pub proof fn lemma_would_block_adds_write_interest(
    s: ConnectionState,
    i: Interest,
    done: bool,
    outbound_empty: bool,
)
    requires
        s.phase == (Phase::Sending { done }),
        s.registration == Registration::Registered(i),
        !i.writable,
    ensures
        s.next(ConnEvent::Sent { result: IoResult::Failed(IoErrorKind::WouldBlock), outbound_empty },
        ) matches Some((t, a)) && t.registration matches Registration::Registered(j) && a
            == Action::Reregister(j) && j.writable && j.readable == i.readable,
{
}

/// Once the outbound buffer is drained, write interest is given up, and the
/// connection is deregistered when no interest would be left.
pub proof fn lemma_drained_outbound_drops_write_interest(
    s: ConnectionState,
    i: Interest,
    done: bool,
    n: usize,
)
    requires
        s.phase == (Phase::Sending { done }),
        s.registration == Registration::Registered(i),
        n > 0,
    ensures
        s.next(ConnEvent::Sent { result: IoResult::Transferred(n), outbound_empty: true },
        ) matches Some((t, a)) && match t.registration {
            Registration::Registered(j) => a == Action::Reregister(j) && !j.writable,
            Registration::Deregistered => a == Action::Deregister && !i.readable,
        },
{
}

/// A send that reaches end of file finishes the connection.
pub proof fn lemma_send_eof_finishes(s: ConnectionState, done: bool, outbound_empty: bool)
    requires
        s.phase == (Phase::Sending { done }),
    ensures
        s.next(ConnEvent::Sent { result: IoResult::Transferred(0), outbound_empty }) == Some(
            (ConnectionState { phase: Phase::Idle, ..s }, Action::Complete(ConnOutcome::Done(true))),
        ),
{
}

/// A readiness event without readability is handled exactly as a wake.
pub proof fn lemma_unreadable_event_is_wake(s: ConnectionState)
    ensures
        s.next(ConnEvent::Readiness { readable: false }) == s.next(ConnEvent::Wake),
{
}

/// Every failure ends the handling with the connection marked failed.
pub proof fn lemma_failures_are_fatal(s: ConnectionState, ev: ConnEvent)
    requires
        s.accepts(ev),
        ev matches ConnEvent::Sent { result: IoResult::Failed(IoErrorKind::Other), .. }
            || ev matches ConnEvent::Received { result: IoResult::Failed(IoErrorKind::Other), .. }
            || ev matches ConnEvent::Processed { outcome: DriverOutcome::Failed, .. }
            || ev matches ConnEvent::Flushed { ok: false, .. }
            || ev matches ConnEvent::Registered { ok: false },
    ensures
        s.next(ev) == Some(
            (ConnectionState { phase: Phase::Idle, ..s }, Action::Complete(ConnOutcome::Failed)),
        ),
{
}

/// A connection that reads end of file with nothing left to send stops
/// reading, leaves the registry and finishes.
pub proof fn lemma_eof_with_nothing_to_send_finishes(s0: ConnectionState)
    requires
        s0.registration == Registration::Registered(Interest::readable()),
        s0.phase == Phase::Idle,
    ensures
        ({
            let (s1, a1) = s0.next(ConnEvent::Readiness { readable: true })->0;
            let (s2, a2) = s1.next(ConnEvent::Received { result: IoResult::Transferred(0), inbound_empty: true },
            )->0;
            let (s3, a3) = s2.next(ConnEvent::Flushed { ok: true, outbound_empty: true })->0;
            let (s4, a4) = s3.next(ConnEvent::Registered { ok: true })->0;
            let (s5, a5) = s4.next(ConnEvent::Registered { ok: true })->0;
            &&& a1 == Action::Recv
            &&& a2 == Action::Flush
            &&& a3 == Action::Reregister(Interest::readable())
            &&& a4 == Action::Deregister
            &&& a5 == Action::Complete(ConnOutcome::Done(true))
            &&& s5.registration == Registration::Deregistered
            &&& s5.driver_done
        }),
{
}

/// A connection whose driver finished earlier, left with write interest only,
/// finishes as soon as its remaining outbound data is sent.
pub proof fn lemma_done_connection_finishes_when_drained(s0: ConnectionState, n: usize)
    requires
        s0.registration == Registration::Registered(Interest::writable()),
        s0.driver_done,
        s0.phase == Phase::Idle,
        n > 0,
    ensures
        ({
            let (s1, a1) = s0.next(ConnEvent::Readiness { readable: false })->0;
            let (s2, a2) = s1.next(ConnEvent::Flushed { ok: true, outbound_empty: false })->0;
            let (s3, a3) = s2.next(ConnEvent::Sent { result: IoResult::Transferred(n), outbound_empty: true },
            )->0;
            let (s4, a4) = s3.next(ConnEvent::Registered { ok: true })->0;
            &&& a1 == Action::Flush
            &&& a2 == Action::Send
            &&& a3 == Action::Deregister
            &&& a4 == Action::Complete(ConnOutcome::Done(true))
        }),
{
}

impl ConnectionState {
    /// A new connection is registered for reading and waits for events.
    pub fn new() -> (s: ConnectionState)
        ensures
            s == (ConnectionState {
                registration: Registration::Registered(Interest::readable()),
                driver_done: false,
                phase: Phase::Idle,
            }),
            conn_inv(s),
    {
        ConnectionState {
            registration: Registration::Registered(Interest::readable()),
            driver_done: false,
            phase: Phase::Idle,
        }
    }

    /// The registration after giving up the kinds in `kind`.
    #[verifier::allow_in_spec]
    pub fn without(r: Registration, kind: Interest) -> Registration
        returns
            (match r {
                Registration::Registered(i) => match i.remove(kind) {
                    Some(j) => Registration::Registered(j),
                    None => Registration::Deregistered,
                },
                Registration::Deregistered => Registration::Deregistered,
            }),
    {
        match r {
            Registration::Registered(i) => match i.remove(kind) {
                Some(j) => Registration::Registered(j),
                None => Registration::Deregistered,
            },
            Registration::Deregistered => Registration::Deregistered,
        }
    }

    /// The interest after adding write interest to the registration.
    #[verifier::allow_in_spec]
    pub fn with_write(r: Registration) -> Interest
        returns
            (match r {
                Registration::Registered(i) => i.add(Interest::writable()),
                Registration::Deregistered => Interest::writable(),
            }),
    {
        match r {
            Registration::Registered(i) => i.add(Interest::writable()),
            Registration::Deregistered => Interest::writable(),
        }
    }

    /// Ends handling with an outcome; the connection waits for the next event.
    #[verifier::allow_in_spec]
    pub fn finish(&self, o: ConnOutcome) -> (ConnectionState, Action)
        returns
            ((ConnectionState { phase: Phase::Idle, ..*self }, Action::Complete(o))),
    {
        (ConnectionState { phase: Phase::Idle, ..*self }, Action::Complete(o))
    }

    /// Moves the connection to `new` and waits for the registry to take it:
    /// registered again, its interest changed, or forgotten when no interest
    /// is left.
    #[verifier::allow_in_spec]
    pub fn change_registration(&self, new: Registration, done: bool, then: AfterRegistration) -> (
        ConnectionState,
        Action,
    )
        returns
            ((
                ConnectionState { registration: new, phase: Phase::Registering { done, then }, ..*self },
                match new {
                    Registration::Registered(i) => match self.registration {
                        Registration::Registered(_) => Action::Reregister(i),
                        Registration::Deregistered => Action::Register(i),
                    },
                    Registration::Deregistered => Action::Deregister,
                },
            )),
    {
        let action = match new {
            Registration::Registered(i) => match self.registration {
                Registration::Registered(_) => Action::Reregister(i),
                Registration::Deregistered => Action::Register(i),
            },
            Registration::Deregistered => Action::Deregister,
        };
        (ConnectionState { registration: new, phase: Phase::Registering { done, then }, ..*self }, action)
    }

    /// After sending: a finished driver gives up its read interest, and the
    /// event ends with the connection finished once nothing is left to send.
    #[verifier::allow_in_spec]
    pub fn after_send(&self, done: bool, outbound_empty: bool) -> (ConnectionState, Action)
        returns
            (if done {
                match self.registration {
                    Registration::Registered(_) => self.change_registration(
                        ConnectionState::without(self.registration, Interest::readable()),
                        done,
                        AfterRegistration::EventFinished { outbound_empty },
                    ),
                    Registration::Deregistered => self.finish(ConnOutcome::Done(outbound_empty)),
                }
            } else {
                self.finish(ConnOutcome::Done(false))
            }),
    {
        if done {
            match self.registration {
                Registration::Registered(_) => self.change_registration(
                    Self::without(self.registration, Interest::readable()),
                    done,
                    AfterRegistration::EventFinished { outbound_empty },
                ),
                Registration::Deregistered => self.finish(ConnOutcome::Done(outbound_empty)),
            }
        } else {
            self.finish(ConnOutcome::Done(false))
        }
    }

    /// The send loop has ended: a drained outbound buffer gives up write
    /// interest.
    #[verifier::allow_in_spec]
    pub fn send_loop_exit(&self, done: bool, outbound_empty: bool) -> (ConnectionState, Action)
        returns
            (if outbound_empty {
                match self.registration {
                    Registration::Registered(_) => self.change_registration(
                        ConnectionState::without(self.registration, Interest::writable()),
                        done,
                        AfterRegistration::SendLoopDrained,
                    ),
                    Registration::Deregistered => self.after_send(done, true),
                }
            } else {
                self.after_send(done, false)
            }),
    {
        if outbound_empty {
            match self.registration {
                Registration::Registered(_) => self.change_registration(
                    Self::without(self.registration, Interest::writable()),
                    done,
                    AfterRegistration::SendLoopDrained,
                ),
                Registration::Deregistered => self.after_send(done, true),
            }
        } else {
            self.after_send(done, false)
        }
    }

    /// The send loop runs while the outbound buffer holds data.
    #[verifier::allow_in_spec]
    pub fn send_loop(&self, done: bool, outbound_empty: bool) -> (ConnectionState, Action)
        returns
            (if outbound_empty {
                self.send_loop_exit(done, true)
            } else {
                (ConnectionState { phase: Phase::Sending { done }, ..*self }, Action::Send)
            }),
    {
        if outbound_empty {
            self.send_loop_exit(done, true)
        } else {
            (ConnectionState { phase: Phase::Sending { done }, ..*self }, Action::Send)
        }
    }

    /// Handling moves on to flushing the outbound buffer.
    #[verifier::allow_in_spec]
    pub fn to_flush(&self, done: bool) -> (ConnectionState, Action)
        returns
            ((ConnectionState { phase: Phase::Flushing { done }, ..*self }, Action::Flush)),
    {
        (ConnectionState { phase: Phase::Flushing { done }, ..*self }, Action::Flush)
    }

    /// The transition on `ev`: the next state and action, or `None` when the
    /// event does not belong to the phase, or when inbound data is left
    /// unprocessed at end of file or after a driver failure (the connection
    /// aborts then).
    #[verifier::allow_in_spec]
    pub fn next(&self, ev: ConnEvent) -> Option<(ConnectionState, Action)>
        returns
            ({
                let s = *self;
                match (s.phase, ev) {
                    (Phase::Idle, ConnEvent::Readiness { readable }) => if readable {
                        Some((ConnectionState { phase: Phase::Receiving, ..s }, Action::Recv))
                    } else {
                        Some(s.to_flush(s.driver_done))
                    },
                    (Phase::Idle, ConnEvent::Wake) => Some(s.to_flush(s.driver_done)),
                    (Phase::Receiving, ConnEvent::Received { result, inbound_empty }) => match result {
                        IoResult::Transferred(n) => if n == 0 {
                            if inbound_empty {
                                Some(ConnectionState { driver_done: true, ..s }.to_flush(true))
                            } else {
                                None
                            }
                        } else {
                            Some((ConnectionState { phase: Phase::Processing, ..s }, Action::Process))
                        },
                        IoResult::Failed(IoErrorKind::WouldBlock) => Some(s.to_flush(s.driver_done)),
                        IoResult::Failed(IoErrorKind::Interrupted) => Some((s, Action::Recv)),
                        IoResult::Failed(IoErrorKind::Other) => Some(s.finish(ConnOutcome::Failed)),
                    },
                    (Phase::Processing, ConnEvent::Processed { outcome, inbound_empty }) => match outcome {
                        DriverOutcome::Done => Some(ConnectionState { driver_done: true, ..s }.to_flush(true)),
                        DriverOutcome::Continue => Some(
                            (ConnectionState { phase: Phase::Receiving, ..s }, Action::Recv),
                        ),
                        DriverOutcome::Failed => if inbound_empty {
                            Some(s.finish(ConnOutcome::Failed))
                        } else {
                            None
                        },
                    },
                    (Phase::Flushing { done }, ConnEvent::Flushed { ok, outbound_empty }) => if ok {
                        Some(s.send_loop(done, outbound_empty))
                    } else {
                        Some(s.finish(ConnOutcome::Failed))
                    },
                    (Phase::Sending { done }, ConnEvent::Sent { result, outbound_empty }) => match result {
                        IoResult::Transferred(n) => if n == 0 {
                            Some(s.finish(ConnOutcome::Done(true)))
                        } else {
                            Some(s.send_loop(done, outbound_empty))
                        },
                        IoResult::Failed(IoErrorKind::WouldBlock) => match s.registration {
                            Registration::Registered(i) => if i.writable {
                                Some(s.send_loop_exit(done, outbound_empty))
                            } else {
                                Some(
                                    s.change_registration(
                                        Registration::Registered(ConnectionState::with_write(s.registration)),
                                        done,
                                        AfterRegistration::LeaveSendLoop { outbound_empty },
                                    ),
                                )
                            },
                            Registration::Deregistered => Some(
                                s.change_registration(
                                    Registration::Registered(ConnectionState::with_write(s.registration)),
                                    done,
                                    AfterRegistration::LeaveSendLoop { outbound_empty },
                                ),
                            ),
                        },
                        IoResult::Failed(IoErrorKind::Interrupted) => Some((s, Action::Send)),
                        IoResult::Failed(IoErrorKind::Other) => Some(s.finish(ConnOutcome::Failed)),
                    },
                    (Phase::Registering { done, then }, ConnEvent::Registered { ok }) => if !ok {
                        Some(s.finish(ConnOutcome::Failed))
                    } else {
                        match then {
                            AfterRegistration::LeaveSendLoop { outbound_empty } => Some(
                                s.send_loop_exit(done, outbound_empty),
                            ),
                            AfterRegistration::SendLoopDrained => Some(s.after_send(done, true)),
                            AfterRegistration::EventFinished { outbound_empty } => Some(
                                s.finish(ConnOutcome::Done(done && outbound_empty)),
                            ),
                        }
                    },
                    _ => None,
                }
            }),
    {
        let s = *self;
        match (s.phase, ev) {
            (Phase::Idle, ConnEvent::Readiness { readable }) => if readable {
                Some((ConnectionState { phase: Phase::Receiving, ..s }, Action::Recv))
            } else {
                Some(s.to_flush(s.driver_done))
            },
            (Phase::Idle, ConnEvent::Wake) => Some(s.to_flush(s.driver_done)),
            (Phase::Receiving, ConnEvent::Received { result, inbound_empty }) => match result {
                IoResult::Transferred(n) => if n == 0 {
                    if inbound_empty {
                        Some(ConnectionState { driver_done: true, ..s }.to_flush(true))
                    } else {
                        None
                    }
                } else {
                    Some((ConnectionState { phase: Phase::Processing, ..s }, Action::Process))
                },
                IoResult::Failed(kind) => if would_block(kind) {
                    Some(s.to_flush(s.driver_done))
                } else if interrupted(kind) {
                    Some((s, Action::Recv))
                } else {
                    Some(s.finish(ConnOutcome::Failed))
                },
            },
            (Phase::Processing, ConnEvent::Processed { outcome, inbound_empty }) => match outcome {
                DriverOutcome::Done => Some(ConnectionState { driver_done: true, ..s }.to_flush(true)),
                DriverOutcome::Continue => Some(
                    (ConnectionState { phase: Phase::Receiving, ..s }, Action::Recv),
                ),
                DriverOutcome::Failed => if inbound_empty {
                    Some(s.finish(ConnOutcome::Failed))
                } else {
                    None
                },
            },
            (Phase::Flushing { done }, ConnEvent::Flushed { ok, outbound_empty }) => if ok {
                Some(s.send_loop(done, outbound_empty))
            } else {
                Some(s.finish(ConnOutcome::Failed))
            },
            (Phase::Sending { done }, ConnEvent::Sent { result, outbound_empty }) => match result {
                IoResult::Transferred(n) => if n == 0 {
                    Some(s.finish(ConnOutcome::Done(true)))
                } else {
                    Some(s.send_loop(done, outbound_empty))
                },
                IoResult::Failed(kind) => if would_block(kind) {
                    let already_writable = match s.registration {
                        Registration::Registered(i) => i.is_writable(),
                        Registration::Deregistered => false,
                    };
                    if already_writable {
                        Some(s.send_loop_exit(done, outbound_empty))
                    } else {
                        Some(
                            s.change_registration(
                                Registration::Registered(Self::with_write(s.registration)),
                                done,
                                AfterRegistration::LeaveSendLoop { outbound_empty },
                            ),
                        )
                    }
                } else if interrupted(kind) {
                    Some((s, Action::Send))
                } else {
                    Some(s.finish(ConnOutcome::Failed))
                },
            },
            (Phase::Registering { done, then }, ConnEvent::Registered { ok }) => if !ok {
                Some(s.finish(ConnOutcome::Failed))
            } else {
                match then {
                    AfterRegistration::LeaveSendLoop { outbound_empty } => Some(
                        s.send_loop_exit(done, outbound_empty),
                    ),
                    AfterRegistration::SendLoopDrained => Some(s.after_send(done, true)),
                    AfterRegistration::EventFinished { outbound_empty } => Some(
                        s.finish(ConnOutcome::Done(done && outbound_empty)),
                    ),
                }
            },
            _ => None,
        }
    }

    /// Whether the connection accepts `ev` without aborting.
    #[verifier::allow_in_spec]
    pub fn accepts(&self, ev: ConnEvent) -> bool
        returns
            self.next(ev) is Some,
    {
        self.next(ev).is_some()
    }

    /// Moves to the next state on `ev` and returns the action to carry out.
    pub fn step(&mut self, ev: ConnEvent) -> (a: Action)
        requires
            old(self).accepts(ev),
        ensures
            old(self).next(ev) == Some((*final(self), a)),
    {
        match self.next(ev) {
            Some((s, a)) => {
                *self = s;
                a
            },
            None => Action::Complete(ConnOutcome::Failed),
        }
    }
}

} // verus!
