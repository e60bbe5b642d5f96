//! Protocols: interfaces that the firmware installs on handles, each
//! known by its identifier, and the scope that holds one open.
use vstd::prelude::*;
use crate::error::{EfiStatus, UefiError};
use crate::guid::Guid;
use crate::handle::{handle_or_null, EfiHandle};
use crate::table::{Boot, BootCall, BootServices, SystemTable};

verus! {

/// Something that the firmware knows by an identifier.
///
/// An implementation with the wrong identifier makes the firmware hand
/// out one thing where another is expected.
pub trait Entity {
    /// The identifier of the entity.
    spec fn entity_guid_spec() -> Guid;

    /// The name of the entity.
    spec fn entity_name_spec() -> Seq<char>;

    /// The name of the entity.
    fn name() -> (r: &'static str)
        ensures
            r@ == Self::entity_name_spec(),
    ;

    /// The identifier of the entity.
    fn guid() -> (r: Guid)
        ensures
            r == Self::entity_guid_spec(),
    ;
}

/// A family of firmware interfaces: its identifier, the layout of the
/// structure that the firmware keeps for it, and the way from that
/// structure to the safe type.
///
/// An implementation with the wrong identifier makes the firmware hand
/// out the structure of another protocol.
pub trait Protocol: Sized {
    /// The structure as the firmware lays it out.
    type Raw;

    /// The identifier of the protocol.
    spec fn guid_spec() -> Guid;

    /// The structure that an instance was made from.
    spec fn raw_spec(&self) -> Self::Raw;

    /// The identifier of the protocol.
    fn protocol_guid() -> (r: Guid)
        ensures
            r == Self::guid_spec(),
    ;

    /// The name of the protocol.
    spec fn name_spec() -> Seq<char>;

    /// The name of the protocol.
    fn protocol_name() -> (r: &'static str)
        ensures
            r@ == Self::name_spec(),
    ;

    /// The instance over the structure that the firmware gave.
    fn from_raw(raw: Self::Raw) -> (r: Self)
        ensures
            r.raw_spec() == raw,
    ;

    /// The identifier of the protocol that this is an instance of.
    fn guid(&self) -> (r: Guid)
        ensures
            r == Self::guid_spec(),
    ;
}

/// What is to be done when a scope goes away by itself.
#[derive(Clone, Copy, Debug, PartialEq, Eq)]
pub enum Release {
    /// The firmware is to be called with this, and a failure is only
    /// written to the log.
    Close(BootCall),
    /// Boot services are gone or do not offer the operation: nothing
    /// can be closed, and that is only written to the log.
    NoBootServices,
}

/// One protocol held open on a handle. Whoever holds the scope owes
/// the firmware one close with the handle, agent and controller that
/// the protocol was opened with.
#[derive(Debug)]
pub struct Scope<P: Protocol> {
    proto: P,
    handle: EfiHandle,
    agent: EfiHandle,
    controller: Option<EfiHandle>,
}

impl<P: Protocol> Scope<P> {
    /// The protocol in the scope.
    pub closed spec fn proto_spec(&self) -> P {
        self.proto
    }

    /// The handle that the protocol was opened on.
    pub closed spec fn handle_spec(&self) -> EfiHandle {
        self.handle
    }

    /// The agent that opened the protocol.
    pub closed spec fn agent_spec(&self) -> EfiHandle {
        self.agent
    }

    /// The controller that the protocol was opened for, if any.
    pub closed spec fn controller_spec(&self) -> Option<EfiHandle> {
        self.controller
    }

    /// The close call that this scope owes, given the address of the
    /// firmware's operation.
    pub open spec fn close_call(&self, entry: usize) -> BootCall {
        BootCall::CloseProtocol {
            entry,
            handle: self.handle_spec(),
            guid: P::guid_spec(),
            agent: self.agent_spec(),
            controller: handle_or_null(self.controller_spec()),
        }
    }

    /// The scope of a protocol that was opened on `handle` by `agent`
    /// for `controller`.
    pub fn new(proto: P, handle: EfiHandle, agent: EfiHandle, controller: Option<EfiHandle>) -> (r:
        Self)
        ensures
            r.proto_spec() == proto,
            r.handle_spec() == handle,
            r.agent_spec() == agent,
            r.controller_spec() == controller,
    {
        Scope { proto, handle, agent, controller }
    }

    /// The protocol in the scope, to read.
    pub fn proto(&self) -> (r: &P)
        ensures
            *r == self.proto_spec(),
    {
        &self.proto
    }

    /// The handle that the protocol was opened on.
    pub fn handle(&self) -> (r: EfiHandle)
        ensures
            r == self.handle_spec(),
    {
        self.handle
    }

    /// The agent that opened the protocol.
    pub fn agent(&self) -> (r: EfiHandle)
        ensures
            r == self.agent_spec(),
    {
        self.agent
    }

    /// The controller that the protocol was opened for, if any.
    pub fn controller(&self) -> (r: Option<EfiHandle>)
        ensures
            r == self.controller_spec(),
    {
        self.controller
    }

    /// Ends the scope with the close that it owes. The call is to be
    /// made at once, and what the firmware answers goes to the
    /// caller. Where boot services do not offer the operation, that
    /// is the error.
    pub fn close(self, boot: &BootServices) -> (r: Result<BootCall, UefiError>)
        ensures
            r == boot.close_protocol_spec(
                P::guid_spec(),
                self.handle_spec(),
                self.agent_spec(),
                self.controller_spec(),
            ),
            r is Ok ==> r->Ok_0 == self.close_call(boot@.close_protocol.0),
    {
        boot.close_protocol::<P>(self.handle, self.agent, self.controller)
    }

    /// Ends the scope without a close and hands out the protocol. The
    /// caller closes by hand later, or leaves it to the firmware,
    /// which closes what an image holds when the image exits.
    pub fn leak(self) -> (r: P)
        ensures
            r == self.proto_spec(),
    {
        self.proto
    }

    /// Ends the scope where nobody asked for it: at the end of a
    /// block, on an early return, while unwinding. `table` is the boot
    /// table as it can be reached now, if it can. The same close is
    /// tried as an explicit one would make, and nothing here can fail:
    /// where no close is possible, the result says so.
    pub fn release(self, table: Option<&SystemTable<Boot>>) -> (r: Release)
        ensures
            r == match table {
                None => Release::NoBootServices,
                Some(t) => match t.boot_spec().close_protocol_spec(
                    P::guid_spec(),
                    self.handle_spec(),
                    self.agent_spec(),
                    self.controller_spec(),
                ) {
                    Ok(call) => Release::Close(call),
                    Err(_) => Release::NoBootServices,
                },
            },
    {
        match table {
            None => Release::NoBootServices,
            Some(t) => {
                let boot = t.boot();
                match boot.close_protocol::<P>(self.handle, self.agent, self.controller) {
                    Ok(call) => Release::Close(call),
                    Err(_) => Release::NoBootServices,
                }
            },
        }
    }
}

/// What is left to do once the firmware has answered the close of a
/// scope that went away by itself: the error to write to the log, if
/// there is one. It goes nowhere else.
pub fn release_done(status: EfiStatus) -> (r: Option<UefiError>)
    ensures
        r == match status.outcome() {
            Ok(_) => None,
            Err(e) => Some(e),
        },
{
    match status.into_result() {
        Ok(_) => None,
        Err(e) => Some(e),
    }
}

/// Where a scope is in its life.
#[derive(Clone, Copy, Debug, PartialEq, Eq, Structural)]
pub enum ScopeState {
    /// No protocol has been opened.
    Unopened,
    /// The protocol is open and the close is owed.
    Open,
    /// The scope is gone. Nothing comes after this.
    Closed,
}

/// What can happen to a scope.
#[derive(Clone, Copy, Debug, PartialEq, Eq, Structural)]
pub enum ScopeEvent {
    /// The firmware opened the protocol.
    Opened,
    /// The holder closes the scope.
    Close,
    /// The holder leaks the scope.
    Leak,
    /// The scope goes away by itself.
    Dropped,
}

impl ScopeState {
    /// The state after `event`, and whether the event makes a close
    /// attempt. An event that the state does not allow changes
    /// nothing and attempts nothing.
    pub open spec fn after(self, event: ScopeEvent) -> (ScopeState, bool) {
        match (self, event) {
            (ScopeState::Unopened, ScopeEvent::Opened) => (ScopeState::Open, false),
            (ScopeState::Open, ScopeEvent::Close) => (ScopeState::Closed, true),
            (ScopeState::Open, ScopeEvent::Dropped) => (ScopeState::Closed, true),
            (ScopeState::Open, ScopeEvent::Leak) => (ScopeState::Closed, false),
            _ => (self, false),
        }
    }

    /// The state after `event`, and whether the event makes a close
    /// attempt.
    pub fn step(self, event: ScopeEvent) -> (r: (ScopeState, bool))
        ensures
            r == self.after(event),
    {
        match (self, event) {
            (ScopeState::Unopened, ScopeEvent::Opened) => (ScopeState::Open, false),
            (ScopeState::Open, ScopeEvent::Close) => (ScopeState::Closed, true),
            (ScopeState::Open, ScopeEvent::Dropped) => (ScopeState::Closed, true),
            (ScopeState::Open, ScopeEvent::Leak) => (ScopeState::Closed, false),
            _ => (self, false),
        }
    }

    /// The state after all of `events`, in order.
    pub open spec fn after_all(self, events: Seq<ScopeEvent>) -> ScopeState
        decreases events.len(),
    {
        if events.len() == 0 {
            self
        } else {
            self.after(events[0]).0.after_all(events.drop_first())
        }
    }

    /// How many of `events` make a close attempt.
    pub open spec fn close_attempts(self, events: Seq<ScopeEvent>) -> nat
        decreases events.len(),
    {
        if events.len() == 0 {
            0
        } else {
            let (next, attempt) = self.after(events[0]);
            (if attempt {
                1nat
            } else {
                0nat
            }) + next.close_attempts(events.drop_first())
        }
    }
}

/// A closed scope stays closed and attempts nothing more, whatever is
/// tried on it.
pub proof fn lemma_closed_is_final(events: Seq<ScopeEvent>)
    ensures
        ScopeState::Closed.after_all(events) == ScopeState::Closed,
        ScopeState::Closed.close_attempts(events) == 0,
    decreases events.len(),
{
    if events.len() > 0 {
        lemma_closed_is_final(events.drop_first());
    }
}

/// After a protocol was opened, whatever is tried on the scope and
/// however often, at most one close attempt is made. It is made by
/// the first thing that ends the scope, if that is a close or the
/// scope going away by itself; a leak makes none. After that first
/// thing the scope is closed for good.
pub proof fn lemma_one_close_attempt(events: Seq<ScopeEvent>)
    ensures
        ScopeState::Open.close_attempts(events) <= 1,
        events.len() > 0 && events[0] != ScopeEvent::Opened ==> ScopeState::Open.after_all(events)
            == ScopeState::Closed,
        events.len() > 0 && (events[0] == ScopeEvent::Close || events[0] == ScopeEvent::Dropped)
            ==> ScopeState::Open.close_attempts(events) == 1,
        events.len() > 0 && events[0] == ScopeEvent::Leak ==> ScopeState::Open.close_attempts(
            events,
        ) == 0,
    decreases events.len(),
{
    if events.len() > 0 {
        let rest = events.drop_first();
        if events[0] == ScopeEvent::Opened {
            lemma_one_close_attempt(rest);
        } else {
            lemma_closed_is_final(rest);
        }
    }
}

/// Date and time as the firmware gives them.
#[derive(Clone, Copy, Debug, PartialEq, Eq, Structural)]
pub struct Time {
    /// 1900 - 9999
    pub year: u16,
    /// 1 - 12
    pub month: u8,
    /// 1 - 31
    pub day: u8,
    /// 0 - 23
    pub hour: u8,
    /// 0 - 59
    pub minute: u8,
    /// 0 - 59
    pub second: u8,
    pub _pad1: u8,
    /// 0 - 999,999,999
    pub nanosecond: u32,
    /// -1440 to 1440, or 2047 where the zone is not given
    pub time_zone: i16,
    pub daylight: u8,
    pub _pad2: u8,
}

impl Default for Time {
    fn default() -> (r: Self)
        ensures
            r == (Time {
                year: 0,
                month: 0,
                day: 0,
                hour: 0,
                minute: 0,
                second: 0,
                _pad1: 0,
                nanosecond: 0,
                time_zone: 0,
                daylight: 0,
                _pad2: 0,
            }),
    {
        Time {
            year: 0,
            month: 0,
            day: 0,
            hour: 0,
            minute: 0,
            second: 0,
            _pad1: 0,
            nanosecond: 0,
            time_zone: 0,
            daylight: 0,
            _pad2: 0,
        }
    }
}

} // verus!
