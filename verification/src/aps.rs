//! The application-data coordinator's state machine.
//!
//! The coordinator watches device-state broadcasts and schedules outbound
//! data requests, indication polls, and confirmation polls against a stick
//! that has a single data-request slot. Its event loop, channels, and the
//! serial multiplexer client live outside the crate; they call these
//! functions with plain values and perform the actions they return.
//!
//! Backpressure: dispatching a data request clears the local free-slot
//! flag, and only a later device-state broadcast with the free-slot bit
//! set re-enables dispatching. Confirmations are correlated to their
//! submitters by request id through the table these functions maintain.

use vstd::prelude::*;

use crate::errors::{Error, ErrorKind};
use crate::helpers::{Awaiting, IncrementingId};
use crate::protocol::{response_command, Request, RequestId, Response};
use crate::types::{ApsDataConfirm, ApsDataIndication, ApsDataRequest, DeviceState, Platform, Version};

verus! {

/// The polls a device-state broadcast asks for.
pub struct DeviceStatePolls {
    /// The stick holds an indication; poll for it and forward the result
    /// to the indication stream.
    pub poll_indication: bool,
    /// The stick holds a confirmation; poll for it and route the result by
    /// request id.
    pub poll_confirm: bool,
}

/// The coordinator's state: the free-slot flag mirrored from the last
/// device-state broadcast, the table of submitters awaiting confirmation,
/// and the request-id counter.
pub struct Aps<V> {
    request_free_slots: bool,
    awaiting: Awaiting<V>,
    request_ids: IncrementingId,
}

impl<V> Aps<V> {
    /// Whether the stick will accept a data request, as of the last
    /// broadcast or dispatch.
    pub closed spec fn free_slots(self) -> bool {
        self.request_free_slots
    }

    /// The submitters awaiting a confirmation, keyed by request id.
    pub closed spec fn waiters(self) -> Map<u8, V> {
        self.awaiting@
    }

    /// The request id the next submission will be assigned.
    pub closed spec fn next_request_id(self) -> u8 {
        self.request_ids.current()
    }

    /// A fresh coordinator: no free slot until the stick reports one, no
    /// submitters, request ids starting at zero.
    pub fn new() -> (r: Self)
        ensures
            !r.free_slots(),
            r.waiters() == Map::<u8, V>::empty(),
            r.next_request_id() == 0,
    {
        Aps { request_free_slots: false, awaiting: Awaiting::new(), request_ids: IncrementingId::new() }
    }

    /// Whether a submission may be dispatched now.
    pub fn can_accept(&self) -> (r: bool)
        ensures
            r == self.free_slots(),
    {
        self.request_free_slots
    }

    /// Take in a device-state broadcast: mirror the free-slot bit, and
    /// report which polls the state asks for.
    pub fn handle_device_state(&mut self, device_state: DeviceState) -> (r: DeviceStatePolls)
        ensures
            final(self).free_slots() == device_state.data_request_free_slots,
            final(self).waiters() == old(self).waiters(),
            final(self).next_request_id() == old(self).next_request_id(),
            r.poll_indication == device_state.data_indication,
            r.poll_confirm == device_state.data_confirm,
    {
        self.request_free_slots = device_state.data_request_free_slots;
        DeviceStatePolls {
            poll_indication: device_state.data_indication,
            poll_confirm: device_state.data_confirm,
        }
    }

    /// Dispatch one submission: assign it the next request id, register
    /// its reply slot under that id, clear the free-slot flag (the stick
    /// takes one request at a time; the next broadcast re-enables), and
    /// build the serial request to issue.
    pub fn begin_data_request(&mut self, request: ApsDataRequest, slot: V) -> (r: (
        RequestId,
        Request,
    ))
        requires
            old(self).free_slots(),
        ensures
            r.0 == old(self).next_request_id(),
            r.1 == Request::ApsDataRequest(r.0, request),
            !final(self).free_slots(),
            final(self).waiters() == old(self).waiters().insert(r.0, slot),
            final(self).next_request_id() == (old(self).next_request_id() + 1) % 256,
    {
        self.request_free_slots = false;
        let request_id = self.request_ids.next();
        let _ = self.awaiting.register(request_id, slot);
        (request_id, Request::ApsDataRequest(request_id, request))
    }

    /// Take back the reply slot of a submission that failed before
    /// reaching the stick, so the error can be signalled to it. The
    /// free-slot flag stays cleared until the next broadcast.
    pub fn submission_failed(&mut self, request_id: RequestId) -> (r: Option<V>)
        ensures
            final(self).free_slots() == old(self).free_slots(),
            final(self).next_request_id() == old(self).next_request_id(),
            final(self).waiters() == old(self).waiters().remove(request_id),
            r == if old(self).waiters().contains_key(request_id) {
                Some(old(self).waiters()[request_id])
            } else {
                None::<V>
            },
    {
        self.awaiting.deregister(request_id)
    }

    /// Route a polled confirmation to its submitter: take the reply slot
    /// registered under the confirmation's request id out of the table.
    /// `None` means no submitter awaits this id; the caller logs it as an
    /// unsolicited confirmation and drops the confirmation.
    pub fn route_confirm(&mut self, request_id: RequestId) -> (r: Option<V>)
        ensures
            final(self).free_slots() == old(self).free_slots(),
            final(self).next_request_id() == old(self).next_request_id(),
            final(self).waiters() == old(self).waiters().remove(request_id),
            r == if old(self).waiters().contains_key(request_id) {
                Some(old(self).waiters()[request_id])
            } else {
                None::<V>
            },
    {
        self.awaiting.deregister(request_id)
    }
}

/// The coordinator events that touch the free-slot flag, as the contracts
/// above describe them: a device-state broadcast sets the flag to its
/// free-slot bit (`handle_device_state`); a dispatch clears it
/// (`begin_data_request`); routing a confirmation or taking back a failed
/// submission leaves it alone (`route_confirm`, `submission_failed`).
pub enum ApsEvent {
    StateReport { free: bool },
    Dispatch,
    ConfirmRouted,
    SubmissionFailed,
}

/// The free-slot flag after one coordinator event.
pub open spec fn free_after(free: bool, ev: ApsEvent) -> bool {
    match ev {
        ApsEvent::StateReport { free: f } => f,
        ApsEvent::Dispatch => false,
        ApsEvent::ConfirmRouted => free,
        ApsEvent::SubmissionFailed => free,
    }
}

/// The free-slot flag after a sequence of coordinator events.
pub open spec fn free_after_all(free: bool, evs: Seq<ApsEvent>) -> bool
    decreases evs.len(),
{
    if evs.len() == 0 {
        free
    } else {
        free_after_all(free_after(free, evs.first()), evs.drop_first())
    }
}

/// Whether a trace of coordinator events is one the contracts allow:
/// every dispatch happens while the free-slot flag is set, as
/// `begin_data_request` requires of its callers.
pub open spec fn trace_allowed(free: bool, evs: Seq<ApsEvent>) -> bool
    decreases evs.len(),
{
    if evs.len() == 0 {
        true
    } else {
        &&& (evs.first() is Dispatch ==> free)
        &&& trace_allowed(free_after(free, evs.first()), evs.drop_first())
    }
}

/// How many dispatches a trace holds.
pub open spec fn dispatch_count(evs: Seq<ApsEvent>) -> int
    decreases evs.len(),
{
    if evs.len() == 0 {
        0
    } else {
        (if evs.first() is Dispatch {
            1int
        } else {
            0int
        }) + dispatch_count(evs.drop_first())
    }
}

/// Whether a trace contains a device-state broadcast reporting a free
/// slot.
pub open spec fn has_free_report(evs: Seq<ApsEvent>) -> bool
    decreases evs.len(),
{
    if evs.len() == 0 {
        false
    } else {
        (evs.first() matches ApsEvent::StateReport { free } && free) || has_free_report(
            evs.drop_first(),
        )
    }
}

/// Backpressure: between two device-state broadcasts that report a free
/// slot, the coordinator dispatches at most one data request. Stated over
/// traces of the events above: any allowed trace without a free-slot
/// report holds at most one dispatch, and none at all if the flag starts
/// cleared.
pub proof fn lemma_backpressure(free: bool, evs: Seq<ApsEvent>)
    requires
        trace_allowed(free, evs),
        !has_free_report(evs),
    ensures
        dispatch_count(evs) <= if free {
            1int
        } else {
            0int
        },
    decreases evs.len(),
{
    if evs.len() > 0 {
        let ev = evs.first();
        let rest = evs.drop_first();
        lemma_backpressure(free_after(free, ev), rest);
        match ev {
            ApsEvent::StateReport { free: f } => {
                assert(!f);
            },
            ApsEvent::Dispatch => {
                assert(free);
                assert(!free_after(free, ev));
            },
            ApsEvent::ConfirmRouted => {},
            ApsEvent::SubmissionFailed => {},
        }
    }
}

/// Extract a version reply: any other response kind is unexpected.
pub fn version_response(response: Response) -> (r: Result<(Version, Platform), Error>)
    ensures
        match r {
            Ok((v, p)) => response matches Response::Version { version, platform } && version == v
                && platform == p,
            Err(e) => {
                &&& !(response is Version)
                &&& e.kind matches ErrorKind::UnexpectedResponse(c) && c == response_command(
                    response,
                )
            },
        },
{
    match response {
        Response::Version { version, platform } => Ok((version, platform)),
        resp => Err(Error { kind: ErrorKind::UnexpectedResponse(resp.command_id()) }),
    }
}

/// Extract a device-state reply: any other response kind is unexpected.
pub fn device_state_response(response: Response) -> (r: Result<DeviceState, Error>)
    ensures
        match r {
            Ok(ds) => response matches Response::DeviceState(d) && d == ds,
            Err(e) => {
                &&& !(response is DeviceState)
                &&& e.kind matches ErrorKind::UnexpectedResponse(c) && c == response_command(
                    response,
                )
            },
        },
{
    match response {
        Response::DeviceState(device_state) => Ok(device_state),
        resp => Err(Error { kind: ErrorKind::UnexpectedResponse(resp.command_id()) }),
    }
}

/// Check the acknowledgement of a data request: any other response kind is
/// unexpected. The request id in the acknowledgement is not checked; the
/// serial-layer sequence id already correlates it.
pub fn data_request_response(response: Response) -> (r: Result<(), Error>)
    ensures
        match r {
            Ok(()) => response is ApsDataRequest,
            Err(e) => {
                &&& !(response is ApsDataRequest)
                &&& e.kind matches ErrorKind::UnexpectedResponse(c) && c == response_command(
                    response,
                )
            },
        },
{
    match response {
        Response::ApsDataRequest { .. } => Ok(()),
        resp => Err(Error { kind: ErrorKind::UnexpectedResponse(resp.command_id()) }),
    }
}

/// Extract a polled confirmation and the request id it answers: any other
/// response kind is unexpected.
pub fn data_confirm_response(response: Response) -> (r: Result<(RequestId, ApsDataConfirm), Error>)
    ensures
        match r {
            Ok((rid, conf)) => response matches Response::ApsDataConfirm {
                request_id,
                aps_data_confirm,
                ..
            } && request_id == rid && aps_data_confirm == conf,
            Err(e) => {
                &&& !(response is ApsDataConfirm)
                &&& e.kind matches ErrorKind::UnexpectedResponse(c) && c == response_command(
                    response,
                )
            },
        },
{
    match response {
        Response::ApsDataConfirm { request_id, aps_data_confirm, .. } => Ok(
            (request_id, aps_data_confirm),
        ),
        resp => Err(Error { kind: ErrorKind::UnexpectedResponse(resp.command_id()) }),
    }
}

/// Extract a polled indication: any other response kind is unexpected.
pub fn data_indication_response(response: Response) -> (r: Result<ApsDataIndication, Error>)
    ensures
        match r {
            Ok(ind) => response matches Response::ApsDataIndication { aps_data_indication, .. }
                && aps_data_indication == ind,
            Err(e) => {
                &&& !(response is ApsDataIndication)
                &&& e.kind matches ErrorKind::UnexpectedResponse(c) && c == response_command(
                    response,
                )
            },
        },
{
    match response {
        Response::ApsDataIndication { aps_data_indication, .. } => Ok(aps_data_indication),
        resp => Err(Error { kind: ErrorKind::UnexpectedResponse(resp.command_id()) }),
    }
}

} // verus!
