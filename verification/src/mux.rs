//! The serial request/response multiplexer's decision logic.
//!
//! Two cooperating tasks share this state: a writer that encodes
//! submissions and registers their reply slots, and a reader that parses
//! incoming frames, surfaces device-state broadcasts, and routes solicited
//! responses to the slot registered under their sequence id. The tasks'
//! loops, the transport, and the channels live outside the crate; they call
//! these functions with plain values and perform the actions they return.

use vstd::prelude::*;

use crate::errors::{Error, ErrorKind};
use crate::helpers::Awaiting;
use crate::protocol::{
    request_frame, request_len_ok, response_device_state, response_error_matches,
    response_matches, response_well_formed, CommandId, Request, Response,
};
use crate::types::{device_state_of, DeviceState};

verus! {

/// What the writer task must do with one submission.
pub enum CommandAction<V> {
    /// Write the frame to the transport; the reply slot is registered and
    /// the response will be routed to it by sequence id.
    Emit { sequence_id: u8, frame: Vec<u8> },
    /// The sequence id allocated for this submission is still in flight,
    /// so nothing was registered or encoded; hand the error back through
    /// the returned slot.
    Reject { slot: V, error: Error },
}

/// What the reader task must do with one incoming frame.
pub struct FrameDisposition<V> {
    /// The device state the frame carried, to be broadcast to observers.
    pub broadcast: Option<DeviceState>,
    /// A reply slot taken out of the table, and the outcome to signal it
    /// with: the parsed response, or the parse error recovered for its
    /// sequence id.
    pub deliver: Option<(V, Result<Response, Error>)>,
    /// A diagnostic for a frame that reached no slot; it is logged and the
    /// reader continues.
    pub dropped: Option<Error>,
}

/// The device state a well-formed frame carries, if its command carries
/// one that is broadcast: device-state reports, change notifications,
/// indications, and data-request acknowledgements.
pub open spec fn frame_device_state(s: Seq<u8>) -> Option<DeviceState> {
    match crate::protocol::command_id_of(s[0]) {
        Some(CommandId::DeviceState) => Some(device_state_of(s[5])),
        Some(CommandId::DeviceStateChanged) => Some(device_state_of(s[5])),
        Some(CommandId::ApsDataIndication) => Some(device_state_of(s[7])),
        Some(CommandId::ApsDataRequest) => Some(device_state_of(s[7])),
        _ => None,
    }
}

/// Whether a well-formed frame is the unsolicited device-state-changed
/// notification, which is broadcast but never routed to a waiter.
pub open spec fn frame_unsolicited(s: Seq<u8>) -> bool {
    crate::protocol::command_id_of(s[0]) == Some(CommandId::DeviceStateChanged)
}

/// State shared by the two halves of the serial multiplexer: the table of
/// reply slots keyed by sequence id, and the sequence-id counter.
pub struct SerialMux<V> {
    awaiting: Awaiting<V>,
    sequence_id: u8,
}

impl<V> SerialMux<V> {
    /// The reply slots outstanding, keyed by sequence id.
    pub closed spec fn waiters(self) -> Map<u8, V> {
        self.awaiting@
    }

    /// The sequence id the next submission will be assigned.
    pub closed spec fn next_sequence(self) -> u8 {
        self.sequence_id
    }

    /// A fresh multiplexer: no waiters, sequence ids starting at zero.
    pub fn new() -> (r: Self)
        ensures
            r.waiters() == Map::<u8, V>::empty(),
            r.next_sequence() == 0,
    {
        SerialMux { awaiting: Awaiting::new(), sequence_id: 0 }
    }

    /// Allocate the next sequence id. Consecutive ids differ by five: the
    /// stick ignores requests whose sequence id collides with the id of an
    /// unsolicited frame, and the stride works around that.
    pub fn next_sequence_id(&mut self) -> (r: u8)
        ensures
            r == old(self).next_sequence(),
            final(self).next_sequence() == (old(self).next_sequence() + 5) % 256,
            final(self).waiters() == old(self).waiters(),
    {
        let value = self.sequence_id;
        self.sequence_id = self.sequence_id.wrapping_add(5);
        value
    }

    /// Store the reply slot for a sequence id.
    pub fn register_awaiting(&mut self, sequence_id: u8, slot: V)
        ensures
            final(self).waiters() == old(self).waiters().insert(sequence_id, slot),
            final(self).next_sequence() == old(self).next_sequence(),
    {
        let _ = self.awaiting.register(sequence_id, slot);
    }

    /// Remove the waiter for a sequence id, handing its slot back so a
    /// timeout or a transport write failure can be signalled to it. A
    /// response arriving later finds no waiter and is treated as
    /// unsolicited.
    pub fn remove_waiter(&mut self, sequence_id: u8) -> (r: Option<V>)
        ensures
            final(self).waiters() == old(self).waiters().remove(sequence_id),
            final(self).next_sequence() == old(self).next_sequence(),
            r == if old(self).waiters().contains_key(sequence_id) {
                Some(old(self).waiters()[sequence_id])
            } else {
                None::<V>
            },
    {
        self.awaiting.deregister(sequence_id)
    }

    /// The writer task's step: allocate a sequence id for the submission,
    /// encode its frame, and register the reply slot under the id. If that
    /// id is somehow still in flight, nothing is registered and the slot
    /// comes back with a duplicate-sequence-id error.
    pub fn process_command(&mut self, request: Request, slot: V) -> (r: CommandAction<V>)
        requires
            request_len_ok(request),
        ensures
            final(self).next_sequence() == (old(self).next_sequence() + 5) % 256,
            ({
                let sid = old(self).next_sequence();
                if old(self).waiters().contains_key(sid) {
                    &&& r matches CommandAction::Reject { slot: s, error } && s == slot && (
                    error.kind matches ErrorKind::DuplicateSequenceId(d) && d == sid)
                    &&& final(self).waiters() == old(self).waiters()
                } else {
                    &&& r matches CommandAction::Emit { sequence_id, frame } && sequence_id == sid
                        && frame@ == request_frame(request, sid)
                    &&& final(self).waiters() == old(self).waiters().insert(sid, slot)
                }
            }),
    {
        let sequence_id = self.next_sequence_id();
        if self.awaiting.contains(sequence_id) {
            return CommandAction::Reject {
                slot,
                error: Error { kind: ErrorKind::DuplicateSequenceId(sequence_id) },
            };
        }
        let frame = match request.into_frame(sequence_id) {
            Ok(f) => f,
            Err(e) => {
                return CommandAction::Reject { slot, error: e };
            },
        };
        let _ = self.awaiting.register(sequence_id, slot);
        CommandAction::Emit { sequence_id, frame }
    }

    /// The reader task's step for one decoded frame.
    ///
    /// A well-formed frame has its device state (when it carries one)
    /// surfaced for broadcast; the unsolicited change notification stops
    /// there. A solicited response is routed to the waiter registered
    /// under its sequence id, which is removed; with no waiter the frame
    /// is dropped with an unsolicited-response diagnostic. A malformed
    /// frame's error is routed to the waiter named by its sequence-id
    /// byte when that byte exists and a waiter holds it; otherwise the
    /// parse error itself is the diagnostic.
    pub fn handle_frame(&mut self, frame: Vec<u8>) -> (r: FrameDisposition<V>)
        ensures
            final(self).next_sequence() == old(self).next_sequence(),
            ({
                let s = frame@;
                if response_well_formed(s) {
                    &&& r.broadcast == frame_device_state(s)
                    &&& if frame_unsolicited(s) {
                        &&& final(self).waiters() == old(self).waiters()
                        &&& r.deliver is None
                        &&& r.dropped is None
                    } else if old(self).waiters().contains_key(s[1]) {
                        &&& final(self).waiters() == old(self).waiters().remove(s[1])
                        &&& r.deliver matches Some((slot, res)) && slot == old(self).waiters()[s[1]] && (
                        res matches Ok(resp) && response_matches(s, resp))
                        &&& r.dropped is None
                    } else {
                        &&& final(self).waiters() == old(self).waiters()
                        &&& r.deliver is None
                        &&& r.dropped matches Some(e) && e.kind matches
                            ErrorKind::UnsolicitedResponse(sid) && sid == s[1]
                    }
                } else {
                    &&& r.broadcast is None
                    &&& if s.len() >= 2 && old(self).waiters().contains_key(s[1]) {
                        &&& final(self).waiters() == old(self).waiters().remove(s[1])
                        &&& r.deliver matches Some((slot, res)) && slot == old(self).waiters()[s[1]] && (
                        res matches Err(e) && response_error_matches(s, e))
                        &&& r.dropped is None
                    } else {
                        &&& final(self).waiters() == old(self).waiters()
                        &&& r.deliver is None
                        &&& r.dropped matches Some(e) && response_error_matches(s, e)
                    }
                }
            }),
    {
        let ghost s = frame@;
        let recovered_sid: Option<u8> = if frame.len() >= 2 {
            Some(frame[1])
        } else {
            None
        };
        match Response::from_frame(frame) {
            Ok((sequence_id, response)) => {
                let broadcast = response.device_state();
                proof {
                    assert(response_device_state(response) == frame_device_state(s));
                }
                if !response.solicited() {
                    FrameDisposition { broadcast, deliver: None, dropped: None }
                } else {
                    match self.awaiting.deregister(sequence_id) {
                        Some(slot) => FrameDisposition {
                            broadcast,
                            deliver: Some((slot, Ok(response))),
                            dropped: None,
                        },
                        None => {
                            proof {
                                assert(old(self).waiters().remove(sequence_id) =~= old(
                                    self,
                                ).waiters());
                            }
                            FrameDisposition {
                                broadcast,
                                deliver: None,
                                dropped: Some(
                                    Error { kind: ErrorKind::UnsolicitedResponse(sequence_id) },
                                ),
                            }
                        },
                    }
                }
            },
            Err(error) => {
                match recovered_sid {
                    Some(sequence_id) => {
                        match self.awaiting.deregister(sequence_id) {
                            Some(slot) => FrameDisposition {
                                broadcast: None,
                                deliver: Some((slot, Err(error))),
                                dropped: None,
                            },
                            None => {
                                proof {
                                    assert(old(self).waiters().remove(sequence_id) =~= old(
                                        self,
                                    ).waiters());
                                }
                                FrameDisposition {
                                    broadcast: None,
                                    deliver: None,
                                    dropped: Some(error),
                                }
                            },
                        }
                    },
                    None => FrameDisposition { broadcast: None, deliver: None, dropped: Some(error) },
                }
            },
        }
    }
}

} // verus!
