//! The session lifecycle around the state machine: the session-started and
//! session-ended events open and close sessions, and the end-of-session
//! upload is retried a bounded number of times.
//!
//! The caller runs the I/O: it performs each returned action and reports
//! the outcome back through `registration_complete`, `end_attempt_succeeded`
//! and `end_attempt_failed`, and the tracker decides what happens next.

use vstd::prelude::*;

use crate::packet::event::EventDataDetails;
use crate::packet::Packet;
use crate::session::{fresh_session, session_step, Session, SessionAction};

verus! {

/// How many delivery attempts an end-of-session summary is given.
pub const END_SESSION_ATTEMPTS: u8 = 5;

/// Owns the current session, if any, and the bounded retry budget of an
/// end-of-session upload in flight.
#[derive(Debug)]
pub struct SessionTracker {
    /// The session between a session-started and a session-ended event.
    pub current_session: Option<Session>,
    /// Delivery attempts left for the end-of-session summary, counting the
    /// one announced by the end-session action; zero when none is in
    /// flight.
    pub end_tries_left: u8,
}

impl SessionTracker {
    /// A tracker with no session.
    pub fn new() -> (r: SessionTracker)
        ensures
            r.current_session is None,
            r.end_tries_left == 0,
    {
        SessionTracker { current_session: None, end_tries_left: 0 }
    }

    /// Absorbs one decoded packet at the given Unix millisecond timestamp
    /// and says what the caller must send.
    ///
    /// A session-started event opens a fresh session (replacing any other).
    /// A session-ended event on a registered session stamps the end time
    /// and asks for the end-of-session upload, with five attempts granted;
    /// on an unregistered session it just discards the session.  Any event
    /// while no session exists does nothing.  Every other packet kind is
    /// handed to the current session's state machine.
    pub fn handle_packet(&mut self, packet: &Packet, now_ms: i64) -> (r: SessionAction)
        ensures
            packet matches Packet::Event(e) ==> ({
                let after = *final(self);
                &&& e.event_details is SessionStarted ==> (r is Idle && after.current_session
                    == Some(fresh_session(e.header, now_ms)) && after.end_tries_left == 0)
                &&& e.event_details is SessionEnded ==> ({
                    &&& old(self).current_session is None ==> (r is Idle && after == *old(self))
                    &&& old(self).current_session matches Some(s) ==> ({
                        &&& s.session_uid is None ==> (r is Idle && after.current_session is None
                            && after.end_tries_left == 0)
                        &&& s.session_uid is Some ==> (r is EndSession && after.current_session
                            == Some(Session { end_date: Some(now_ms), ..s })
                            && after.end_tries_left == END_SESSION_ATTEMPTS)
                    })
                })
                &&& !(e.event_details is SessionStarted) && !(e.event_details is SessionEnded)
                    ==> (r is Idle && after == *old(self))
            }),
            !(packet matches Packet::Event(_)) ==> ({
                let after = *final(self);
                &&& old(self).current_session is None ==> (r is Idle && after == *old(self))
                &&& old(self).current_session matches Some(s) ==> (
                after.current_session matches Some(s2) && session_step(s, s2, *packet, r)
                    && after.end_tries_left == old(self).end_tries_left)
            }),
    {
        match packet {
            Packet::Event(e) => {
                match e.event_details {
                    EventDataDetails::SessionStarted => {
                        self.current_session = Some(Session::new(&e.header, now_ms));
                        self.end_tries_left = 0;
                        SessionAction::Idle
                    },
                    EventDataDetails::SessionEnded => {
                        if self.current_session.is_none() {
                            SessionAction::Idle
                        } else if self.current_session.as_ref().unwrap().session_uid.is_some() {
                            self.current_session.as_mut().unwrap().end_date = Some(now_ms);
                            self.end_tries_left = END_SESSION_ATTEMPTS;
                            SessionAction::EndSession
                        } else {
                            self.current_session = None;
                            self.end_tries_left = 0;
                            SessionAction::Idle
                        }
                    },
                    _ => SessionAction::Idle,
                }
            },
            _ => {
                if self.current_session.is_some() {
                    self.current_session.as_mut().unwrap().handle_packet(packet)
                } else {
                    SessionAction::Idle
                }
            },
        }
    }

    /// Stores the remote identifier returned by a successful registration
    /// on the current session; without a session this does nothing.
    pub fn registration_complete(&mut self, uid: String)
        ensures
            old(self).current_session matches Some(s) ==> final(self).current_session == Some(
                Session { session_uid: Some(uid), ..s },
            ),
            old(self).current_session is None ==> *final(self) == *old(self),
            final(self).end_tries_left == old(self).end_tries_left,
    {
        if self.current_session.is_some() {
            self.current_session.as_mut().unwrap().set_session_uid(uid);
        }
    }

    /// The end-of-session upload went through: the session is done and
    /// discarded.
    pub fn end_attempt_succeeded(&mut self)
        ensures
            final(self).current_session is None,
            final(self).end_tries_left == 0,
    {
        self.current_session = None;
        self.end_tries_left = 0;
    }

    /// One end-of-session delivery attempt failed.  While attempts remain
    /// the caller must retry at once; when the budget is exhausted the
    /// session is discarded regardless of outcome.
    pub fn end_attempt_failed(&mut self) -> (retry: bool)
        ensures
            old(self).end_tries_left <= 1 ==> (!retry && final(self).current_session is None
                && final(self).end_tries_left == 0),
            old(self).end_tries_left > 1 ==> (retry && final(self).end_tries_left == old(
                self,
            ).end_tries_left - 1 && final(self).current_session == old(self).current_session),
    {
        if self.end_tries_left <= 1 {
            self.current_session = None;
            self.end_tries_left = 0;
            false
        } else {
            self.end_tries_left = self.end_tries_left - 1;
            true
        }
    }
}

} // verus!
