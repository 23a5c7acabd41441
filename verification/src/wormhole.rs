//! The session orchestrator: one mutually-exclusive phase slot and the
//! decision steps of every public operation.
//!
//! Each operation is split at its suspension points: a verified step decides
//! what the collaborator must do next, the caller performs that network or
//! file work, and hands its outcome to the next verified step. Every step
//! takes the phase it needs by swapping `Idle` in, so each phase-owned
//! resource is consumed at most once.

use vstd::prelude::*;

use crate::code::{code_wellformed, is_valid_code};
use crate::error::WormholeError;
use crate::types::{percent_of, ProgressEvent, ReceiveOffer};
use magic_wormhole::transit::RelayHint;

verus! {

/// The default relay server used for every transfer.
pub const DEFAULT_RELAY_SERVER: &'static str = "wss://relay.magic-wormhole.io:443/v1";

#[verifier::external_type_specification]
#[verifier::external_body]
pub struct ExRelayHint(RelayHint);

/// Whether a relay hint set can be built for this URL text: URL parsing and
/// hint construction are deterministic, so this depends on the text alone.
pub uninterp spec fn relay_url_ok(url: Seq<char>) -> bool;

/// Relies on url parsing and magic_wormhole::transit::RelayHint::from_urls:
/// builds the one-element relay hint set for the given relay URL, or returns
/// the collaborator's diagnostic text; both steps are deterministic in the
/// URL text, so success is exactly `relay_url_ok`.
#[verifier::external_body]
fn fetch_relay_hints(url: &str) -> (r: Result<Vec<RelayHint>, String>)
    ensures
        r is Ok <==> relay_url_ok(url@),
        r matches Ok(hints) ==> hints@.len() == 1,
{
    match url.parse() {
        Ok(parsed) => match RelayHint::from_urls(None, [parsed]) {
            Ok(hint) => Ok(vec![hint]),
            Err(e) => Err(e.to_string()),
        },
        Err(e) => Err(e.to_string()),
    }
}

/// The phase of the session, exactly one of which is active at a time,
/// owning the resources of that phase. Collaborator resources bound to the
/// network (mailbox, channel, pending request) are named by caller-chosen
/// handles; the relay hints and the offered file's name and size are held
/// directly.
pub enum SessionPhase {
    /// No resources held; initial and terminal-resting state.
    Idle,
    /// A rendezvous mailbox is open and a code allocated, awaiting the send.
    MailboxReady { mailbox: u64, relay_hints: Vec<RelayHint> },
    /// An authenticated channel not yet bound to a transfer; kept for
    /// protocol symmetry, no operation currently installs it.
    Connected { channel: u64, relay_hints: Vec<RelayHint> },
    /// An incoming offer awaits the caller's accept or reject decision.
    Receiving { request: u64, filename: String, filesize: u64, relay_hints: Vec<RelayHint> },
}

/// The number of password words to request: the caller's choice, or 2.
pub open spec fn code_length_words(code_length: Option<u32>) -> usize {
    match code_length {
        Some(n) => n as usize,
        None => 2,
    }
}

/// What taking the mailbox for a send does to the phase, and what it yields:
/// a missing file fails first and leaves the phase alone; otherwise the
/// phase is cleared, and only `MailboxReady` yields its resources.
pub open spec fn spec_send_file_begin(
    phase: SessionPhase,
    file_path: String,
    path_exists: bool,
) -> (SessionPhase, Result<(u64, Vec<RelayHint>), WormholeError>) {
    if !path_exists {
        (phase, Err(WormholeError::FileNotFound(file_path)))
    } else {
        match phase {
            SessionPhase::MailboxReady { mailbox, relay_hints } => (
                SessionPhase::Idle,
                Ok((mailbox, relay_hints)),
            ),
            _ => (SessionPhase::Idle, Err(WormholeError::NoActiveSession)),
        }
    }
}

/// What taking the pending request for an accept does: the phase is cleared,
/// and only `Receiving` yields its request, offer data and relay hints.
pub open spec fn spec_accept_transfer_begin(phase: SessionPhase) -> (
    SessionPhase,
    Result<(u64, String, u64, Vec<RelayHint>), WormholeError>,
) {
    match phase {
        SessionPhase::Receiving { request, filename, filesize, relay_hints } => (
            SessionPhase::Idle,
            Ok((request, filename, filesize, relay_hints)),
        ),
        _ => (SessionPhase::Idle, Err(WormholeError::NoActiveSession)),
    }
}

/// What taking the pending request for a reject does: the phase is cleared,
/// and only `Receiving` yields its request.
pub open spec fn spec_reject_transfer_begin(phase: SessionPhase) -> (
    SessionPhase,
    Result<u64, WormholeError>,
) {
    match phase {
        SessionPhase::Receiving { request, .. } => (SessionPhase::Idle, Ok(request)),
        _ => (SessionPhase::Idle, Err(WormholeError::NoActiveSession)),
    }
}

/// The client object: the public operation surface around the single
/// session phase slot. The caller serializes access; every transition here
/// swaps the whole phase, so resources can never be observed twice.
pub struct WormholeClient {
    phase: SessionPhase,
}

impl WormholeClient {
    /// The current phase of the session.
    pub closed spec fn phase(&self) -> SessionPhase {
        self.phase
    }

    /// Creates a new client with no active session.
    pub fn new() -> (c: Self)
        ensures
            c.phase() is Idle,
    {
        WormholeClient { phase: SessionPhase::Idle }
    }

    /// Atomically replaces the session phase, yielding the previous one.
    pub fn swap(&mut self, new_phase: SessionPhase) -> (old_phase: SessionPhase)
        ensures
            old_phase == old(self).phase(),
            final(self).phase() == new_phase,
    {
        let mut taken = new_phase;
        core::mem::swap(&mut self.phase, &mut taken);
        taken
    }

    /// Reports whether no session is active.
    pub fn is_idle(&self) -> (r: bool)
        ensures
            r == (self.phase() is Idle),
    {
        match &self.phase {
            SessionPhase::Idle => true,
            _ => false,
        }
    }

    /// First step of code generation: fixes the requested word count and
    /// builds the default relay hint set. It succeeds exactly when a hint
    /// set can be built for the default relay URL; failure to build it is a
    /// `ConnectionFailed`. The phase is untouched.
    pub fn create_send_code_begin(&self, code_length: Option<u32>) -> (r: Result<
        (usize, Vec<RelayHint>),
        WormholeError,
    >)
        ensures
            r is Ok <==> relay_url_ok(DEFAULT_RELAY_SERVER@),
            r matches Ok(p) ==> p.0 == code_length_words(code_length) && p.1@.len() == 1,
            r matches Err(e) ==> e is ConnectionFailed,
    {
        let words = match code_length {
            Some(n) => n as usize,
            None => 2,
        };
        match fetch_relay_hints(DEFAULT_RELAY_SERVER) {
            Ok(hints) => Ok((words, hints)),
            Err(detail) => Err(WormholeError::ConnectionFailed(detail)),
        }
    }

    /// Last step of code generation: on a mailbox opened with handle and
    /// allocated code, installs `MailboxReady` and returns the code; on a
    /// mailbox failure, fails with `ConnectionFailed` and leaves the phase
    /// as it was.
    pub fn create_send_code_finish(
        &mut self,
        outcome: Result<(u64, String), String>,
        relay_hints: Vec<RelayHint>,
    ) -> (r: Result<String, WormholeError>)
        ensures
            outcome matches Ok((mailbox, code)) ==> {
                &&& r matches Ok(c) && c == code
                &&& final(self).phase() == (SessionPhase::MailboxReady { mailbox, relay_hints })
            },
            outcome matches Err(detail) ==> {
                &&& r == Err::<String, WormholeError>(WormholeError::ConnectionFailed(detail))
                &&& final(self).phase() == old(self).phase()
            },
    {
        match outcome {
            Ok((mailbox, code)) => {
                let _displaced = self.swap(SessionPhase::MailboxReady { mailbox, relay_hints });
                Ok(code)
            },
            Err(detail) => Err(WormholeError::ConnectionFailed(detail)),
        }
    }

    /// First step of sending: rejects a missing file without touching any
    /// session resource, then takes the mailbox, failing with
    /// `NoActiveSession` when no send code was generated. Either take
    /// clears the phase.
    pub fn send_file_begin(&mut self, file_path: String, path_exists: bool) -> (r: Result<
        (u64, Vec<RelayHint>),
        WormholeError,
    >)
        ensures
            final(self).phase() == spec_send_file_begin(
                old(self).phase(),
                file_path,
                path_exists,
            ).0,
            r == spec_send_file_begin(old(self).phase(), file_path, path_exists).1,
    {
        if !path_exists {
            return Err(WormholeError::FileNotFound(file_path));
        }
        let taken = self.swap(SessionPhase::Idle);
        match taken {
            SessionPhase::MailboxReady { mailbox, relay_hints } => Ok((mailbox, relay_hints)),
            _ => Err(WormholeError::NoActiveSession),
        }
    }

    /// First step of receiving: a malformed code fails with `InvalidCode`
    /// before any network activity; a well-formed one succeeds exactly when
    /// a hint set can be built for the default relay URL, yielding the code
    /// and the hints, and fails with `ConnectionFailed` otherwise. The phase
    /// is untouched.
    pub fn connect_receive_begin(&self, code: String) -> (r: Result<
        (String, Vec<RelayHint>),
        WormholeError,
    >)
        ensures
            !code_wellformed(code@) ==> r == Err::<(String, Vec<RelayHint>), WormholeError>(
                WormholeError::InvalidCode(code),
            ),
            code_wellformed(code@) ==> {
                &&& (r is Ok <==> relay_url_ok(DEFAULT_RELAY_SERVER@))
                &&& (r matches Ok(p) ==> p.0 == code && p.1@.len() == 1)
                &&& (r matches Err(e) ==> e is ConnectionFailed)
            },
    {
        if !is_valid_code(code.as_str()) {
            return Err(WormholeError::InvalidCode(code));
        }
        match fetch_relay_hints(DEFAULT_RELAY_SERVER) {
            Ok(hints) => Ok((code, hints)),
            Err(detail) => Err(WormholeError::ConnectionFailed(detail)),
        }
    }

    /// Last step of receive negotiation: a failed offer request is a
    /// `TransferFailed`, a withdrawn one is `Cancelled`, both leaving the
    /// phase as it was; an offer installs `Receiving` with the pending
    /// request and returns the offer's name and size.
    pub fn connect_receive_offer(
        &mut self,
        outcome: Result<Option<(u64, String, u64)>, String>,
        relay_hints: Vec<RelayHint>,
    ) -> (r: Result<ReceiveOffer, WormholeError>)
        requires
            outcome matches Ok(Some((request, filename, filesize))) ==> filesize <= i64::MAX
                && filename@.len() > 0,
        ensures
            outcome matches Err(detail) ==> {
                &&& r == Err::<ReceiveOffer, WormholeError>(WormholeError::TransferFailed(detail))
                &&& final(self).phase() == old(self).phase()
            },
            outcome matches Ok(o) && o is None ==> {
                &&& r == Err::<ReceiveOffer, WormholeError>(WormholeError::Cancelled)
                &&& final(self).phase() == old(self).phase()
            },
            outcome matches Ok(Some((request, filename, filesize))) ==> {
                &&& r matches Ok(offer)
                &&& offer.filename == filename
                &&& offer.filename@.len() > 0
                &&& offer.filesize == filesize as i64
                &&& final(self).phase() == (SessionPhase::Receiving {
                    request,
                    filename,
                    filesize,
                    relay_hints,
                })
            },
    {
        match outcome {
            Err(detail) => Err(WormholeError::TransferFailed(detail)),
            Ok(None) => Err(WormholeError::Cancelled),
            Ok(Some((request, filename, filesize))) => {
                let offer = ReceiveOffer::new(filename.clone(), filesize);
                let _displaced = self.swap(
                    SessionPhase::Receiving { request, filename, filesize, relay_hints },
                );
                Ok(offer)
            },
        }
    }

    /// First step of accepting: takes the pending request together with the
    /// offer data and relay hints, failing with `NoActiveSession` when
    /// nothing is being received. Either way the phase is cleared.
    pub fn accept_transfer_begin(&mut self) -> (r: Result<
        (u64, String, u64, Vec<RelayHint>),
        WormholeError,
    >)
        ensures
            final(self).phase() == spec_accept_transfer_begin(old(self).phase()).0,
            r == spec_accept_transfer_begin(old(self).phase()).1,
    {
        let taken = self.swap(SessionPhase::Idle);
        match taken {
            SessionPhase::Receiving { request, filename, filesize, relay_hints } => Ok(
                (request, filename, filesize, relay_hints),
            ),
            _ => Err(WormholeError::NoActiveSession),
        }
    }

    /// First step of rejecting: takes the pending request, failing with
    /// `NoActiveSession` when nothing is being received. Either way the
    /// phase is cleared.
    pub fn reject_transfer_begin(&mut self) -> (r: Result<u64, WormholeError>)
        ensures
            final(self).phase() == spec_reject_transfer_begin(old(self).phase()).0,
            r == spec_reject_transfer_begin(old(self).phase()).1,
    {
        let taken = self.swap(SessionPhase::Idle);
        match taken {
            SessionPhase::Receiving { request, .. } => Ok(request),
            _ => Err(WormholeError::NoActiveSession),
        }
    }

    /// Unconditionally resets the session to `Idle`, discarding whatever
    /// resources were held. Does not interrupt work already in flight.
    pub fn cancel(&mut self)
        ensures
            final(self).phase() is Idle,
    {
        let _discarded = self.swap(SessionPhase::Idle);
    }
}

impl Default for WormholeClient {
    /// A fresh client with no active session.
    fn default() -> (c: Self)
        ensures
            c.phase() is Idle,
    {
        WormholeClient::new()
    }
}

/// Final step of a transfer, shared by send and accept: a streaming failure
/// is a `TransferFailed`; success synthesizes the one final progress sample
/// with `transferred == total`, which reports 100 percent whenever any bytes
/// were owed.
pub fn transfer_complete(total_size: u64, outcome: Result<(), String>) -> (r: Result<
    ProgressEvent,
    WormholeError,
>)
    requires
        total_size <= i64::MAX,
    ensures
        outcome matches Err(detail) ==> r == Err::<ProgressEvent, WormholeError>(
            WormholeError::TransferFailed(detail),
        ),
        outcome is Ok ==> {
            &&& r matches Ok(sample)
            &&& sample.transferred == total_size as i64
            &&& sample.total == total_size as i64
            &&& sample.percent == percent_of(total_size as int, total_size as int)
            &&& total_size > 0 ==> sample.percent == 100
        },
{
    match outcome {
        Ok(()) => {
            proof {
                if total_size > 0 {
                    crate::types::lemma_final_sample_is_complete(total_size as int);
                }
            }
            Ok(ProgressEvent::new(total_size, total_size))
        },
        Err(detail) => Err(WormholeError::TransferFailed(detail)),
    }
}

/// After code generation installs `MailboxReady`, exactly one send can
/// proceed: the first take yields the mailbox and leaves the session idle,
/// so a second take fails with `NoActiveSession`.
pub proof fn lemma_send_code_enables_one_send(
    mailbox: u64,
    relay_hints: Vec<RelayHint>,
    first_path: String,
    second_path: String,
)
    ensures
        ({
            let ready = SessionPhase::MailboxReady { mailbox, relay_hints };
            let (after_first, first) = spec_send_file_begin(ready, first_path, true);
            let (after_second, second) = spec_send_file_begin(after_first, second_path, true);
            &&& first == Ok::<(u64, Vec<RelayHint>), WormholeError>((mailbox, relay_hints))
            &&& after_first is Idle
            &&& second == Err::<(u64, Vec<RelayHint>), WormholeError>(
                WormholeError::NoActiveSession,
            )
            &&& after_second is Idle
        }),
{
}

/// From an idle session, sending an existing file, accepting and rejecting
/// all fail with `NoActiveSession`, yield no resources for any network
/// activity, and leave the session idle.
pub proof fn lemma_idle_rejects_operations(file_path: String)
    ensures
        spec_send_file_begin(SessionPhase::Idle, file_path, true) == (
            SessionPhase::Idle,
            Err::<(u64, Vec<RelayHint>), WormholeError>(WormholeError::NoActiveSession),
        ),
        spec_accept_transfer_begin(SessionPhase::Idle) == (
            SessionPhase::Idle,
            Err::<(u64, String, u64, Vec<RelayHint>), WormholeError>(
                WormholeError::NoActiveSession,
            ),
        ),
        spec_reject_transfer_begin(SessionPhase::Idle) == (
            SessionPhase::Idle,
            Err::<u64, WormholeError>(WormholeError::NoActiveSession),
        ),
{
}

/// Once a pending offer is taken for a reject, the session is idle, so a
/// subsequent accept fails with `NoActiveSession`: the request is consumed
/// at most once.
pub proof fn lemma_reject_then_accept(
    request: u64,
    filename: String,
    filesize: u64,
    relay_hints: Vec<RelayHint>,
)
    ensures
        ({
            let receiving = SessionPhase::Receiving { request, filename, filesize, relay_hints };
            let (after_reject, rejected) = spec_reject_transfer_begin(receiving);
            let (after_accept, accepted) = spec_accept_transfer_begin(after_reject);
            &&& rejected == Ok::<u64, WormholeError>(request)
            &&& after_reject is Idle
            &&& accepted == Err::<(u64, String, u64, Vec<RelayHint>), WormholeError>(
                WormholeError::NoActiveSession,
            )
            &&& after_accept is Idle
        }),
{
}

} // verus!
