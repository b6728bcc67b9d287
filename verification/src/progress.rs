//! What a session has achieved so far, and the decisions that depend on
//! nothing else.

use crate::engine::{is_utf8, EarlyDataFailure, EncodeFailure, EncryptFailure};
use crate::http::{classify, first_line, first_line_of, record_kind, RecordKind};
use crate::retry::WriteFailure;
use vstd::prelude::*;
use vstd::utf8::valid_utf8;

verus! {

/// A condition that only a mistake in driving the protocol can bring about.
/// It ends the session; it is no failure of the peer or of the transport.
#[derive(Clone, Copy, Debug, PartialEq, Eq, Structural)]
pub enum Fault {
    /// The session took more iterations than it was given.
    IterationLimit,
    /// The session ended without having sent its request.
    RequestNotSent,
    /// The session ended without having seen a response.
    ResponseNotReceived,
    /// Early data was sent though not intended, or intended and not sent.
    EarlyDataMismatch,
    /// The engine reported a state that this driver has no answer to.
    UnhandledState,
    /// The engine asked to discard more bytes than the incoming buffer holds.
    DiscardOutOfRange,
}

/// Why a session failed.
#[derive(Debug)]
pub enum SessionError {
    /// The server name is no DNS name.
    InvalidDnsName,
    /// The engine refused the connection or the records it was given.
    Rustls(rustls::Error),
    /// A handshake record could not be encoded, even after the retry.
    Encode(WriteFailure<EncodeFailure>),
    /// Application data or the close notification could not be encrypted.
    EncryptError(WriteFailure<EncryptFailure>),
    /// Early data could not be encrypted, even after the retry.
    EarlyDataError(WriteFailure<EarlyDataFailure>),
    /// A record that starts a response is not UTF-8.
    Utf8Error,
    /// The protocol was driven wrongly.
    Fault(Fault),
}

/// The states of the engine, without the handles that come with them.
#[derive(Clone, Copy, Debug, PartialEq, Eq, Structural)]
pub enum StateKind {
    /// Decrypted application records are ready.
    ReadTraffic,
    /// The peer has closed the connection.
    PeerClosed,
    /// Both sides have closed the connection.
    Closed,
    /// A handshake record waits to be encoded.
    EncodeTlsData,
    /// Encoded records wait to be sent.
    TransmitTlsData,
    /// The engine needs more bytes from the peer.
    BlockedHandshake,
    /// The handshake is done: application data may be written.
    WriteTraffic,
    /// Any other state.
    Unhandled,
}

/// What to do once traffic is established.
#[derive(Clone, Copy, Debug, PartialEq, Eq, Structural)]
pub enum TrafficPlan {
    /// Encrypt the request, send it, and read.
    SendRequest,
    /// The request is out: read more.
    AwaitResponse,
    /// Request sent and response seen: send the close notification.
    Close,
}

/// Where a session stands between two calls.
#[derive(Clone, Copy, Debug, PartialEq, Eq, Structural)]
pub enum Phase {
    /// Ready for the next iteration.
    Ready,
    /// Records of the engine must be sent, and the engine told that they
    /// were; the iteration then ends.
    Transmit,
    /// The outgoing bytes must be sent, and bytes read after that.
    TransmitThenReceive,
    /// The outgoing bytes must be sent; the session then closes.
    TransmitThenClose,
    /// Bytes must be read into the incoming buffer; the iteration then ends.
    Receive,
    /// The loop has ended.
    Closed,
    /// The session has failed.
    Failed,
}

/// What the caller does next for the session.
#[derive(Clone, Copy, Debug, PartialEq, Eq, Structural)]
pub enum Action {
    /// Nothing on the transport: run the next iteration.
    Continue,
    /// Write all filled bytes of the outgoing buffer, then complete the
    /// transmission.
    Transmit,
    /// Read into the room of the incoming buffer, then report the count.
    Receive,
    /// The loop has ended: settle the session.
    Finished,
    /// The session has failed: there is nothing more to do.
    Abandon,
}

impl Phase {
    /// Whether the session waits for the transport in this phase.
    pub open spec fn awaits_transport(self) -> bool {
        self is Transmit || self is TransmitThenReceive || self is TransmitThenClose
            || self is Receive
    }

    /// Whether the outgoing bytes are to be sent in this phase.
    pub open spec fn awaits_transmit(self) -> bool {
        self is Transmit || self is TransmitThenReceive || self is TransmitThenClose
    }

    /// What the caller is asked to do in this phase.
    pub open spec fn action(self) -> Action {
        match self {
            Phase::Ready => Action::Continue,
            Phase::Transmit | Phase::TransmitThenReceive | Phase::TransmitThenClose =>
                Action::Transmit,
            Phase::Receive => Action::Receive,
            Phase::Closed => Action::Finished,
            Phase::Failed => Action::Abandon,
        }
    }

    /// The phase that follows a completed transmission.
    pub open spec fn after_transmit(self) -> Phase {
        match self {
            Phase::Transmit => Phase::Ready,
            Phase::TransmitThenReceive => Phase::Receive,
            Phase::TransmitThenClose => Phase::Closed,
            other => other,
        }
    }

    /// The action that this phase asks for.
    pub fn to_action(self) -> (a: Action)
        ensures
            a == self.action(),
    {
        match self {
            Phase::Ready => Action::Continue,
            Phase::Transmit | Phase::TransmitThenReceive | Phase::TransmitThenClose =>
                Action::Transmit,
            Phase::Receive => Action::Receive,
            Phase::Closed => Action::Finished,
            Phase::Failed => Action::Abandon,
        }
    }
}

/// The plan for established traffic: first the request, then the response,
/// then the close.
pub open spec fn traffic_plan(sent_request: bool, received_response: bool) -> TrafficPlan {
    if !sent_request {
        TrafficPlan::SendRequest
    } else if !received_response {
        TrafficPlan::AwaitResponse
    } else {
        TrafficPlan::Close
    }
}

/// Decides what to do once traffic is established.
pub fn plan_traffic(sent_request: bool, received_response: bool) -> (plan: TrafficPlan)
    ensures
        plan == traffic_plan(sent_request, received_response),
{
    if !sent_request {
        TrafficPlan::SendRequest
    } else if !received_response {
        TrafficPlan::AwaitResponse
    } else {
        TrafficPlan::Close
    }
}

/// The phase in which an iteration leaves the session, given the state that
/// the engine reported and what had been achieved when it did. There is
/// none for a state that the driver has no answer to.
pub open spec fn phase_after(state: StateKind, sent_request: bool, received_response: bool)
    -> Option<Phase> {
    match state {
        StateKind::ReadTraffic => Some(Phase::Ready),
        StateKind::EncodeTlsData => Some(Phase::Ready),
        StateKind::TransmitTlsData => Some(Phase::Transmit),
        StateKind::BlockedHandshake => Some(Phase::Receive),
        StateKind::WriteTraffic => Some(
            match traffic_plan(sent_request, received_response) {
                TrafficPlan::SendRequest => Phase::TransmitThenReceive,
                TrafficPlan::AwaitResponse => Phase::Receive,
                TrafficPlan::Close => Phase::TransmitThenClose,
            },
        ),
        StateKind::PeerClosed | StateKind::Closed => Some(Phase::Closed),
        StateKind::Unhandled => None,
    }
}

/// Decides in which phase an iteration ends. A state without an answer is
/// a fault.
pub fn next_phase(state: StateKind, sent_request: bool, received_response: bool) -> (r: Result<
    Phase,
    Fault,
>)
    ensures
        match phase_after(state, sent_request, received_response) {
            Some(phase) => r == Ok::<Phase, Fault>(phase),
            None => r == Err::<Phase, Fault>(Fault::UnhandledState),
        },
{
    match state {
        StateKind::ReadTraffic | StateKind::EncodeTlsData => Ok(Phase::Ready),
        StateKind::TransmitTlsData => Ok(Phase::Transmit),
        StateKind::BlockedHandshake => Ok(Phase::Receive),
        StateKind::WriteTraffic => match plan_traffic(sent_request, received_response) {
            TrafficPlan::SendRequest => Ok(Phase::TransmitThenReceive),
            TrafficPlan::AwaitResponse => Ok(Phase::Receive),
            TrafficPlan::Close => Ok(Phase::TransmitThenClose),
        },
        StateKind::PeerClosed | StateKind::Closed => Ok(Phase::Closed),
        StateKind::Unhandled => Err(Fault::UnhandledState),
    }
}

/// Whether an iteration may begin when `iter_count` iterations have begun
/// before it: with it, there must not be more than the limit allows.
pub open spec fn may_begin(iter_count: nat, max_iterations: nat) -> bool {
    iter_count + 1 <= max_iterations
}

/// Counts the begin of an iteration, or refuses it.
pub fn begin_iteration(iter_count: usize, max_iterations: usize) -> (r: Result<usize, Fault>)
    ensures
        match r {
            Ok(count) => may_begin(iter_count as nat, max_iterations as nat) && count
                == iter_count + 1,
            Err(fault) => !may_begin(iter_count as nat, max_iterations as nat) && fault
                == Fault::IterationLimit,
        },
{
    if iter_count < max_iterations {
        Ok(iter_count + 1)
    } else {
        Err(Fault::IterationLimit)
    }
}

/// The number of bytes to discard after `extra` more were reported, if it
/// can be held.
pub open spec fn discard_sum(total: nat, extra: nat) -> Result<usize, Fault> {
    if total + extra <= usize::MAX {
        Ok((total + extra) as usize)
    } else {
        Err(Fault::DiscardOutOfRange)
    }
}

/// Adds what a record reports to the number of bytes to discard.
pub fn add_discard(total: usize, extra: usize) -> (r: Result<usize, Fault>)
    ensures
        r == discard_sum(total as nat, extra as nat),
{
    if extra > usize::MAX - total {
        Err(Fault::DiscardOutOfRange)
    } else {
        Ok(total + extra)
    }
}

/// The number of bytes to discard that is accepted where the engine reports
/// `reported` and the incoming buffer holds `used`: no more than it holds.
pub open spec fn accepted_discard(reported: nat, used: nat) -> Result<usize, Fault> {
    if reported <= used {
        Ok(reported as usize)
    } else {
        Err(Fault::DiscardOutOfRange)
    }
}

/// Accepts the number of bytes that the engine asks to discard, or refuses
/// it as a fault.
pub fn settle_discard(reported: usize, used: usize) -> (r: Result<usize, Fault>)
    ensures
        r == accepted_discard(reported as nat, used as nat),
{
    if reported <= used {
        Ok(reported)
    } else {
        Err(Fault::DiscardOutOfRange)
    }
}

/// Whether early data is to be encrypted now: it is meant to be sent, has
/// not been sent, and the engine offers to send it.
pub open spec fn early_data_is_due(intended: bool, sent: bool, offered: bool) -> bool {
    intended && !sent && offered
}

/// Decides whether early data is encrypted now.
pub fn early_data_due(intended: bool, sent: bool, offered: bool) -> (due: bool)
    ensures
        due == early_data_is_due(intended, sent, offered),
{
    intended && !sent && offered
}

/// What a session has achieved: the flags, and what they stand for.
pub struct ProgressModel {
    /// The request has been encrypted.
    pub sent_request: bool,
    /// A record of the response has been seen.
    pub received_response: bool,
    /// Early data has been encrypted.
    pub sent_early_data: bool,
    /// How often the request has been encrypted.
    pub requests_encrypted: nat,
    /// How often early data has been encrypted.
    pub early_data_encrypted: nat,
    /// How many decrypted records have been taken in.
    pub records_observed: nat,
    /// The first line of the record that last started a response.
    pub status_line: Option<Seq<u8>>,
}

impl ProgressModel {
    /// The flags say what the counts say.
    pub open spec fn wf(self) -> bool {
        &&& self.requests_encrypted == (if self.sent_request {
            1nat
        } else {
            0nat
        })
        &&& self.early_data_encrypted == (if self.sent_early_data {
            1nat
        } else {
            0nat
        })
        &&& self.received_response <==> self.records_observed > 0
    }

    /// Nothing achieved yet.
    pub open spec fn initial() -> ProgressModel {
        ProgressModel {
            sent_request: false,
            received_response: false,
            sent_early_data: false,
            requests_encrypted: 0,
            early_data_encrypted: 0,
            records_observed: 0,
            status_line: None,
        }
    }

    /// After the request was encrypted.
    pub open spec fn with_request(self) -> ProgressModel {
        ProgressModel {
            sent_request: true,
            requests_encrypted: self.requests_encrypted + 1,
            ..self
        }
    }

    /// After early data was encrypted.
    pub open spec fn with_early_data(self) -> ProgressModel {
        ProgressModel {
            sent_early_data: true,
            early_data_encrypted: self.early_data_encrypted + 1,
            ..self
        }
    }

    /// Whether the record can be taken in: one that starts a response must
    /// be UTF-8.
    pub open spec fn accepts(payload: Seq<u8>) -> bool {
        record_kind(payload) == RecordKind::ResponseStart ==> valid_utf8(payload)
    }

    /// After one decrypted record was taken in. A record that starts a
    /// response leaves its first line; any other goes on with the response
    /// before it.
    pub open spec fn with_record(self, payload: Seq<u8>) -> ProgressModel {
        ProgressModel {
            received_response: true,
            records_observed: self.records_observed + 1,
            status_line: if record_kind(payload) == RecordKind::ResponseStart {
                Some(first_line_of(payload))
            } else {
                self.status_line
            },
            ..self
        }
    }

    /// After the records were taken in, one after the other, as far as they
    /// can be: the progress, and whether all of them were accepted.
    pub open spec fn with_records(self, records: Seq<Seq<u8>>) -> (ProgressModel, bool)
        decreases records.len(),
    {
        if records.len() == 0 {
            (self, true)
        } else if !Self::accepts(records[0]) {
            (self, false)
        } else {
            self.with_record(records[0]).with_records(records.skip(1))
        }
    }

    /// The verdict on a session that has ended with this progress, where
    /// `send_early_data` says whether early data was meant to be sent.
    pub open spec fn verdict(self, send_early_data: bool) -> Option<Fault> {
        if !self.sent_request {
            Some(Fault::RequestNotSent)
        } else if !self.received_response {
            Some(Fault::ResponseNotReceived)
        } else if self.sent_early_data != send_early_data {
            Some(Fault::EarlyDataMismatch)
        } else {
            None
        }
    }
}

/// What a session has achieved so far.
pub struct Progress {
    sent_request: bool,
    received_response: bool,
    sent_early_data: bool,
    status_line: Option<Vec<u8>>,
    requests_encrypted: Ghost<nat>,
    early_data_encrypted: Ghost<nat>,
    records_observed: Ghost<nat>,
}

impl View for Progress {
    type V = ProgressModel;

    closed spec fn view(&self) -> ProgressModel {
        ProgressModel {
            sent_request: self.sent_request,
            received_response: self.received_response,
            sent_early_data: self.sent_early_data,
            requests_encrypted: self.requests_encrypted@,
            early_data_encrypted: self.early_data_encrypted@,
            records_observed: self.records_observed@,
            status_line: match self.status_line {
                Some(line) => Some(line@),
                None => None,
            },
        }
    }
}

impl Progress {
    /// The invariant of the type.
    pub open spec fn wf(&self) -> bool {
        self@.wf()
    }

    /// Nothing achieved yet.
    pub fn new() -> (r: Self)
        ensures
            r.wf(),
            r@ == ProgressModel::initial(),
    {
        Progress {
            sent_request: false,
            received_response: false,
            sent_early_data: false,
            status_line: None,
            requests_encrypted: Ghost(0),
            early_data_encrypted: Ghost(0),
            records_observed: Ghost(0),
        }
    }

    /// Whether the request has been encrypted.
    pub fn sent_request(&self) -> (b: bool)
        ensures
            b == self@.sent_request,
    {
        self.sent_request
    }

    /// Whether a record of the response has been seen.
    pub fn received_response(&self) -> (b: bool)
        ensures
            b == self@.received_response,
    {
        self.received_response
    }

    /// Whether early data has been encrypted.
    pub fn sent_early_data(&self) -> (b: bool)
        ensures
            b == self@.sent_early_data,
    {
        self.sent_early_data
    }

    /// The first line of the record that last started a response.
    pub fn status_line(&self) -> (line: Option<&[u8]>)
        ensures
            match line {
                Some(bytes) => self@.status_line == Some(bytes@),
                None => self@.status_line is None,
            },
    {
        match &self.status_line {
            Some(line) => Some(line.as_slice()),
            None => None,
        }
    }

    /// Notes that the request has just been encrypted.
    pub(crate) fn note_request(&mut self)
        requires
            old(self).wf(),
            !old(self)@.sent_request,
        ensures
            final(self).wf(),
            final(self)@ == old(self)@.with_request(),
    {
        self.sent_request = true;
        self.requests_encrypted = Ghost((self.requests_encrypted@ + 1) as nat);
    }

    /// Notes that early data has just been encrypted.
    pub(crate) fn note_early_data(&mut self)
        requires
            old(self).wf(),
            !old(self)@.sent_early_data,
        ensures
            final(self).wf(),
            final(self)@ == old(self)@.with_early_data(),
    {
        self.sent_early_data = true;
        self.early_data_encrypted = Ghost((self.early_data_encrypted@ + 1) as nat);
    }

    /// Takes in one decrypted record. One that starts a response must be
    /// UTF-8 and leaves its first line; on one that is not, nothing changes.
    pub fn record_observed(&mut self, payload: &[u8]) -> (r: Result<RecordKind, SessionError>)
        requires
            old(self).wf(),
        ensures
            final(self).wf(),
            match r {
                Ok(kind) => {
                    &&& ProgressModel::accepts(payload@)
                    &&& kind == record_kind(payload@)
                    &&& final(self)@ == old(self)@.with_record(payload@)
                },
                Err(e) => {
                    &&& !ProgressModel::accepts(payload@)
                    &&& e is Utf8Error
                    &&& final(self)@ == old(self)@
                },
            },
    {
        let kind = classify(payload);
        match kind {
            RecordKind::ResponseStart => {
                if !is_utf8(payload) {
                    return Err(SessionError::Utf8Error);
                }
                let line = first_line(payload);
                self.status_line = Some(vstd::slice::slice_to_vec(line));
            },
            RecordKind::Continuation => {},
        }
        self.received_response = true;
        self.records_observed = Ghost((self.records_observed@ + 1) as nat);
        Ok(kind)
    }

    /// The verdict on a session that ends with this progress: the first of
    /// the three conditions that is not met, if any.
    pub fn settle(&self, send_early_data: bool) -> (r: Result<(), Fault>)
        requires
            self.wf(),
        ensures
            match self@.verdict(send_early_data) {
                Some(fault) => r == Err::<(), Fault>(fault),
                None => r == Ok::<(), Fault>(()),
            },
    {
        if !self.sent_request {
            Err(Fault::RequestNotSent)
        } else if !self.received_response {
            Err(Fault::ResponseNotReceived)
        } else if self.sent_early_data != send_early_data {
            Err(Fault::EarlyDataMismatch)
        } else {
            Ok(())
        }
    }
}

/// A session that passes its verdict has encrypted exactly one request, has
/// seen at least one record of a response, and has encrypted early data
/// once if it was meant to be sent, and never if it was not.
pub proof fn lemma_settled_session(progress: ProgressModel, send_early_data: bool)
    requires
        progress.wf(),
        progress.verdict(send_early_data) is None,
    ensures
        progress.requests_encrypted == 1,
        progress.records_observed >= 1,
        progress.sent_early_data == send_early_data,
        progress.early_data_encrypted == (if send_early_data {
            1nat
        } else {
            0nat
        }),
{
}

} // verus!
