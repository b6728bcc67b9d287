//! The session driver: one TLS session with one request and one response,
//! driven step by step.
//!
//! The session owns the engine and the two staging buffers. It never touches
//! the transport: each call ends where bytes must be read or written, says
//! so, and is told afterwards that it was done. Where bytes are to be
//! written, the caller gets a `Transmission` to complete.

use crate::buffer::{BufferModel, TlsBuffer};
use crate::engine::{
    dns_server_name, early_data_offered, encode_record, encrypt_app_data, encrypt_early_data,
    held_incoming, is_dns_name, may_encrypt_app_data, new_connection, next_record,
    pending_records, process_records, queue_close_notify, transmission_done, EarlyDataFailure,
    EncodeFailure, EncryptFailure, EngineState,
};
use crate::http::build_http_request;
use crate::progress::{
    add_discard, begin_iteration, early_data_due, may_begin, next_phase, phase_after,
    plan_traffic, settle_discard, traffic_plan, Action, Fault, Phase, Progress, ProgressModel,
    SessionError, StateKind, TrafficPlan,
};
use crate::retry::{
    settle_retry, try_or_resize_and_retry, RecordWriter, Recorded, WriteOutcome,
};
use rustls::client::{ClientConnectionData, UnbufferedClientConnection};
use rustls::unbuffered::{EncodeTlsData, ReadTraffic, TransmitTlsData, WriteTraffic};
use rustls::ClientConfig;
use std::sync::Arc;
use vstd::prelude::*;
use vstd::string::StringSliceAdditionalSpecFns;

verus! {

/// What a session is set up with.
pub struct Settings {
    /// Whether early data is meant to be sent.
    pub send_early_data: bool,
    /// The limit on the iteration count.
    pub max_iterations: usize,
    /// The early data.
    pub early_data: Vec<u8>,
}

/// What a session is, mathematically.
pub struct SessionModel {
    pub incoming: BufferModel,
    pub outgoing: BufferModel,
    pub send_early_data: bool,
    pub max_iterations: nat,
    pub early_data: Seq<u8>,
    pub request: Seq<u8>,
    pub progress: ProgressModel,
    /// The iterations that have begun: one for each state of the engine
    /// that was acted on.
    pub iter_count: nat,
    pub phase: Phase,
    /// The bytes to drop from the incoming buffer when the iteration ends.
    pub pending_discard: nat,
    /// The number of bytes to discard that was accepted last.
    pub last_discard: nat,
    /// The state that the engine reported last.
    pub last_state: Option<StateKind>,
    /// How often the engine was told that its records were sent.
    pub engine_told: nat,
}

impl SessionModel {
    pub open spec fn wf(self) -> bool {
        &&& self.incoming.wf()
        &&& self.outgoing.wf()
        &&& self.progress.wf()
        &&& self.iter_count <= self.max_iterations
        &&& self.pending_discard <= self.incoming.used
        &&& !self.phase.awaits_transport() ==> self.pending_discard == 0
    }

    /// The same session with other progress, buffers, counts and phase.
    pub open spec fn same_setup(self, other: SessionModel) -> bool {
        &&& self.send_early_data == other.send_early_data
        &&& self.max_iterations == other.max_iterations
        &&& self.early_data == other.early_data
        &&& self.request == other.request
    }

    /// The session after its iteration has ended: the pending bytes are
    /// dropped from the incoming buffer.
    pub open spec fn end_iteration(self, phase: Phase) -> SessionModel {
        SessionModel {
            incoming: self.incoming.discard(self.pending_discard),
            pending_discard: 0,
            phase,
            ..self
        }
    }

    /// The session after the outgoing bytes were written: the outgoing
    /// buffer is empty, and where the bytes were records of the engine, the
    /// engine has been told that they were sent. The iteration ends unless
    /// bytes are to be read next.
    pub open spec fn transmitted(self) -> SessionModel {
        let sent = SessionModel {
            outgoing: self.outgoing.clear(),
            engine_told: self.engine_told + (if self.phase is Transmit {
                1nat
            } else {
                0nat
            }),
            ..self
        };
        let next = self.phase.after_transmit();
        if next.awaits_transport() {
            SessionModel { phase: next, ..sent }
        } else {
            sent.end_iteration(next)
        }
    }

    /// The session after `n` bytes were read into the room of the incoming
    /// buffer.
    pub open spec fn received(self, n: nat) -> SessionModel {
        SessionModel { incoming: self.incoming.advance(n), ..self }.end_iteration(Phase::Ready)
    }
}

/// How the progress of a session may differ after an iteration in which the
/// engine reported `state`.
///
/// Records are taken in only on `ReadTraffic`, and then at least one.
/// Where records are staged for transmission, early data is encrypted at
/// most once, and only if it is meant to be sent and has not been; the
/// request is encrypted at most once, and only if it has not been.
/// Established traffic encrypts the request if it has not been. Nothing
/// else changes the progress.
pub open spec fn progress_step(
    state: StateKind,
    send_early_data: bool,
    before: ProgressModel,
    after: ProgressModel,
) -> bool {
    match state {
        StateKind::ReadTraffic => exists|records: Seq<Seq<u8>>|
            records.len() > 0 && (after, true) == #[trigger] before.with_records(records),
        StateKind::TransmitTlsData => {
            ||| after == before
            ||| !before.sent_request && after == before.with_request()
            ||| send_early_data && !before.sent_early_data && after == before.with_early_data()
            ||| send_early_data && !before.sent_early_data && !before.sent_request && after
                == before.with_early_data().with_request()
        },
        StateKind::WriteTraffic => after == (if before.sent_request {
            before
        } else {
            before.with_request()
        }),
        _ => after == before,
    }
}

/// Whether the driver writes into the outgoing buffer when the engine
/// reports `state`: to encode, to stage what is sent, and on established
/// traffic unless it only waits for the response.
pub open spec fn writes_outgoing(state: StateKind, sent_request: bool, received_response: bool)
    -> bool {
    match state {
        StateKind::EncodeTlsData | StateKind::TransmitTlsData => true,
        StateKind::WriteTraffic => !(traffic_plan(sent_request, received_response)
            is AwaitResponse),
        _ => false,
    }
}

/// The incoming buffer as an iteration leaves it in `phase`, after the
/// engine has seen `incoming` and `discard` bytes were accepted to be
/// dropped: where the iteration has ended they are dropped, where it waits
/// for the transport they are still there.
pub open spec fn discarded(incoming: BufferModel, phase: Phase, discard: nat) -> BufferModel {
    if phase.awaits_transport() {
        incoming
    } else {
        incoming.discard(discard)
    }
}

/// Whether `step` can have failed with `e` in an iteration that began with
/// `before` as the state reported last and ended with `after`.
pub open spec fn failure_fits(
    e: SessionError,
    before: Option<StateKind>,
    after: Option<StateKind>,
) -> bool {
    match e {
        SessionError::InvalidDnsName => false,
        SessionError::Rustls(_) => after == before || after == Some(StateKind::ReadTraffic),
        SessionError::Encode(_) => after == Some(StateKind::EncodeTlsData),
        SessionError::EarlyDataError(_) => after == Some(StateKind::TransmitTlsData),
        SessionError::EncryptError(_) => after == Some(StateKind::TransmitTlsData) || after
            == Some(StateKind::WriteTraffic),
        SessionError::Utf8Error => after == Some(StateKind::ReadTraffic),
        SessionError::Fault(fault) => match fault {
            Fault::IterationLimit => after == before,
            Fault::UnhandledState => after == Some(StateKind::Unhandled),
            Fault::DiscardOutOfRange => after is Some && after != Some(StateKind::Unhandled),
            _ => false,
        },
    }
}

/// What one iteration makes of a session: `after` is what `before` has
/// become when the iteration asks for the transport or has ended, and
/// `result` is what the caller is asked to do, or why the session failed.
///
/// The iteration is refused exactly where the limit is reached, and then
/// nothing changes but the phase; else it is counted. The phase follows
/// from the state that the engine reported, the progress changes as that
/// state allows, the bytes that were in use in the outgoing buffer stay,
/// and the bytes that the engine asked to discard are dropped from the
/// incoming buffer when the iteration ends.
pub open spec fn stepped(
    before: SessionModel,
    after: SessionModel,
    result: Result<Action, SessionError>,
) -> bool {
    &&& after.wf()
    &&& after.same_setup(before)
    &&& extended(before.outgoing, after.outgoing)
    &&& after.incoming.capacity() == before.incoming.capacity()
    &&& after.incoming.growable == before.incoming.growable
    &&& after.engine_told == before.engine_told
    &&& before.progress.sent_request ==> after.progress.sent_request
    &&& before.progress.received_response ==> after.progress.received_response
    &&& before.progress.sent_early_data ==> after.progress.sent_early_data
    &&& !may_begin(before.iter_count, before.max_iterations) ==> {
        &&& result == Err::<Action, SessionError>(SessionError::Fault(Fault::IterationLimit))
        &&& after == (SessionModel { phase: Phase::Failed, ..before })
    }
    &&& may_begin(before.iter_count, before.max_iterations) ==> {
        &&& result != Err::<Action, SessionError>(SessionError::Fault(Fault::IterationLimit))
        &&& after.iter_count == before.iter_count + 1
    }
    &&& match after.last_state {
        Some(state) => !writes_outgoing(
            state,
            before.progress.sent_request,
            before.progress.received_response,
        ) ==> after.outgoing == before.outgoing,
        None => after.outgoing == before.outgoing,
    }
    &&& after.last_state == Some(StateKind::Unhandled) && before.last_state != Some(
        StateKind::Unhandled,
    ) ==> result == Err::<Action, SessionError>(SessionError::Fault(Fault::UnhandledState))
    &&& match result {
        Ok(action) => {
            &&& after.last_state matches Some(state) && {
                &&& phase_after(
                    state,
                    before.progress.sent_request,
                    before.progress.received_response,
                ) == Some(after.phase)
                &&& progress_step(state, before.send_early_data, before.progress, after.progress)
                &&& state == StateKind::ReadTraffic ==> after.progress.records_observed
                    > before.progress.records_observed
            }
            &&& action == after.phase.action()
            &&& after.last_discard <= before.incoming.used
            &&& exists|left: Seq<u8>|
                {
                    &&& left.len() == before.incoming.used
                    &&& after.incoming == #[trigger] discarded(
                        before.incoming.with_filled(left),
                        after.phase,
                        after.last_discard,
                    )
                }
            &&& after.pending_discard == (if after.phase.awaits_transport() {
                after.last_discard
            } else {
                0nat
            })
        },
        Err(e) => {
            &&& after.phase == Phase::Failed
            &&& failure_fits(e, before.last_state, after.last_state)
        },
    }
}

/// `after` is the session `before`, one iteration later.
pub open spec fn one_iteration(before: SessionModel, after: SessionModel) -> bool {
    &&& may_begin(before.iter_count, before.max_iterations)
    &&& after.iter_count == before.iter_count + 1
    &&& after.max_iterations == before.max_iterations
}

/// The states of a session between its iterations, from a fresh one on.
pub open spec fn is_run(run: Seq<SessionModel>) -> bool {
    &&& run.len() > 0
    &&& run[0].iter_count == 0
    &&& forall|i: int| 0 <= i < run.len() - 1 ==> one_iteration(#[trigger] run[i], run[i + 1])
}

/// An iteration counts once, whichever way it takes: a call of `step` that
/// does not refuse leaves the session one iteration later, and so does the
/// report on the transport that it may ask for.
pub proof fn lemma_one_iteration(before: SessionModel, stepped: SessionModel, n: nat)
    requires
        may_begin(before.iter_count, before.max_iterations),
        stepped.max_iterations == before.max_iterations,
        stepped.iter_count == before.iter_count + 1,
    ensures
        one_iteration(before, stepped),
        one_iteration(before, stepped.received(n)),
        one_iteration(before, stepped.transmitted()),
        one_iteration(before, stepped.transmitted().received(n)),
{
}

/// No session runs on for ever: after `n` iterations the count is `n`, a
/// session never has more iterations than its limit, and the next iteration
/// is refused exactly when the limit has been reached.
pub proof fn lemma_iteration_bound(run: Seq<SessionModel>)
    requires
        is_run(run),
    ensures
        forall|i: int| 0 <= i < run.len() ==> (#[trigger] run[i]).iter_count == i,
        forall|i: int|
            0 <= i < run.len() ==> (#[trigger] run[i]).max_iterations == run[0].max_iterations,
        run.len() - 1 <= run[0].max_iterations,
        !may_begin(run.last().iter_count, run.last().max_iterations) <==> run.len() - 1
            == run[0].max_iterations,
    decreases run.len(),
{
    if run.len() > 1 {
        let shorter = run.drop_last();
        assert(is_run(shorter)) by {
            assert forall|i: int| 0 <= i < shorter.len() - 1 implies one_iteration(
                #[trigger] shorter[i],
                shorter[i + 1],
            ) by {
                assert(one_iteration(run[i], run[i + 1]));
            }
        }
        lemma_iteration_bound(shorter);
        let k = run.len() - 2;
        assert(one_iteration(run[k], run[k + 1]));
        assert(shorter[k] == run[k]);
        assert forall|i: int| 0 <= i < run.len() implies (#[trigger] run[i]).iter_count == i
            && run[i].max_iterations == run[0].max_iterations by {
            if i < run.len() - 1 {
                assert(shorter[i] == run[i]);
            }
        }
    }
}

/// Encodes the handshake record of an `EncodeTlsData` state.
struct EncodeOp<'s, 'c> {
    state: &'s mut EncodeTlsData<'c, ClientConnectionData>,
}

impl<'s, 'c> RecordWriter for EncodeOp<'s, 'c> {
    type Error = EncodeFailure;

    fn write_into(&mut self, dest: &mut [u8]) -> (r: WriteOutcome<EncodeFailure>) {
        encode_record(self.state, dest)
    }
}

/// Encrypts the early data of a session.
struct EarlyDataOp<'s, 'c, 'd> {
    state: &'s mut TransmitTlsData<'c, ClientConnectionData>,
    early_data: &'d [u8],
}

impl<'s, 'c, 'd> RecordWriter for EarlyDataOp<'s, 'c, 'd> {
    type Error = EarlyDataFailure;

    fn write_into(&mut self, dest: &mut [u8]) -> (r: WriteOutcome<EarlyDataFailure>) {
        encrypt_early_data(self.state, self.early_data, dest)
    }
}

/// Encrypts the close notification.
struct CloseNotifyOp<'s, 'c> {
    state: &'s mut WriteTraffic<'c, ClientConnectionData>,
}

impl<'s, 'c> RecordWriter for CloseNotifyOp<'s, 'c> {
    type Error = EncryptFailure;

    fn write_into(&mut self, dest: &mut [u8]) -> (r: WriteOutcome<EncryptFailure>) {
        queue_close_notify(self.state, dest)
    }
}

/// What holds of the outgoing buffer after anything was appended to it.
pub open spec fn extended(before: BufferModel, after: BufferModel) -> bool {
    &&& after.wf()
    &&& after.growable == before.growable
    &&& after.used >= before.used
    &&& after.filled().subrange(0, before.used as int) == before.filled()
}

/// A buffer to which nothing was appended is extended by nothing.
pub proof fn lemma_extended_by_nothing(buffer: BufferModel)
    requires
        buffer.wf(),
    ensures
        extended(buffer, buffer),
{
    assert(buffer.filled().subrange(0, buffer.used as int) =~= buffer.filled());
}

/// What was appended behind the bytes in use leaves them as they were.
pub proof fn lemma_extended_behind(before: BufferModel, after: BufferModel)
    requires
        before.wf(),
        after.wf(),
        after.growable == before.growable,
        after.used >= before.used,
        after.bytes.subrange(0, before.used as int) == before.filled(),
    ensures
        extended(before, after),
{
    assert(after.filled().subrange(0, before.used as int) =~= after.bytes.subrange(
        0,
        before.used as int,
    ));
}

/// Taking records in changes neither what was sent nor the invariant, and
/// never lowers the number of records seen.
pub proof fn lemma_with_records(progress: ProgressModel, records: Seq<Seq<u8>>)
    requires
        progress.wf(),
    ensures
        progress.with_records(records).0.wf(),
        progress.with_records(records).0.sent_request == progress.sent_request,
        progress.with_records(records).0.sent_early_data == progress.sent_early_data,
        progress.with_records(records).0.requests_encrypted == progress.requests_encrypted,
        progress.with_records(records).0.early_data_encrypted == progress.early_data_encrypted,
        progress.with_records(records).0.records_observed >= progress.records_observed,
        progress.with_records(records).1 ==> progress.with_records(records).0.records_observed
            == progress.records_observed + records.len(),
        progress.received_response ==> progress.with_records(records).0.received_response,
        progress.with_records(records).1 && records.len() > 0 ==> progress.with_records(
            records,
        ).0.received_response,
    decreases records.len(),
{
    if records.len() > 0 && ProgressModel::accepts(records[0]) {
        lemma_with_records(progress.with_record(records[0]), records.skip(1));
    }
}

/// Encrypts the request, unless it has been encrypted before. Says whether
/// it did.
pub fn encrypt_http_request(
    progress: &mut Progress,
    may_encrypt: &mut WriteTraffic<'_, ClientConnectionData>,
    request: &[u8],
    outgoing: &mut TlsBuffer<'_>,
) -> (r: Result<bool, SessionError>)
    requires
        old(progress).wf(),
        old(outgoing).wf(),
    ensures
        final(progress).wf(),
        extended(old(outgoing)@, final(outgoing)@),
        match r {
            Ok(encrypted) => {
                &&& encrypted == !old(progress)@.sent_request
                &&& final(progress)@ == (if encrypted {
                    old(progress)@.with_request()
                } else {
                    old(progress)@
                })
                &&& !encrypted ==> final(outgoing)@.used == old(outgoing)@.used
            },
            Err(e) => {
                &&& !old(progress)@.sent_request
                &&& e is EncryptError
                &&& final(progress)@ == old(progress)@
                &&& final(outgoing)@.used == old(outgoing)@.used
            },
        },
{
    let ghost before = outgoing@;
    if progress.sent_request() {
        proof {
            lemma_extended_by_nothing(before);
        }
        return Ok(false);
    }
    let outcome = encrypt_app_data(may_encrypt, request, outgoing.unfilled());
    let settled = settle_retry(outgoing, outcome);
    proof {
        lemma_extended_behind(before, outgoing@);
    }
    match settled {
        Ok(_) => {
            progress.note_request();
            Ok(true)
        },
        Err(failure) => Err(SessionError::EncryptError(failure)),
    }
}

/// Takes in all records that a `ReadTraffic` state holds; returns the number
/// of bytes to discard, to which each record adds what it reports.
fn drain_records(
    handle: &mut ReadTraffic<'_, '_, ClientConnectionData>,
    discard: usize,
    progress: &mut Progress,
) -> (r: Result<usize, SessionError>)
    requires
        old(progress).wf(),
    ensures
        final(progress).wf(),
        final(progress)@.sent_request == old(progress)@.sent_request,
        final(progress)@.sent_early_data == old(progress)@.sent_early_data,
        final(progress)@.requests_encrypted == old(progress)@.requests_encrypted,
        final(progress)@.early_data_encrypted == old(progress)@.early_data_encrypted,
        old(progress)@.received_response ==> final(progress)@.received_response,
        match r {
            Ok(total) => {
                &&& total == discard
                &&& (final(progress)@, true) == old(progress)@.with_records(
                    pending_records(old(handle)),
                )
            },
            Err(e) => e is Rustls || e is Utf8Error || e == SessionError::Fault(
                Fault::DiscardOutOfRange,
            ),
        },
{
    let mut total: usize = discard;
    let ghost all = pending_records(handle);
    loop
        invariant
            progress.wf(),
            total == discard,
            progress@.sent_request == old(progress)@.sent_request,
            progress@.sent_early_data == old(progress)@.sent_early_data,
            progress@.requests_encrypted == old(progress)@.requests_encrypted,
            progress@.early_data_encrypted == old(progress)@.early_data_encrypted,
            old(progress)@.received_response ==> progress@.received_response,
            old(progress)@.with_records(all) == progress@.with_records(pending_records(handle)),
        ensures
            (progress@, true) == old(progress)@.with_records(all),
        decreases pending_records(handle).len(),
    {
        match next_record(handle) {
            None => {
                break ;
            },
            Some(Err(e)) => {
                return Err(SessionError::Rustls(e));
            },
            Some(Ok((extra, payload))) => {
                total = match add_discard(total, extra) {
                    Ok(sum) => sum,
                    Err(fault) => {
                        return Err(SessionError::Fault(fault));
                    },
                };
                match progress.record_observed(payload.as_slice()) {
                    Ok(_) => {},
                    Err(e) => {
                        return Err(e);
                    },
                }
            },
        }
    }
    Ok(total)
}

/// Encodes the handshake record of an `EncodeTlsData` state into the
/// outgoing buffer, resizing it once if it must.
fn encode_handshake(
    mut handle: EncodeTlsData<'_, ClientConnectionData>,
    outgoing: &mut TlsBuffer<'_>,
) -> (r: Result<(), SessionError>)
    requires
        old(outgoing).wf(),
    ensures
        extended(old(outgoing)@, final(outgoing)@),
        r matches Err(e) ==> e is Encode,
{
    let mut op = Recorded::new(EncodeOp { state: &mut handle });
    match try_or_resize_and_retry(&mut op, outgoing) {
        Ok(_) => Ok(()),
        Err(failure) => Err(SessionError::Encode(failure)),
    }
}

/// Stages what a `TransmitTlsData` state sends besides the records of the
/// engine: the early data, if it is meant to be sent, has not been sent and
/// is offered now; the request, if application data may travel along and it
/// has not been sent. The engine is told nothing here: that waits until the
/// bytes are written.
fn prepare_transmit(
    handle: &mut TransmitTlsData<'_, ClientConnectionData>,
    settings: &Settings,
    request: &[u8],
    progress: &mut Progress,
    outgoing: &mut TlsBuffer<'_>,
) -> (r: Result<(), SessionError>)
    requires
        old(progress).wf(),
        old(outgoing).wf(),
    ensures
        final(progress).wf(),
        extended(old(outgoing)@, final(outgoing)@),
        progress_step(
            StateKind::TransmitTlsData,
            settings.send_early_data,
            old(progress)@,
            final(progress)@,
        ),
        r matches Err(e) ==> e is EarlyDataError || e is EncryptError,
{
    let ghost before = outgoing@;
    proof {
        lemma_extended_by_nothing(before);
    }
    let offered = early_data_offered(handle);
    if early_data_due(settings.send_early_data, progress.sent_early_data(), offered) {
        let mut op = Recorded::new(
            EarlyDataOp { state: handle, early_data: settings.early_data.as_slice() },
        );
        match try_or_resize_and_retry(&mut op, outgoing) {
            Ok(_) => {
                progress.note_early_data();
            },
            Err(failure) => {
                return Err(SessionError::EarlyDataError(failure));
            },
        }
    }
    let ghost between = outgoing@;
    proof {
        lemma_extended_by_nothing(between);
    }
    match may_encrypt_app_data(handle) {
        Some(mut may_encrypt) => {
            match encrypt_http_request(progress, &mut may_encrypt, request, outgoing) {
                Ok(_) => {},
                Err(e) => {
                    proof {
                        lemma_extended_twice(before, between, outgoing@);
                    }
                    return Err(e);
                },
            }
        },
        None => {},
    }
    proof {
        lemma_extended_twice(before, between, outgoing@);
    }
    Ok(())
}

/// Acts on established traffic: sends the request first, then waits for the
/// response, then closes.
fn write_traffic(
    mut handle: WriteTraffic<'_, ClientConnectionData>,
    request: &[u8],
    progress: &mut Progress,
    outgoing: &mut TlsBuffer<'_>,
) -> (r: Result<(), SessionError>)
    requires
        old(progress).wf(),
        old(outgoing).wf(),
    ensures
        final(progress).wf(),
        extended(old(outgoing)@, final(outgoing)@),
        match r {
            Ok(()) => progress_step(
                StateKind::WriteTraffic,
                false,
                old(progress)@,
                final(progress)@,
            ),
            Err(e) => e is EncryptError && final(progress)@ == old(progress)@,
        },
        traffic_plan(old(progress)@.sent_request, old(progress)@.received_response)
            is AwaitResponse ==> final(outgoing)@ == old(outgoing)@ && r is Ok,
{
    proof {
        lemma_extended_by_nothing(outgoing@);
    }
    match plan_traffic(progress.sent_request(), progress.received_response()) {
        TrafficPlan::SendRequest => {
            match encrypt_http_request(progress, &mut handle, request, outgoing) {
                Ok(_) => Ok(()),
                Err(e) => Err(e),
            }
        },
        TrafficPlan::AwaitResponse => Ok(()),
        TrafficPlan::Close => {
            let mut op = Recorded::new(CloseNotifyOp { state: &mut handle });
            match try_or_resize_and_retry(&mut op, outgoing) {
                Ok(_) => Ok(()),
                Err(failure) => Err(SessionError::EncryptError(failure)),
            }
        },
    }
}

/// Appending twice is appending.
pub proof fn lemma_extended_twice(first: BufferModel, second: BufferModel, third: BufferModel)
    requires
        first.wf(),
        extended(first, second),
        extended(second, third),
    ensures
        extended(first, third),
{
    assert(third.filled().subrange(0, first.used as int) =~= second.filled().subrange(
        0,
        first.used as int,
    ));
}

/// What a session keeps beside the engine: the two buffers, what it was set
/// up with, and where it stands.
pub struct Driver<'a> {
    incoming: TlsBuffer<'a>,
    outgoing: TlsBuffer<'a>,
    settings: Settings,
    request: Vec<u8>,
    progress: Progress,
    iter_count: usize,
    phase: Phase,
    pending_discard: usize,
    last_discard: usize,
    last_state: Option<StateKind>,
    engine_told: Ghost<nat>,
}

impl<'a> View for Driver<'a> {
    type V = SessionModel;

    closed spec fn view(&self) -> SessionModel {
        SessionModel {
            incoming: self.incoming@,
            outgoing: self.outgoing@,
            send_early_data: self.settings.send_early_data,
            max_iterations: self.settings.max_iterations as nat,
            early_data: self.settings.early_data@,
            request: self.request@,
            progress: self.progress@,
            iter_count: self.iter_count as nat,
            phase: self.phase,
            pending_discard: self.pending_discard as nat,
            last_discard: self.last_discard as nat,
            last_state: self.last_state,
            engine_told: self.engine_told@,
        }
    }
}

impl<'a> Driver<'a> {
    /// The invariant of the type.
    pub open spec fn wf(&self) -> bool {
        self@.wf()
    }

    /// Ends the iteration: drops the pending bytes from the incoming buffer.
    fn end_iteration(&mut self, phase: Phase)
        requires
            old(self).incoming.wf(),
            old(self).pending_discard <= old(self).incoming@.used,
        ensures
            final(self)@ == old(self)@.end_iteration(phase),
            final(self).incoming.wf(),
            final(self)@.incoming.capacity() == old(self)@.incoming.capacity(),
    {
        self.incoming.discard(self.pending_discard);
        self.pending_discard = 0;
        self.phase = phase;
    }

    /// Gives the session up after a failure.
    fn abandon(&mut self)
        ensures
            final(self)@ == (SessionModel {
                phase: Phase::Failed,
                pending_discard: 0,
                ..old(self)@
            }),
    {
        self.phase = Phase::Failed;
        self.pending_discard = 0;
    }
}

/// One TLS session with one request, driven step by step.
pub struct Session<'a> {
    conn: UnbufferedClientConnection,
    driver: Driver<'a>,
}

/// Bytes that wait to be written to the transport, and what it takes to go
/// on once they are: the session beside its engine, and, where the bytes
/// are records of the engine, the handle through which the engine is told
/// that they were sent.
pub struct Transmission<'s, 'a> {
    pub handle: Option<TransmitTlsData<'s, ClientConnectionData>>,
    pub driver: &'s mut Driver<'a>,
}

/// What an iteration asks of the caller.
pub enum Stepped<'s, 'a> {
    /// Nothing on the transport: run the next iteration.
    Continue,
    /// Read into the room of the incoming buffer, then report the count.
    Receive,
    /// Write all the bytes of the transmission, then complete it.
    Transmit(Transmission<'s, 'a>),
    /// The loop has ended: settle the session.
    Finished,
}

impl<'s, 'a> Stepped<'s, 'a> {
    /// The same as an action.
    pub open spec fn action(self) -> Action {
        match self {
            Stepped::Continue => Action::Continue,
            Stepped::Receive => Action::Receive,
            Stepped::Transmit(_) => Action::Transmit,
            Stepped::Finished => Action::Finished,
        }
    }

    /// What is asked of the caller, as an action.
    pub fn to_action(&self) -> (action: Action)
        ensures
            action == self.action(),
    {
        match self {
            Stepped::Continue => Action::Continue,
            Stepped::Receive => Action::Receive,
            Stepped::Transmit(_) => Action::Transmit,
            Stepped::Finished => Action::Finished,
        }
    }
}

impl<'s, 'a> Transmission<'s, 'a> {
    /// The session, beside its engine, as the transmission holds it.
    pub open spec fn session(&self) -> SessionModel {
        self.driver@
    }

    /// The session waits for its bytes to be written, and there is a handle
    /// exactly where they are records of the engine.
    pub open spec fn wf(&self) -> bool {
        &&& self.session().wf()
        &&& self.session().phase.awaits_transmit()
        &&& self.handle is Some <==> self.session().phase is Transmit
    }

    /// The bytes that are to be written to the transport.
    pub fn data(&self) -> (data: &[u8])
        requires
            self.wf(),
        ensures
            data@ == self.session().outgoing.filled(),
    {
        self.driver.outgoing.filled()
    }

    /// Completes the transmission once all its bytes were written to the
    /// transport. The outgoing buffer is emptied; where the bytes were
    /// records of the engine, the engine is told that they were sent; and
    /// the iteration ends, unless bytes are to be read next.
    pub fn done(self) -> (action: Action)
        requires
            self.wf(),
        ensures
            final(self.driver).wf(),
            final(self.driver)@ == self.session().transmitted(),
            action == final(self.driver)@.phase.action(),
    {
        let Transmission { handle, driver } = self;
        match handle {
            Some(handle) => {
                transmission_done(handle);
            },
            None => {},
        }
        driver.outgoing.clear();
        match driver.phase {
            Phase::TransmitThenReceive => {
                driver.phase = Phase::Receive;
            },
            Phase::TransmitThenClose => {
                driver.end_iteration(Phase::Closed);
            },
            _ => {
                driver.engine_told = Ghost((driver.engine_told@ + 1) as nat);
                driver.end_iteration(Phase::Ready);
            },
        }
        driver.phase.to_action()
    }
}

/// What is left of a session that ended well.
pub struct Completed<'a> {
    /// The incoming buffer, with what the engine has not consumed.
    pub incoming: TlsBuffer<'a>,
    /// The outgoing buffer.
    pub outgoing: TlsBuffer<'a>,
    /// What the session achieved.
    pub progress: Progress,
}

impl<'a> View for Session<'a> {
    type V = SessionModel;

    closed spec fn view(&self) -> SessionModel {
        self.driver@
    }
}

impl<'a> Session<'a> {
    /// Whether the incoming buffer still holds what the engine refers to in
    /// it: the bytes that are used, less those that wait to be dropped.
    pub closed spec fn engine_fits(&self) -> bool {
        held_incoming(&self.conn) + self.driver.pending_discard <= self.driver.incoming@.used
    }

    /// The invariant of the type.
    pub open spec fn wf(&self) -> bool {
        self@.wf() && self.engine_fits()
    }

    /// The model of a session that has not begun.
    pub open spec fn initial(
        incoming: BufferModel,
        outgoing: BufferModel,
        settings: Settings,
        request: Seq<u8>,
    ) -> SessionModel {
        SessionModel {
            incoming,
            outgoing,
            send_early_data: settings.send_early_data,
            max_iterations: settings.max_iterations as nat,
            early_data: settings.early_data@,
            request,
            progress: ProgressModel::initial(),
            iter_count: 0,
            phase: Phase::Ready,
            pending_discard: 0,
            last_discard: 0,
            last_state: None,
            engine_told: 0,
        }
    }

    /// A session on an engine that the caller has made. The incoming buffer
    /// must hold what the engine refers to from earlier calls: an engine
    /// that has not been used refers to nothing.
    pub fn new(
        conn: UnbufferedClientConnection,
        incoming: TlsBuffer<'a>,
        outgoing: TlsBuffer<'a>,
        settings: Settings,
        request: Vec<u8>,
    ) -> (r: Self)
        requires
            incoming.wf(),
            outgoing.wf(),
            held_incoming(&conn) <= incoming@.used,
        ensures
            r.wf(),
            r@ == Self::initial(incoming@, outgoing@, settings, request@),
    {
        Session {
            conn,
            driver: Driver {
                incoming,
                outgoing,
                settings,
                request,
                progress: Progress::new(),
                iter_count: 0,
                phase: Phase::Ready,
                pending_discard: 0,
                last_discard: 0,
                last_state: None,
                engine_told: Ghost(0),
            },
        }
    }

    /// A session with the server `host`, which is asked for its root
    /// document. A `host` that is no DNS name is refused; so is whatever the
    /// engine refuses.
    pub fn connect(
        config: Arc<ClientConfig>,
        host: &str,
        incoming: TlsBuffer<'a>,
        outgoing: TlsBuffer<'a>,
        settings: Settings,
    ) -> (r: Result<Self, SessionError>)
        requires
            incoming.wf(),
            outgoing.wf(),
        ensures
            match r {
                Ok(session) => {
                    &&& is_dns_name(host@)
                    &&& session.wf()
                    &&& session@ == Self::initial(
                        incoming@,
                        outgoing@,
                        settings,
                        crate::http::request_bytes(host.spec_bytes()),
                    )
                },
                Err(e) => if is_dns_name(host@) {
                    e is Rustls
                } else {
                    e is InvalidDnsName
                },
            },
    {
        let name = match dns_server_name(host) {
            Some(name) => name,
            None => {
                return Err(SessionError::InvalidDnsName);
            },
        };
        match new_connection(config, name) {
            Ok(conn) => Ok(Self::new(conn, incoming, outgoing, settings, build_http_request(host))),
            Err(e) => Err(SessionError::Rustls(e)),
        }
    }

    /// Where the session stands.
    pub fn phase(&self) -> (phase: Phase)
        ensures
            phase == self@.phase,
    {
        self.driver.phase
    }

    /// What the caller is to do next. A transmission that was dropped
    /// without being completed cannot be taken up again.
    pub fn action(&self) -> (action: Action)
        ensures
            action == self@.phase.action(),
    {
        self.driver.phase.to_action()
    }

    /// The number of iterations that have begun.
    pub fn iter_count(&self) -> (count: usize)
        ensures
            count == self@.iter_count,
    {
        self.driver.iter_count
    }

    /// The number of bytes to discard that was accepted last.
    pub fn last_discard(&self) -> (count: usize)
        ensures
            count == self@.last_discard,
    {
        self.driver.last_discard
    }

    /// The state that the engine reported last.
    pub fn last_state(&self) -> (state: Option<StateKind>)
        ensures
            state == self@.last_state,
    {
        self.driver.last_state
    }

    /// What the session has achieved.
    pub fn progress(&self) -> (progress: &Progress)
        ensures
            progress@ == self@.progress,
    {
        &self.driver.progress
    }

    /// The room into which bytes from the transport are to be read.
    pub fn receive_room(&mut self) -> (room: &mut [u8])
        requires
            old(self).wf(),
        ensures
            room@ == old(self)@.incoming.unfilled(),
            final(self)@ == (SessionModel {
                incoming: old(self)@.incoming.with_unfilled(final(room)@),
                ..old(self)@
            }),
            final(self)@.incoming.filled() == old(self)@.incoming.filled(),
            final(self).wf(),
    {
        self.driver.incoming.unfilled()
    }

    /// Runs one iteration up to the point where the transport is needed.
    ///
    /// The iteration is counted, or refused where the limit is reached. The
    /// engine looks at the filled bytes of the incoming buffer and reports a
    /// state and a number of bytes to discard. The driver acts on the state:
    /// it takes in the records, encodes the handshake record, stages what is
    /// to be sent, or decides what established traffic is used for. What
    /// `stepped` says of the session holds when the call returns. Where
    /// bytes are to be written, the session is handed on in a transmission
    /// and is what the transmission leaves; completed, it leaves a session
    /// that is well formed. A session that has failed is not stepped again.
    pub fn step<'s>(&'s mut self) -> (r: Result<Stepped<'s, 'a>, SessionError>)
        requires
            old(self).wf(),
            old(self)@.phase == Phase::Ready,
        ensures
            match r {
                Ok(Stepped::Transmit(transmission)) => {
                    &&& transmission.wf()
                    &&& stepped(old(self)@, transmission.session(), Ok(Action::Transmit))
                    &&& final(self)@ == final(transmission.driver)@
                    &&& final(transmission.driver)@ == transmission.session().transmitted()
                        ==> final(self).wf()
                },
                Ok(other) => final(self).wf() && stepped(
                    old(self)@,
                    final(self)@,
                    Ok(other.action()),
                ),
                Err(e) => stepped(old(self)@, final(self)@, Err(e)),
            },
    {
        let count = match begin_iteration(self.driver.iter_count, self.driver.settings.max_iterations) {
            Ok(count) => count,
            Err(fault) => {
                self.driver.phase = Phase::Failed;
                proof {
                    lemma_extended_by_nothing(self.driver.outgoing@);
                }
                return Err(SessionError::Fault(fault));
            },
        };
        self.driver.iter_count = count;
        let sent_request = self.driver.progress.sent_request();
        let received_response = self.driver.progress.received_response();
        let used = self.driver.incoming.used();
        let ghost before = self.driver@;
        proof {
            lemma_extended_by_nothing(before.outgoing);
        }
        let (discard, state) = process_records(&mut self.conn, self.driver.incoming.filled_mut());
        let state = match state {
            Ok(state) => state,
            Err(e) => {
                self.driver.abandon();
                return Err(SessionError::Rustls(e));
            },
        };
        let (state, handle, handled): (
            StateKind,
            Option<TransmitTlsData<'s, ClientConnectionData>>,
            Result<usize, SessionError>,
        ) = match state {
            EngineState::ReadTraffic(mut handle) => {
                proof {
                    lemma_with_records(before.progress, pending_records(&handle));
                }
                (
                    StateKind::ReadTraffic,
                    None,
                    drain_records(&mut handle, discard, &mut self.driver.progress),
                )
            },
            EngineState::EncodeTlsData(handle) => {
                match encode_handshake(handle, &mut self.driver.outgoing) {
                    Ok(()) => (StateKind::EncodeTlsData, None, Ok(discard)),
                    Err(e) => (StateKind::EncodeTlsData, None, Err(e)),
                }
            },
            EngineState::TransmitTlsData(mut handle) => {
                match prepare_transmit(
                    &mut handle,
                    &self.driver.settings,
                    self.driver.request.as_slice(),
                    &mut self.driver.progress,
                    &mut self.driver.outgoing,
                ) {
                    Ok(()) => (StateKind::TransmitTlsData, Some(handle), Ok(discard)),
                    Err(e) => (StateKind::TransmitTlsData, None, Err(e)),
                }
            },
            EngineState::BlockedHandshake => (StateKind::BlockedHandshake, None, Ok(discard)),
            EngineState::WriteTraffic(handle) => {
                match write_traffic(
                    handle,
                    self.driver.request.as_slice(),
                    &mut self.driver.progress,
                    &mut self.driver.outgoing,
                ) {
                    Ok(()) => (StateKind::WriteTraffic, None, Ok(discard)),
                    Err(e) => (StateKind::WriteTraffic, None, Err(e)),
                }
            },
            EngineState::PeerClosed => (StateKind::PeerClosed, None, Ok(discard)),
            EngineState::Closed => (StateKind::Closed, None, Ok(discard)),
            EngineState::Unhandled => (StateKind::Unhandled, None, Ok(discard)),
        };
        self.driver.last_state = Some(state);
        let ghost seen = self.driver.incoming@;
        assert(seen == before.incoming.with_filled(seen.filled())) by {
            assert(seen.bytes =~= seen.filled() + before.incoming.unfilled());
        }
        let total = match handled {
            Ok(total) => total,
            Err(e) => {
                self.driver.abandon();
                return Err(e);
            },
        };
        let phase = match next_phase(state, sent_request, received_response) {
            Ok(phase) => phase,
            Err(fault) => {
                self.driver.abandon();
                return Err(SessionError::Fault(fault));
            },
        };
        let accepted = match settle_discard(total, used) {
            Ok(accepted) => accepted,
            Err(fault) => {
                self.driver.abandon();
                return Err(SessionError::Fault(fault));
            },
        };
        self.driver.last_discard = accepted;
        self.driver.pending_discard = accepted;
        match phase {
            Phase::Ready => {
                self.driver.end_iteration(phase);
                assert(self.driver@.incoming == discarded(
                    before.incoming.with_filled(seen.filled()),
                    self.driver@.phase,
                    self.driver@.last_discard,
                ));
                Ok(Stepped::Continue)
            },
            Phase::Closed => {
                self.driver.end_iteration(phase);
                assert(self.driver@.incoming == discarded(
                    before.incoming.with_filled(seen.filled()),
                    self.driver@.phase,
                    self.driver@.last_discard,
                ));
                Ok(Stepped::Finished)
            },
            Phase::Receive => {
                self.driver.phase = phase;
                assert(self.driver@.incoming == discarded(
                    before.incoming.with_filled(seen.filled()),
                    self.driver@.phase,
                    self.driver@.last_discard,
                ));
                Ok(Stepped::Receive)
            },
            _ => {
                self.driver.phase = phase;
                assert(self.driver@.incoming == discarded(
                    before.incoming.with_filled(seen.filled()),
                    self.driver@.phase,
                    self.driver@.last_discard,
                ));
                Ok(Stepped::Transmit(Transmission { handle, driver: &mut self.driver }))
            },
        }
    }

    /// Reports that `n` bytes were read from the transport into the room of
    /// the incoming buffer. They count as filled, and the iteration ends.
    pub fn received(&mut self, n: usize) -> (action: Action)
        requires
            old(self).wf(),
            old(self)@.phase == Phase::Receive,
            n <= old(self)@.incoming.unfilled().len(),
        ensures
            final(self).wf(),
            final(self)@ == old(self)@.received(n as nat),
            action == Action::Continue,
    {
        self.driver.incoming.advance(n);
        self.driver.end_iteration(Phase::Ready);
        self.driver.phase.to_action()
    }

    /// Settles a session whose loop has ended: it went well if the request
    /// was sent, a response was seen, and early data was sent, once, exactly
    /// if it was meant to be. Otherwise the first of these that is not met
    /// is the fault.
    pub fn finish(self) -> (r: Result<Completed<'a>, SessionError>)
        requires
            self.wf(),
            self@.phase == Phase::Closed,
        ensures
            match r {
                Ok(completed) => {
                    &&& self@.progress.verdict(self@.send_early_data) is None
                    &&& completed.incoming@ == self@.incoming
                    &&& completed.outgoing@ == self@.outgoing
                    &&& completed.progress@ == self@.progress
                    &&& completed.progress@.requests_encrypted == 1
                    &&& completed.progress@.records_observed >= 1
                    &&& completed.progress@.sent_early_data == self@.send_early_data
                    &&& completed.progress@.early_data_encrypted == (if self@.send_early_data {
                        1nat
                    } else {
                        0nat
                    })
                },
                Err(e) => self@.progress.verdict(self@.send_early_data) matches Some(fault)
                    && e == SessionError::Fault(fault),
            },
    {
        match self.driver.progress.settle(self.driver.settings.send_early_data) {
            Ok(()) => Ok(
                Completed {
                    incoming: self.driver.incoming,
                    outgoing: self.driver.outgoing,
                    progress: self.driver.progress,
                },
            ),
            Err(fault) => Err(SessionError::Fault(fault)),
        }
    }
}

} // verus!
