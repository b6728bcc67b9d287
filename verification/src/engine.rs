//! The unbuffered TLS engine, as far as the session driver sees it.
//!
//! The engine is rustls. Nothing in this file is proved: each function below
//! makes one call into rustls (or std) and its contract is taken on trust
//! from the documentation and source of that call.

use crate::retry::WriteOutcome;
use rustls::client::{ClientConnectionData, EarlyDataError, UnbufferedClientConnection};
use rustls::pki_types::{DnsName, ServerName};
use rustls::unbuffered::{
    ConnectionState, EncodeError, EncodeTlsData, EncryptError, ReadTraffic, TransmitTlsData,
    UnbufferedStatus, WriteTraffic,
};
use rustls::ClientConfig;
use std::sync::Arc;
use vstd::prelude::*;

verus! {

#[verifier::external_type_specification]
#[verifier::external_body]
pub struct ExUnbufferedClientConnection(UnbufferedClientConnection);

#[verifier::external_type_specification]
#[verifier::external_body]
pub struct ExClientConnectionData(ClientConnectionData);

#[verifier::external_type_specification]
#[verifier::external_body]
pub struct ExClientConfig(ClientConfig);

#[verifier::external_type_specification]
#[verifier::external_body]
pub struct ExEngineError(rustls::Error);

#[verifier::external_type_specification]
#[verifier::external_body]
pub struct ExServerName<'a>(ServerName<'a>);

#[verifier::external_type_specification]
#[verifier::external_body]
#[verifier::reject_recursive_types(Data)]
pub struct ExReadTraffic<'c, 'i, Data>(ReadTraffic<'c, 'i, Data>);

#[verifier::external_type_specification]
#[verifier::external_body]
#[verifier::reject_recursive_types(Data)]
pub struct ExEncodeTlsData<'c, Data>(EncodeTlsData<'c, Data>);

#[verifier::external_type_specification]
#[verifier::external_body]
#[verifier::reject_recursive_types(Data)]
pub struct ExTransmitTlsData<'c, Data>(TransmitTlsData<'c, Data>);

#[verifier::external_type_specification]
#[verifier::external_body]
#[verifier::reject_recursive_types(Data)]
pub struct ExWriteTraffic<'c, Data>(WriteTraffic<'c, Data>);

/// What the engine reports after looking at the incoming bytes, each state
/// with the handle through which it is acted on.
pub(crate) enum EngineState<'c, 'i> {
    ReadTraffic(ReadTraffic<'c, 'i, ClientConnectionData>),
    PeerClosed,
    Closed,
    EncodeTlsData(EncodeTlsData<'c, ClientConnectionData>),
    TransmitTlsData(TransmitTlsData<'c, ClientConnectionData>),
    BlockedHandshake,
    WriteTraffic(WriteTraffic<'c, ClientConnectionData>),
    /// A state that this driver has no answer to.
    Unhandled,
}

/// Why a handshake record was not encoded, other than for want of room.
#[derive(Clone, Copy, Debug, PartialEq, Eq, Structural)]
pub enum EncodeFailure {
    /// The record has been encoded before.
    AlreadyEncoded,
}

/// Why data was not encrypted, other than for want of room.
#[derive(Clone, Copy, Debug, PartialEq, Eq, Structural)]
pub enum EncryptFailure {
    /// The encrypter has been used up.
    EncryptExhausted,
}

/// Why early data was not encrypted, other than for want of room.
#[derive(Clone, Copy, Debug, PartialEq, Eq, Structural)]
pub enum EarlyDataFailure {
    /// No more early data may be sent.
    ExceededAllowedEarlyData,
    /// The encryption failed.
    Encrypt(EncryptFailure),
    /// The engine does not, or no longer, offer to send early data.
    NotOffered,
}

/// Whether rustls takes `host` for a DNS name.
pub uninterp spec fn is_dns_name(host: Seq<char>) -> bool;

/// How many leading bytes of the incoming slice the engine still refers to
/// from earlier calls: the handshake data that it has located there and not
/// yet taken in. The count is taken on the slice as it is once the bytes
/// that the engine asked to discard are dropped.
pub uninterp spec fn held_incoming(conn: &UnbufferedClientConnection) -> nat;

/// The decrypted records that a `ReadTraffic` handle has yet to hand out,
/// the next one first.
pub uninterp spec fn pending_records(state: &ReadTraffic<'_, '_, ClientConnectionData>) -> Seq<
    Seq<u8>,
>;

/// `DnsName::try_from` on a string slice, made owned and wrapped as a
/// `ServerName`. There is a result exactly for the strings that rustls takes
/// for DNS names.
#[verifier::external_body]
pub(crate) fn dns_server_name(host: &str) -> (r: Option<ServerName<'static>>)
    ensures
        r is Some <==> is_dns_name(host@),
{
    match DnsName::try_from(host) {
        Ok(name) => Some(ServerName::DnsName(name.to_owned())),
        Err(_) => None,
    }
}

/// `UnbufferedClientConnection::new`. Whether a connection can be made
/// depends on the configuration, of which nothing is said here. A new
/// connection has seen no incoming bytes, so it refers to none.
#[verifier::external_body]
pub(crate) fn new_connection(config: Arc<ClientConfig>, name: ServerName<'static>) -> (r: Result<
    UnbufferedClientConnection,
    rustls::Error,
>)
    ensures
        r matches Ok(conn) ==> held_incoming(&conn) == 0,
{
    UnbufferedClientConnection::new(config, name)
}

/// `process_tls_records`. Successive calls are to be given one buffer, from
/// which exactly the bytes were dropped that the call before asked to
/// discard: the slice must hold what the engine still refers to. The engine
/// may rewrite the bytes in place; it cannot change how many there are.
/// Where it reports a state, what it asks to discard and what it refers to
/// afterwards lie within the slice, and it reports `ReadTraffic` only where
/// a record is pending. Which state comes back is not claimed, nor
/// anything of a call that fails.
#[verifier::external_body]
pub(crate) fn process_records<'c, 'i>(
    conn: &'c mut UnbufferedClientConnection,
    incoming: &'i mut [u8],
) -> (r: (usize, Result<EngineState<'c, 'i>, rustls::Error>))
    requires
        held_incoming(old(conn)) <= old(incoming)@.len(),
    ensures
        final(incoming)@.len() == old(incoming)@.len(),
        r.1 is Ok ==> held_incoming(final(conn)) + r.0 <= old(incoming)@.len(),
        r.1 matches Ok(EngineState::ReadTraffic(handle)) ==> pending_records(&handle).len() > 0,
{
    let UnbufferedStatus { discard, state } = conn.process_tls_records(incoming);
    let state = match state {
        Err(e) => return (discard, Err(e)),
        Ok(ConnectionState::ReadTraffic(s)) => EngineState::ReadTraffic(s),
        Ok(ConnectionState::PeerClosed) => EngineState::PeerClosed,
        Ok(ConnectionState::Closed) => EngineState::Closed,
        Ok(ConnectionState::EncodeTlsData(s)) => EngineState::EncodeTlsData(s),
        Ok(ConnectionState::TransmitTlsData(s)) => EngineState::TransmitTlsData(s),
        Ok(ConnectionState::BlockedHandshake) => EngineState::BlockedHandshake,
        Ok(ConnectionState::WriteTraffic(s)) => EngineState::WriteTraffic(s),
        Ok(_) => EngineState::Unhandled,
    };
    (discard, Ok(state))
}

/// `ReadTraffic::next_record`, the payload copied out. It takes the first
/// pending record off the queue and hands it out; there is none exactly when
/// the queue is empty. A record asks for no bytes to be discarded besides
/// those that the engine reported with the state.
#[verifier::external_body]
pub(crate) fn next_record(state: &mut ReadTraffic<'_, '_, ClientConnectionData>) -> (r: Option<
    Result<(usize, Vec<u8>), rustls::Error>,
>)
    ensures
        r is None <==> pending_records(old(state)).len() == 0,
        r is None ==> pending_records(final(state)) == pending_records(old(state)),
        r is Some ==> pending_records(final(state)) == pending_records(old(state)).skip(1),
        r matches Some(Ok(record)) ==> record.1@ == pending_records(old(state))[0] && record.0
            == 0,
{
    match state.next_record() {
        None => None,
        Some(Ok(record)) => Some(Ok((record.discard, record.payload.to_vec()))),
        Some(Err(e)) => Some(Err(e)),
    }
}

/// `EncodeTlsData::encode`. The count returned is a count of bytes written
/// into `dest`.
#[verifier::external_body]
pub(crate) fn encode_record(
    state: &mut EncodeTlsData<'_, ClientConnectionData>,
    dest: &mut [u8],
) -> (r: WriteOutcome<EncodeFailure>)
    ensures
        final(dest)@.len() == old(dest)@.len(),
        r matches WriteOutcome::Written(n) ==> n <= old(dest)@.len(),
{
    match state.encode(dest) {
        Ok(n) => WriteOutcome::Written(n),
        Err(EncodeError::InsufficientSize(e)) => WriteOutcome::NeedsMore(e.required_size),
        Err(EncodeError::AlreadyEncoded) => WriteOutcome::Failed(EncodeFailure::AlreadyEncoded),
    }
}

/// `TransmitTlsData::may_encrypt_early_data`: whether the engine offers to
/// send early data now.
#[verifier::external_body]
pub(crate) fn early_data_offered(state: &mut TransmitTlsData<'_, ClientConnectionData>) -> (r:
    bool) {
    state.may_encrypt_early_data().is_some()
}

/// `MayEncryptEarlyData::encrypt`, on the handle that
/// `may_encrypt_early_data` gives. The count returned is a count of bytes
/// written into `dest`.
#[verifier::external_body]
pub(crate) fn encrypt_early_data(
    state: &mut TransmitTlsData<'_, ClientConnectionData>,
    early_data: &[u8],
    dest: &mut [u8],
) -> (r: WriteOutcome<EarlyDataFailure>)
    ensures
        final(dest)@.len() == old(dest)@.len(),
        r matches WriteOutcome::Written(n) ==> n <= old(dest)@.len(),
{
    let Some(mut handle) = state.may_encrypt_early_data() else {
        return WriteOutcome::Failed(EarlyDataFailure::NotOffered);
    };
    match handle.encrypt(early_data, dest) {
        Ok(n) => WriteOutcome::Written(n),
        Err(EarlyDataError::Encrypt(EncryptError::InsufficientSize(e))) => WriteOutcome::NeedsMore(
            e.required_size,
        ),
        Err(EarlyDataError::Encrypt(EncryptError::EncryptExhausted)) => WriteOutcome::Failed(
            EarlyDataFailure::Encrypt(EncryptFailure::EncryptExhausted),
        ),
        Err(EarlyDataError::ExceededAllowedEarlyData) => WriteOutcome::Failed(
            EarlyDataFailure::ExceededAllowedEarlyData,
        ),
    }
}

/// `TransmitTlsData::may_encrypt_app_data`: the handle for application data,
/// where the engine lets it travel with the handshake.
#[verifier::external_body]
pub(crate) fn may_encrypt_app_data<'s>(
    state: &'s mut TransmitTlsData<'_, ClientConnectionData>,
) -> (r: Option<WriteTraffic<'s, ClientConnectionData>>) {
    state.may_encrypt_app_data()
}

/// `TransmitTlsData::done`.
#[verifier::external_body]
pub(crate) fn transmission_done(state: TransmitTlsData<'_, ClientConnectionData>) {
    state.done()
}

/// `WriteTraffic::encrypt`. The count returned is a count of bytes written
/// into `dest`.
#[verifier::external_body]
pub(crate) fn encrypt_app_data(
    state: &mut WriteTraffic<'_, ClientConnectionData>,
    application_data: &[u8],
    dest: &mut [u8],
) -> (r: WriteOutcome<EncryptFailure>)
    ensures
        final(dest)@.len() == old(dest)@.len(),
        r matches WriteOutcome::Written(n) ==> n <= old(dest)@.len(),
{
    match state.encrypt(application_data, dest) {
        Ok(n) => WriteOutcome::Written(n),
        Err(EncryptError::InsufficientSize(e)) => WriteOutcome::NeedsMore(e.required_size),
        Err(EncryptError::EncryptExhausted) => WriteOutcome::Failed(
            EncryptFailure::EncryptExhausted,
        ),
    }
}

/// `WriteTraffic::queue_close_notify`. The count returned is a count of
/// bytes written into `dest`.
#[verifier::external_body]
pub(crate) fn queue_close_notify(
    state: &mut WriteTraffic<'_, ClientConnectionData>,
    dest: &mut [u8],
) -> (r: WriteOutcome<EncryptFailure>)
    ensures
        final(dest)@.len() == old(dest)@.len(),
        r matches WriteOutcome::Written(n) ==> n <= old(dest)@.len(),
{
    match state.queue_close_notify(dest) {
        Ok(n) => WriteOutcome::Written(n),
        Err(EncryptError::InsufficientSize(e)) => WriteOutcome::NeedsMore(e.required_size),
        Err(EncryptError::EncryptExhausted) => WriteOutcome::Failed(
            EncryptFailure::EncryptExhausted,
        ),
    }
}

/// `core::str::from_utf8`: whether the bytes are well-formed UTF-8.
#[verifier::external_body]
pub(crate) fn is_utf8(bytes: &[u8]) -> (r: bool)
    ensures
        r == vstd::utf8::valid_utf8(bytes@),
{
    core::str::from_utf8(bytes).is_ok()
}

} // verus!
