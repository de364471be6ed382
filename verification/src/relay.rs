//! Session relay: the per-connection state machine that binds a connection
//! to a trusted-application identity, bounds the untrusted payload length
//! carried by a packet header, and prepares each request for forwarding to
//! the matching local endpoint.

use vstd::prelude::*;
use vstd::bytes::{
    lemma_auto_spec_u32_to_from_le_bytes, spec_u32_from_le_bytes, spec_u32_to_le_bytes,
    u32_from_le_bytes, u32_to_le_bytes,
};
use vstd::slice::slice_to_vec;
use vstd::string::StringExecFns;

use crate::packet::PacketHeader;

verus! {

/// Hard upper bound, in bytes, on the payload length a packet header may
/// announce. The length field is attacker-controlled, and it drives the
/// allocation of the receive buffer: anything above this bound is rejected
/// before any allocation happens.
pub const MAX_PAYLOAD_SIZE: u64 = 1048576;

/// A decoded request arriving on the encrypted stream, reduced to what the
/// relay branches on: only `OpenSession` names a trusted application; every
/// other kind relies on the identity the connection is already bound to.
/// The raw encoded record travels separately and is forwarded opaquely.
#[derive(Debug, Clone, PartialEq, Eq)]
pub enum TeeRequest {
    OpenSession { uuid: String },
    CloseSession,
    InvokeCommand,
    RequestCancellation,
}

/// Why the relay refuses a request.
#[derive(Debug, Clone, Copy, PartialEq, Eq, Structural)]
pub enum RelayError {
    /// The header announced a payload larger than `MAX_PAYLOAD_SIZE`.
    PayloadTooLarge,
    /// A request that names no trusted application arrived on a connection
    /// that no `OpenSession` has bound yet.
    MissingSession,
}

/// Per-connection session state: the trusted-application identity the
/// connection is bound to, if any. Lives exactly as long as its connection
/// and is never shared across connections.
pub struct SessionState {
    pub uuid: Option<String>,
}

impl View for SessionState {
    type V = Option<Seq<char>>;

    open spec fn view(&self) -> Option<Seq<char>> {
        match self.uuid {
            Some(u) => Some(u@),
            None => None,
        }
    }
}

/// The identity a request resolves to, given the identity the connection is
/// bound to: an `OpenSession` names (and re-binds) its own identity; any
/// other request falls back on the bound one, and resolves to nothing if
/// the connection is still unbound. The result is also the identity the
/// connection is bound to afterwards.
pub open spec fn spec_session_step(bound: Option<Seq<char>>, req: TeeRequest) -> Option<
    Seq<char>,
> {
    match req {
        TeeRequest::OpenSession { uuid } => Some(uuid@),
        _ => bound,
    }
}

impl SessionState {
    /// A fresh, unbound session: the state of every connection before its
    /// first request.
    pub fn new() -> (r: SessionState)
        ensures
            r@ is None,
    {
        SessionState { uuid: None }
    }

    /// Resolves the identity a request targets and updates the binding:
    /// an `OpenSession` binds (or re-binds) the connection to the identity
    /// it names; any other request keeps the current binding and fails with
    /// `MissingSession` if there is none.
    pub fn resolve_uuid(&mut self, req: &TeeRequest) -> (r: Result<String, RelayError>)
        ensures
            final(self)@ == spec_session_step(old(self)@, *req),
            r is Ok <==> spec_session_step(old(self)@, *req) is Some,
            r matches Ok(u) ==> Some(u@) == spec_session_step(old(self)@, *req),
            r matches Err(e) ==> e == RelayError::MissingSession && final(self)@ == old(self)@,
    {
        match req {
            TeeRequest::OpenSession { uuid } => {
                self.uuid = Some(uuid.clone());
                Ok(uuid.clone())
            },
            _ => match &self.uuid {
                Some(u) => Ok(u.clone()),
                None => Err(RelayError::MissingSession),
            },
        }
    }
}

/// Checks the untrusted payload length announced by a header against the
/// hard upper bound, and only then hands it out as an allocation size.
pub fn checked_payload_len(header: &PacketHeader) -> (r: Result<usize, RelayError>)
    ensures
        r is Ok <==> header.data_size <= MAX_PAYLOAD_SIZE,
        r matches Ok(n) ==> n == header.data_size,
        r matches Err(e) ==> e == RelayError::PayloadTooLarge,
{
    if header.data_size <= MAX_PAYLOAD_SIZE {
        Ok(header.data_size as usize)
    } else {
        Err(RelayError::PayloadTooLarge)
    }
}

/// The well-known runtime directory holding one Unix socket per trusted
/// application.
pub const RUNTIME_DIR: &'static str = "/tmp/";

/// Suffix of every trusted-application socket name.
pub const SOCKET_SUFFIX: &'static str = ".sock";

/// The path of the local socket serving a trusted application:
/// the runtime directory, the UUID, and the socket suffix.
pub open spec fn spec_ta_socket_path(uuid: Seq<char>) -> Seq<char> {
    RUNTIME_DIR@ + uuid + SOCKET_SUFFIX@
}

/// Builds the local socket path for a trusted-application identity.
pub fn ta_socket_path(uuid: &str) -> (r: String)
    ensures
        r@ == spec_ta_socket_path(uuid@),
{
    let mut path = String::from_str(RUNTIME_DIR);
    path.append(uuid);
    path.append(SOCKET_SUFFIX);
    path
}

/// The local wire form of a payload: a 4-byte little-endian length prefix
/// immediately followed by the payload bytes.
pub open spec fn spec_framed(payload: Seq<u8>) -> Seq<u8> {
    spec_u32_to_le_bytes(payload.len() as u32) + payload
}

/// Frames a payload for the local endpoint with its 4-byte length prefix.
pub fn frame_payload(payload: &[u8]) -> (r: Vec<u8>)
    requires
        payload@.len() <= u32::MAX,
    ensures
        r@ == spec_framed(payload@),
{
    proof {
        lemma_auto_spec_u32_to_from_le_bytes();
    }
    let mut framed = u32_to_le_bytes(payload.len() as u32);
    let mut body = slice_to_vec(payload);
    framed.append(&mut body);
    framed
}

/// Reads the 4-byte little-endian length prefix of a local response.
pub fn parse_len_prefix(buf: &[u8]) -> (r: usize)
    requires
        buf@.len() == 4,
    ensures
        r == spec_u32_from_le_bytes(buf@),
{
    proof {
        lemma_auto_spec_u32_to_from_le_bytes();
    }
    u32_from_le_bytes(buf) as usize
}

/// Everything the connection loop needs to forward one request: the
/// identity it resolved to, the path of the local socket to open, and the
/// length-prefixed bytes to write there.
pub struct RelayAction {
    pub target_uuid: String,
    pub socket_path: String,
    pub framed_request: Vec<u8>,
}

/// One step of the per-connection relay: resolves the identity the request
/// targets, updates the session binding, and builds the socket path and the
/// length-prefixed message for the local endpoint. Fails exactly when a
/// request that names no identity arrives on an unbound connection; the
/// connection must then be failed rather than relayed to a guessed target.
pub fn prepare_relay(session: &mut SessionState, req: &TeeRequest, payload: &[u8]) -> (r: Result<
    RelayAction,
    RelayError,
>)
    requires
        payload@.len() <= MAX_PAYLOAD_SIZE,
    ensures
        final(session)@ == spec_session_step(old(session)@, *req),
        r is Ok <==> spec_session_step(old(session)@, *req) is Some,
        r matches Ok(action) ==> {
            &&& Some(action.target_uuid@) == spec_session_step(old(session)@, *req)
            &&& action.socket_path@ == spec_ta_socket_path(action.target_uuid@)
            &&& action.framed_request@ == spec_framed(payload@)
        },
        r matches Err(e) ==> e == RelayError::MissingSession && final(session)@ == old(session)@,
{
    let uuid = match session.resolve_uuid(req) {
        Ok(u) => u,
        Err(e) => {
            return Err(e);
        },
    };
    let socket_path = ta_socket_path(uuid.as_str());
    let framed_request = frame_payload(payload);
    Ok(RelayAction { target_uuid: uuid, socket_path, framed_request })
}

/// A decoded registration record arriving on the control socket: the
/// identity a trusted application announces itself under. The registry the
/// control plane fills is observed, never required, by the relay: no relay
/// function takes it as an input.
#[derive(Debug, Clone, PartialEq, Eq)]
pub struct RegisterRequest {
    pub uuid: String,
}

/// Response transparency: the relay forwards a local endpoint's
/// length-prefixed response by sending the 4 prefix bytes verbatim and the
/// response bytes chunked, and the peer recovers the exact response: the
/// prefix parses back to the response length, the bytes after the prefix
/// are the response, and the chunks concatenate to it.
pub proof fn lemma_response_round_trip(resp: Seq<u8>, chunks: Seq<Seq<u8>>)
    requires
        resp.len() <= u32::MAX,
        chunks.len() == crate::codec::spec_chunk_count(resp.len()),
        forall|i: int| 0 <= i < chunks.len() ==> #[trigger] chunks[i] == crate::codec::spec_chunk_at(
            resp,
            i,
        ),
    ensures
        spec_u32_from_le_bytes(spec_framed(resp).subrange(0, 4)) == resp.len(),
        spec_framed(resp).skip(4) == resp,
        chunks.flatten() == resp,
{
    lemma_auto_spec_u32_to_from_le_bytes();
    assert(spec_framed(resp).subrange(0, 4) =~= spec_u32_to_le_bytes(resp.len() as u32));
    assert(spec_framed(resp).skip(4) =~= resp);
    crate::codec::lemma_chunks_reassemble(chunks, resp);
}

/// Session binding: on a fresh connection, an `OpenSession` naming some
/// identity binds the connection to it, and a later request that names no
/// identity resolves to that same identity; a request that names no
/// identity arriving first, before any `OpenSession`, resolves to nothing
/// and must fail the connection.
pub proof fn lemma_session_binding(opening: TeeRequest, follow_up: TeeRequest)
    requires
        opening is OpenSession,
        !(follow_up is OpenSession),
    ensures
        spec_session_step(None, opening) == Some(opening->uuid@),
        spec_session_step(spec_session_step(None, opening), follow_up) == Some(opening->uuid@),
        spec_session_step(None, follow_up) is None,
{
}

} // verus!
