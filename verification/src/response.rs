//! The versioned response envelope: encodes a payload, stamps it with a
//! ledger snapshot, and maps the result to transport-ready bytes and headers.

use vstd::prelude::*;

use crate::dec::dec_str_of;
use crate::dec::u64_to_dec;
use crate::error::ApiError;
use crate::error::ErrorKind;
use crate::error::INTERNAL_SERVER_ERROR;
use crate::ledger::LedgerInfo;

verus! {

#[verifier::external_type_specification]
#[verifier::external_body]
pub struct ExValue(serde_json::Value);

/// What the textual codec makes of a payload: the encoded bytes, or `None`
/// where it reports a failure. The codec's result is a function of the
/// payload alone, so it gets a name; nothing is assumed about its value.
pub uninterp spec fn json_enc_of(v: serde_json::Value) -> Option<Seq<u8>>;

/// What the canonical binary codec makes of a payload: the encoded bytes,
/// or `None` where it reports a failure. Deterministic in the payload, so
/// it gets a name; nothing is assumed about its value.
pub uninterp spec fn bcs_enc_of(v: serde_json::Value) -> Option<Seq<u8>>;

/// Relies on serde_json::to_vec: encodes the payload as JSON text, a
/// function of the payload alone; on failure the codec's own message is
/// carried over unchanged.
#[verifier::external_body]
fn encode_json(payload: &serde_json::Value) -> (r: Result<Vec<u8>, String>)
    ensures
        r matches Ok(b) ==> (json_enc_of(*payload) matches Some(s) && b@ == s),
        r is Err ==> json_enc_of(*payload) is None,
{
    serde_json::to_vec(payload).map_err(|e| e.to_string())
}

/// Relies on bcs::to_bytes: encodes the payload in the canonical binary
/// format, a function of the payload alone; the codec's error is discarded,
/// by design.
#[verifier::external_body]
fn encode_bcs(payload: &serde_json::Value) -> (r: Result<Vec<u8>, ()>)
    ensures
        r matches Ok(b) ==> (bcs_enc_of(*payload) matches Some(s) && b@ == s),
        r is Err ==> bcs_enc_of(*payload) is None,
{
    bcs::to_bytes(payload).map_err(|_| ())
}

/// One outgoing reply: the snapshot it was built against, the encoded body,
/// and the format discriminant. Immutable once constructed.
#[derive(Debug)]
pub struct Response {
    pub ledger_info: LedgerInfo,
    pub body: Vec<u8>,
    pub is_bcs_response: bool,
}

/// Builds the envelope from the outcome of the textual encoder: a success
/// keeps the bytes as the body, a failure surfaces the codec's message
/// unchanged as an internal serialization error.
pub fn assemble_json(ledger_info: LedgerInfo, encoded: Result<Vec<u8>, String>) -> (r: Result<
    Response,
    ApiError,
>)
    ensures
        encoded matches Ok(body) ==> (r matches Ok(resp) && resp.ledger_info == ledger_info
            && resp.body@ == body@ && !resp.is_bcs_response),
        encoded matches Err(msg) ==> (r matches Err(e) && e.kind
            == ErrorKind::SerializationFailure && e.status_code == INTERNAL_SERVER_ERROR
            && e.message@ == msg@),
{
    match encoded {
        Ok(body) => Ok(Response { ledger_info, body, is_bcs_response: false }),
        Err(msg) => Err(
            ApiError::new(ErrorKind::SerializationFailure, INTERNAL_SERVER_ERROR, msg),
        ),
    }
}

/// Builds the envelope from the outcome of the binary encoder: a success
/// keeps the bytes as the body, a failure is flattened to one generic
/// internal error with a fixed message, never the raw codec error.
pub fn assemble_bcs(ledger_info: LedgerInfo, encoded: Result<Vec<u8>, ()>) -> (r: Result<
    Response,
    ApiError,
>)
    ensures
        encoded matches Ok(body) ==> (r matches Ok(resp) && resp.ledger_info == ledger_info
            && resp.body@ == body@ && resp.is_bcs_response),
        encoded is Err ==> (r matches Err(e) && e.kind == ErrorKind::SerializationFailure
            && e.status_code == INTERNAL_SERVER_ERROR && e.message@
            == "data serialization error"@),
{
    match encoded {
        Ok(body) => Ok(Response { ledger_info, body, is_bcs_response: true }),
        Err(_) => {
            let msg = String::from_str("data serialization error");
            Err(ApiError::new(ErrorKind::SerializationFailure, INTERNAL_SERVER_ERROR, msg))
        },
    }
}

impl Response {
    /// Serializes `body` with the textual, self-describing codec. Succeeds
    /// exactly when the codec encodes the payload, and the envelope then
    /// carries exactly those bytes, the snapshot, and the textual
    /// discriminant; a codec failure propagates the codec's message.
    pub fn new(ledger_info: LedgerInfo, body: &serde_json::Value) -> (r: Result<
        Response,
        ApiError,
    >)
        ensures
            r is Ok <==> json_enc_of(*body) is Some,
            r matches Ok(resp) ==> (json_enc_of(*body) matches Some(s) && resp.body@ == s
                && resp.ledger_info == ledger_info && !resp.is_bcs_response),
            r matches Err(e) ==> (e.kind == ErrorKind::SerializationFailure && e.status_code
                == INTERNAL_SERVER_ERROR),
    {
        let encoded = encode_json(body);
        assemble_json(ledger_info, encoded)
    }

    /// Serializes `body` with the canonical binary codec. Succeeds exactly
    /// when the codec encodes the payload, and the envelope then carries
    /// exactly those bytes, the snapshot, and the binary discriminant; a
    /// codec failure is flattened to one fixed message.
    pub fn new_bcs(ledger_info: LedgerInfo, body: &serde_json::Value) -> (r: Result<
        Response,
        ApiError,
    >)
        ensures
            r is Ok <==> bcs_enc_of(*body) is Some,
            r matches Ok(resp) ==> (bcs_enc_of(*body) matches Some(s) && resp.body@ == s
                && resp.ledger_info == ledger_info && resp.is_bcs_response),
            r matches Err(e) ==> (e.kind == ErrorKind::SerializationFailure && e.status_code
                == INTERNAL_SERVER_ERROR && e.message@ == "data serialization error"@),
    {
        let encoded = encode_bcs(body);
        assemble_bcs(ledger_info, encoded)
    }

    /// Maps the envelope to transport-ready parts. Pure: no failure path.
    pub fn into_transport_reply(self) -> (r: TransportReply)
        ensures
            r.body@ == self.body@,
            r.content_type@ == spec_content_type(self.is_bcs_response),
            r.headers@.len() == 4,
            forall|i: int|
                0 <= i < 4 ==> ((#[trigger] r.headers@[i]).0@, r.headers@[i].1@)
                    == metadata_headers(self.ledger_info)[i],
    {
        let content_type = if self.is_bcs_response {
            String::from_str("application/x-bcs")
        } else {
            String::from_str("application/json")
        };
        let mut headers: Vec<(String, String)> = Vec::new();
        headers.push((String::from_str("X-Chain-Id"), u64_to_dec(self.ledger_info.chain_id as u64)));
        headers.push(
            (String::from_str("X-Ledger-Version"), u64_to_dec(self.ledger_info.ledger_version)),
        );
        headers.push(
            (
                String::from_str("X-Ledger-TimestampUsec"),
                u64_to_dec(self.ledger_info.ledger_timestamp),
            ),
        );
        headers.push((String::from_str("X-Epoch"), u64_to_dec(self.ledger_info.epoch)));
        TransportReply { content_type, headers, body: self.body }
    }
}

/// What the transport layer receives: a Content-Type token, the four
/// metadata headers in a fixed order, and the body bytes unmodified.
#[derive(Debug)]
pub struct TransportReply {
    pub content_type: String,
    pub headers: Vec<(String, String)>,
    pub body: Vec<u8>,
}

/// The MIME token selected by the format discriminant: one fixed token for
/// the binary format, a distinct fixed one for the textual format.
pub open spec fn spec_content_type(is_bcs_response: bool) -> Seq<char> {
    if is_bcs_response {
        "application/x-bcs"@
    } else {
        "application/json"@
    }
}

/// The four metadata headers of a snapshot: names and decimal values, in the
/// order they are emitted. They depend on the snapshot alone, never on the
/// format discriminant.
pub open spec fn metadata_headers(li: LedgerInfo) -> Seq<(Seq<char>, Seq<char>)> {
    seq![
        ("X-Chain-Id"@, dec_str_of(li.chain_id as nat)),
        ("X-Ledger-Version"@, dec_str_of(li.ledger_version as nat)),
        ("X-Ledger-TimestampUsec"@, dec_str_of(li.ledger_timestamp as nat)),
        ("X-Epoch"@, dec_str_of(li.epoch as nat)),
    ]
}

/// The metadata headers carry the snapshot verbatim: two snapshots produce
/// the same four headers exactly when they are equal.
pub proof fn lemma_headers_determine_snapshot(a: LedgerInfo, b: LedgerInfo)
    ensures
        metadata_headers(a) == metadata_headers(b) <==> a == b,
{
    if metadata_headers(a) == metadata_headers(b) {
        assert(metadata_headers(a)[0] == metadata_headers(b)[0]);
        assert(metadata_headers(a)[1] == metadata_headers(b)[1]);
        assert(metadata_headers(a)[2] == metadata_headers(b)[2]);
        assert(metadata_headers(a)[3] == metadata_headers(b)[3]);
        crate::dec::lemma_dec_str_injective(a.chain_id as nat, b.chain_id as nat);
        crate::dec::lemma_dec_str_injective(a.ledger_version as nat, b.ledger_version as nat);
        crate::dec::lemma_dec_str_injective(a.ledger_timestamp as nat, b.ledger_timestamp as nat);
        crate::dec::lemma_dec_str_injective(a.epoch as nat, b.epoch as nat);
    }
    if a == b {
        assert(metadata_headers(a) =~= metadata_headers(b));
    }
}

} // verus!
