//! The three admin control operations, their wire forms, and the
//! per-connection step: decode one request line, dispatch to the risk gate,
//! produce one response line.

use vstd::prelude::*;
use vstd::string::StrSliceExecFns;
use vstd::string::StringExecFns;

use crate::codec::{
    ack_text, encode_response, spec_decode_response, status_resp_text, RespModel,
};
use crate::risk::{state_after_pause, state_after_resume, state_text, RiskGate, RiskState};
use crate::strutil::{str_eq_chars, trim_str, trimmed};

verus! {

/// A control request. No payload on any variant.
#[derive(Clone, Copy, Debug, PartialEq, Eq, Structural)]
pub enum AdminRequest {
    Status,
    Pause,
    Resume,
}

/// The body of a status report.
#[derive(Clone, Debug)]
pub struct AdminStatus {
    pub run_id: String,
    pub risk_state: String,
}

/// A control response: a status report, a bare acknowledgement, or an
/// error message.
#[derive(Clone, Debug)]
pub enum AdminResponse {
    Status(AdminStatus),
    Ack,
    Error(String),
}

/// The wire form of a request.
pub open spec fn req_text(q: AdminRequest) -> Seq<char> {
    match q {
        AdminRequest::Status => "{\"type\":\"Status\"}"@,
        AdminRequest::Pause => "{\"type\":\"Pause\"}"@,
        AdminRequest::Resume => "{\"type\":\"Resume\"}"@,
    }
}

/// What a request line decodes to: the request whose wire form the line is,
/// none otherwise.
pub open spec fn spec_decode_request(s: Seq<char>) -> Option<AdminRequest> {
    if s == req_text(AdminRequest::Status) {
        Some(AdminRequest::Status)
    } else if s == req_text(AdminRequest::Pause) {
        Some(AdminRequest::Pause)
    } else if s == req_text(AdminRequest::Resume) {
        Some(AdminRequest::Resume)
    } else {
        None
    }
}

/// Encode a request as one line (without the line terminator).
pub fn encode_request(q: &AdminRequest) -> (r: String)
    ensures
        r@ == req_text(*q),
{
    match q {
        AdminRequest::Status => String::from_str("{\"type\":\"Status\"}"),
        AdminRequest::Pause => String::from_str("{\"type\":\"Pause\"}"),
        AdminRequest::Resume => String::from_str("{\"type\":\"Resume\"}"),
    }
}

/// Decode one request line. Surrounding ASCII whitespace (including the
/// line terminator) is ignored; anything else that is not exactly the wire
/// form of a request fails to decode.
pub fn decode_request(line: &str) -> (r: Option<AdminRequest>)
    ensures
        r == spec_decode_request(trimmed(line@)),
{
    let t = trim_str(line);
    if str_eq_chars(t, "{\"type\":\"Status\"}") {
        Some(AdminRequest::Status)
    } else if str_eq_chars(t, "{\"type\":\"Pause\"}") {
        Some(AdminRequest::Pause)
    } else if str_eq_chars(t, "{\"type\":\"Resume\"}") {
        Some(AdminRequest::Resume)
    } else {
        None
    }
}

/// Decoding is the inverse of encoding: every encoded request, read back as
/// a line, decodes to itself.
pub proof fn lemma_request_codec_round_trip(q: AdminRequest)
    ensures
        trimmed(req_text(q)) == req_text(q),
        spec_decode_request(trimmed(req_text(q))) == Some(q),
{
    reveal_strlit("{\"type\":\"Status\"}");
    reveal_strlit("{\"type\":\"Pause\"}");
    reveal_strlit("{\"type\":\"Resume\"}");
    assert(req_text(AdminRequest::Status)[9] == 'S');
    assert(req_text(AdminRequest::Resume)[9] == 'R');
    assert(req_text(AdminRequest::Status).len() == 17);
    assert(req_text(AdminRequest::Pause).len() == 16);
    assert(req_text(AdminRequest::Resume).len() == 17);
}

/// Build the status report for the current gate state.
pub fn status_response(run_id: &str, state: RiskState) -> (r: AdminResponse)
    ensures
        r matches AdminResponse::Status(st) && st.run_id@ == run_id@ && st.risk_state@
            == state_text(state),
{
    AdminResponse::Status(
        AdminStatus {
            run_id: run_id.to_owned(),
            risk_state: crate::risk::risk_state_label(state).to_owned(),
        },
    )
}

/// What the risk state becomes when a request is dispatched.
pub open spec fn gate_after(req: AdminRequest, s: RiskState) -> RiskState {
    match req {
        AdminRequest::Status => s,
        AdminRequest::Pause => state_after_pause(s),
        AdminRequest::Resume => state_after_resume(s),
    }
}

/// Dispatch one decoded request: `Status` reads and has no
/// side effect, `Pause` and `Resume` assign unconditionally and acknowledge
/// (idempotently).
pub fn handle_request(req: &AdminRequest, gate: &mut RiskGate, run_id: &str) -> (r: AdminResponse)
    ensures
        final(gate).state == gate_after(*req, old(gate).state),
        match *req {
            AdminRequest::Status => (r matches AdminResponse::Status(st) && st.run_id@ == run_id@
                && st.risk_state@ == state_text(old(gate).state)),
            AdminRequest::Pause => r is Ack,
            AdminRequest::Resume => r is Ack,
        },
{
    match req {
        AdminRequest::Status => {
            let state = gate.status();
            status_response(run_id, state)
        },
        AdminRequest::Pause => {
            gate.pause();
            AdminResponse::Ack
        },
        AdminRequest::Resume => {
            gate.resume();
            AdminResponse::Ack
        },
    }
}

/// The one response line owed for a decodable request line, given the risk
/// state at dispatch time.
pub open spec fn response_text_for(req: AdminRequest, s: RiskState, run_id: Seq<char>) -> Seq<
    char,
> {
    match req {
        AdminRequest::Status => status_resp_text(run_id, state_text(s)),
        AdminRequest::Pause => ack_text(),
        AdminRequest::Resume => ack_text(),
    }
}

/// One full protocol step over an already-read request line: decode,
/// dispatch, encode. A line that does not decode leaves the risk state untouched
/// and produces no response (the connection is simply dropped).
pub fn process_line(line: &str, gate: &mut RiskGate, run_id: &str) -> (r: Option<String>)
    ensures
        match spec_decode_request(trimmed(line@)) {
            None => *final(gate) == *old(gate) && r is None,
            Some(req) => final(gate).state == gate_after(req, old(gate).state) && (
            r matches Some(out) && out@ == response_text_for(req, old(gate).state, run_id@)),
        },
{
    match decode_request(line) {
        None => None,
        Some(req) => {
            let resp = handle_request(&req, gate, run_id);
            Some(encode_response(&resp))
        },
    }
}

/// End to end: the response line a request earns decodes, on the client's
/// side, back to exactly the report that was made — the acknowledgement,
/// or the status carrying the run identifier and the state's label.
pub proof fn lemma_response_line_decodes(req: AdminRequest, s: RiskState, run_id: Seq<char>)
    ensures
        spec_decode_response(response_text_for(req, s, run_id)) == Some(
            match req {
                AdminRequest::Status => RespModel::Status { run_id, risk_state: state_text(s) },
                AdminRequest::Pause => RespModel::Ack,
                AdminRequest::Resume => RespModel::Ack,
            },
        ),
{
    match req {
        AdminRequest::Status => {
            crate::codec::lemma_response_codec_round_trip(
                RespModel::Status { run_id, risk_state: state_text(s) },
            );
        },
        AdminRequest::Pause => {
            crate::codec::lemma_response_codec_round_trip(RespModel::Ack);
        },
        AdminRequest::Resume => {
            crate::codec::lemma_response_codec_round_trip(RespModel::Ack);
        },
    }
}

} // verus!
