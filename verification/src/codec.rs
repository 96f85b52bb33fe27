//! The admin wire format: one JSON object per line, a `type` tag plus a
//! sibling `payload` field when the variant carries one. The daemon and its
//! paired client are the only speakers, so the codec is strict: it emits the
//! canonical form and accepts exactly the canonical form.

use vstd::prelude::*;
use vstd::string::StrSliceExecFns;
use vstd::string::StringExecFns;

use crate::strutil::{match_lit_at, str_eq_chars, trim_str, trimmed};

verus! {

// ---------------------------------------------------------------------------
// JSON string escaping
// ---------------------------------------------------------------------------
/// Canonical escape for the control characters that have no short escape.
pub open spec fn control_text(c: char) -> Seq<char> {
    let u = c as u32;
    if u == 0x00 {
        "\\u0000"@
    } else if u == 0x01 {
        "\\u0001"@
    } else if u == 0x02 {
        "\\u0002"@
    } else if u == 0x03 {
        "\\u0003"@
    } else if u == 0x04 {
        "\\u0004"@
    } else if u == 0x05 {
        "\\u0005"@
    } else if u == 0x06 {
        "\\u0006"@
    } else if u == 0x07 {
        "\\u0007"@
    } else if u == 0x0b {
        "\\u000b"@
    } else if u == 0x0e {
        "\\u000e"@
    } else if u == 0x0f {
        "\\u000f"@
    } else if u == 0x10 {
        "\\u0010"@
    } else if u == 0x11 {
        "\\u0011"@
    } else if u == 0x12 {
        "\\u0012"@
    } else if u == 0x13 {
        "\\u0013"@
    } else if u == 0x14 {
        "\\u0014"@
    } else if u == 0x15 {
        "\\u0015"@
    } else if u == 0x16 {
        "\\u0016"@
    } else if u == 0x17 {
        "\\u0017"@
    } else if u == 0x18 {
        "\\u0018"@
    } else if u == 0x19 {
        "\\u0019"@
    } else if u == 0x1a {
        "\\u001a"@
    } else if u == 0x1b {
        "\\u001b"@
    } else if u == 0x1c {
        "\\u001c"@
    } else if u == 0x1d {
        "\\u001d"@
    } else if u == 0x1e {
        "\\u001e"@
    } else {
        "\\u001f"@
    }
}

/// Canonical escape of one character: quote and backslash get a backslash
/// escape, the common control characters their short form, the remaining
/// control characters a `\u00xx` form, and everything else stands for
/// itself.
pub open spec fn esc_char(c: char) -> Seq<char> {
    if c == '"' {
        "\\\""@
    } else if c == '\\' {
        "\\\\"@
    } else if c as u32 == 0x08 {
        "\\b"@
    } else if c as u32 == 0x09 {
        "\\t"@
    } else if c as u32 == 0x0a {
        "\\n"@
    } else if c as u32 == 0x0c {
        "\\f"@
    } else if c as u32 == 0x0d {
        "\\r"@
    } else if (c as u32) < 0x20 {
        control_text(c)
    } else {
        seq![c]
    }
}

/// Canonical escape of a whole string.
pub open spec fn esc_text(s: Seq<char>) -> Seq<char>
    decreases s.len(),
{
    if s.len() == 0 {
        Seq::<char>::empty()
    } else {
        esc_char(s[0]) + esc_text(s.drop_first())
    }
}

fn control_str(c: char) -> (r: &'static str)
    requires
        (c as u32) < 0x20,
        c as u32 != 0x08,
        c as u32 != 0x09,
        c as u32 != 0x0a,
        c as u32 != 0x0c,
        c as u32 != 0x0d,
    ensures
        r@ == control_text(c),
{
    let u = c as u32;
    if u == 0x00 {
        "\\u0000"
    } else if u == 0x01 {
        "\\u0001"
    } else if u == 0x02 {
        "\\u0002"
    } else if u == 0x03 {
        "\\u0003"
    } else if u == 0x04 {
        "\\u0004"
    } else if u == 0x05 {
        "\\u0005"
    } else if u == 0x06 {
        "\\u0006"
    } else if u == 0x07 {
        "\\u0007"
    } else if u == 0x0b {
        "\\u000b"
    } else if u == 0x0e {
        "\\u000e"
    } else if u == 0x0f {
        "\\u000f"
    } else if u == 0x10 {
        "\\u0010"
    } else if u == 0x11 {
        "\\u0011"
    } else if u == 0x12 {
        "\\u0012"
    } else if u == 0x13 {
        "\\u0013"
    } else if u == 0x14 {
        "\\u0014"
    } else if u == 0x15 {
        "\\u0015"
    } else if u == 0x16 {
        "\\u0016"
    } else if u == 0x17 {
        "\\u0017"
    } else if u == 0x18 {
        "\\u0018"
    } else if u == 0x19 {
        "\\u0019"
    } else if u == 0x1a {
        "\\u001a"
    } else if u == 0x1b {
        "\\u001b"
    } else if u == 0x1c {
        "\\u001c"
    } else if u == 0x1d {
        "\\u001d"
    } else if u == 0x1e {
        "\\u001e"
    } else {
        "\\u001f"
    }
}

fn esc_special_str(c: char) -> (r: &'static str)
    requires
        c == '"' || c == '\\' || (c as u32) < 0x20,
    ensures
        r@ == esc_char(c),
{
    if c == '"' {
        "\\\""
    } else if c == '\\' {
        "\\\\"
    } else if c as u32 == 0x08 {
        "\\b"
    } else if c as u32 == 0x09 {
        "\\t"
    } else if c as u32 == 0x0a {
        "\\n"
    } else if c as u32 == 0x0c {
        "\\f"
    } else if c as u32 == 0x0d {
        "\\r"
    } else {
        control_str(c)
    }
}

fn escape_json_from(s: &str, from: usize) -> (r: String)
    requires
        from <= s@.len(),
    ensures
        r@ == esc_text(s@.skip(from as int)),
    decreases s@.len() - from,
{
    let n = s.unicode_len();
    if from == n {
        proof {
            assert(s@.skip(from as int) =~= Seq::<char>::empty());
        }
        String::new()
    } else {
        let c = s.get_char(from);
        let mut out: String;
        if c == '"' || c == '\\' || (c as u32) < 0x20 {
            out = String::from_str(esc_special_str(c));
        } else {
            out = String::from_str(s.substring_char(from, from + 1));
            proof {
                assert(s@.subrange(from as int, from as int + 1) =~= seq![s@[from as int]]);
            }
        }
        let rest = escape_json_from(s, from + 1);
        out.append(rest.as_str());
        proof {
            let suf = s@.skip(from as int);
            assert(suf[0] == s@[from as int]);
            assert(suf.drop_first() =~= s@.skip(from as int + 1));
        }
        out
    }
}

/// Escape a string for inclusion in a JSON string literal.
pub fn escape_json(s: &str) -> (r: String)
    ensures
        r@ == esc_text(s@),
{
    proof {
        assert(s@.skip(0) =~= s@);
    }
    escape_json_from(s, 0)
}

// ---------------------------------------------------------------------------
// Response lines
// ---------------------------------------------------------------------------
/// The wire form of a bare acknowledgement.
pub open spec fn ack_text() -> Seq<char> {
    "{\"type\":\"Ack\"}"@
}

/// Everything of an error line before the message.
pub open spec fn error_pre_text() -> Seq<char> {
    "{\"type\":\"Error\",\"payload\":\""@
}

/// Everything of a status line before the run identifier.
pub open spec fn status_pre_text() -> Seq<char> {
    "{\"type\":\"Status\",\"payload\":{\"run_id\":\""@
}

/// The part of a status line between the run identifier and the risk state.
pub open spec fn status_mid_text() -> Seq<char> {
    "\",\"risk_state\":\""@
}

/// The wire form of an error line carrying `message`.
pub open spec fn error_text(message: Seq<char>) -> Seq<char> {
    error_pre_text() + esc_text(message) + "\"}"@
}

/// The wire form of a status line.
pub open spec fn status_resp_text(run_id: Seq<char>, risk_state: Seq<char>) -> Seq<char> {
    status_pre_text() + esc_text(run_id) + status_mid_text() + esc_text(risk_state) + "\"}}"@
}

/// The content of a response, with the strings abstracted to their
/// character sequences. Decoding is specified against this model, so that
/// two responses that read back equal are exactly those that carry the same
/// text.
pub enum RespModel {
    Status { run_id: Seq<char>, risk_state: Seq<char> },
    Ack,
    Error { message: Seq<char> },
}

/// The model a concrete response carries.
pub open spec fn resp_model_of(r: crate::protocol::AdminResponse) -> RespModel {
    match r {
        crate::protocol::AdminResponse::Status(st) => RespModel::Status {
            run_id: st.run_id@,
            risk_state: st.risk_state@,
        },
        crate::protocol::AdminResponse::Ack => RespModel::Ack,
        crate::protocol::AdminResponse::Error(m) => RespModel::Error { message: m@ },
    }
}

/// The wire form of a response model.
pub open spec fn model_text(m: RespModel) -> Seq<char> {
    match m {
        RespModel::Status { run_id, risk_state } => status_resp_text(run_id, risk_state),
        RespModel::Ack => ack_text(),
        RespModel::Error { message } => error_text(message),
    }
}

/// The wire form of a response.
pub open spec fn resp_text(r: crate::protocol::AdminResponse) -> Seq<char> {
    model_text(resp_model_of(r))
}

// ---------------------------------------------------------------------------
// Strict decoding
// ---------------------------------------------------------------------------
/// The control character a canonical `\u00xx` escape with hex digits
/// `h1 h2` stands for; none for the digits of characters the encoder
/// writes differently (upper-case hex, short-form escapes, non-controls).
pub open spec fn ctrl_of_hex(h1: char, h2: char) -> Option<char> {
    if h1 == '0' {
        if h2 == '0' {
            Some('\u{0}')
        } else if h2 == '1' {
            Some('\u{1}')
        } else if h2 == '2' {
            Some('\u{2}')
        } else if h2 == '3' {
            Some('\u{3}')
        } else if h2 == '4' {
            Some('\u{4}')
        } else if h2 == '5' {
            Some('\u{5}')
        } else if h2 == '6' {
            Some('\u{6}')
        } else if h2 == '7' {
            Some('\u{7}')
        } else if h2 == 'b' {
            Some('\u{b}')
        } else if h2 == 'e' {
            Some('\u{e}')
        } else if h2 == 'f' {
            Some('\u{f}')
        } else {
            None
        }
    } else if h1 == '1' {
        if h2 == '0' {
            Some('\u{10}')
        } else if h2 == '1' {
            Some('\u{11}')
        } else if h2 == '2' {
            Some('\u{12}')
        } else if h2 == '3' {
            Some('\u{13}')
        } else if h2 == '4' {
            Some('\u{14}')
        } else if h2 == '5' {
            Some('\u{15}')
        } else if h2 == '6' {
            Some('\u{16}')
        } else if h2 == '7' {
            Some('\u{17}')
        } else if h2 == '8' {
            Some('\u{18}')
        } else if h2 == '9' {
            Some('\u{19}')
        } else if h2 == 'a' {
            Some('\u{1a}')
        } else if h2 == 'b' {
            Some('\u{1b}')
        } else if h2 == 'c' {
            Some('\u{1c}')
        } else if h2 == 'd' {
            Some('\u{1d}')
        } else if h2 == 'e' {
            Some('\u{1e}')
        } else if h2 == 'f' {
            Some('\u{1f}')
        } else {
            None
        }
    } else {
        None
    }
}

/// The character a canonical escape at the head of `s` stands for, with
/// the length of the escape; none when `s` does not start with one.
pub open spec fn spec_unescape_head(s: Seq<char>) -> Option<(char, int)> {
    if s.len() < 2 {
        None
    } else if s[1] == '"' {
        Some(('"', 2))
    } else if s[1] == '\\' {
        Some(('\\', 2))
    } else if s[1] == 'b' {
        Some(('\u{8}', 2))
    } else if s[1] == 't' {
        Some(('\t', 2))
    } else if s[1] == 'n' {
        Some(('\n', 2))
    } else if s[1] == 'f' {
        Some(('\u{c}', 2))
    } else if s[1] == 'r' {
        Some(('\r', 2))
    } else if s[1] == 'u' {
        if s.len() >= 6 && s[2] == '0' && s[3] == '0' {
            match ctrl_of_hex(s[4], s[5]) {
                Some(c) => Some((c, 6)),
                None => None,
            }
        } else {
            None
        }
    } else {
        None
    }
}

/// Read a JSON string body strictly: the decoded content up to the first
/// closing quote, and what follows that quote. Fails on anything the
/// encoder does not emit: a bare control character, an unknown or
/// non-canonical escape, or a missing closing quote.
pub open spec fn spec_scan_string(s: Seq<char>) -> Option<(Seq<char>, Seq<char>)>
    decreases s.len(),
{
    if s.len() == 0 {
        None
    } else if s[0] == '"' {
        Some((Seq::<char>::empty(), s.drop_first()))
    } else if s[0] == '\\' {
        match spec_unescape_head(s) {
            Some((c, k)) => if 1 <= k <= s.len() {
                match spec_scan_string(s.skip(k)) {
                    Some((content, rest)) => Some((seq![c] + content, rest)),
                    None => None,
                }
            } else {
                None
            },
            None => None,
        }
    } else if (s[0] as u32) < 0x20 {
        None
    } else {
        match spec_scan_string(s.drop_first()) {
            Some((content, rest)) => Some((seq![s[0]] + content, rest)),
            None => None,
        }
    }
}

/// The middle of a status line after the run identifier's closing quote.
pub open spec fn status_mid_after_quote() -> Seq<char> {
    ",\"risk_state\":\""@
}

/// What a response line decodes to: the model of the response whose wire
/// form the line is, none otherwise.
pub open spec fn spec_decode_response(s: Seq<char>) -> Option<RespModel> {
    if s == ack_text() {
        Some(RespModel::Ack)
    } else if error_pre_text().is_prefix_of(s) {
        match spec_scan_string(s.skip(error_pre_text().len() as int)) {
            Some((message, rest)) => if rest == "}"@ {
                Some(RespModel::Error { message })
            } else {
                None
            },
            None => None,
        }
    } else if status_pre_text().is_prefix_of(s) {
        match spec_scan_string(s.skip(status_pre_text().len() as int)) {
            Some((run_id, rest1)) => if status_mid_after_quote().is_prefix_of(rest1) {
                match spec_scan_string(rest1.skip(status_mid_after_quote().len() as int)) {
                    Some((risk_state, rest2)) => if rest2 == "}}"@ {
                        Some(RespModel::Status { run_id, risk_state })
                    } else {
                        None
                    },
                    None => None,
                }
            } else {
                None
            },
            None => None,
        }
    } else {
        None
    }
}

fn unescape_head(s: &str, from: usize) -> (r: Option<(&'static str, usize)>)
    requires
        from < s@.len(),
        s@[from as int] == '\\',
    ensures
        match r {
            Some((unit, k)) => from + k <= s@.len() && (spec_unescape_head(s@.skip(from as int))
                matches Some(p) && p.1 == k as int && unit@ == seq![p.0]),
            None => spec_unescape_head(s@.skip(from as int)) is None,
        },
{
    let n = s.unicode_len();
    proof {
        reveal_strlit("\"");
        reveal_strlit("\\");
        reveal_strlit("\u{8}");
        reveal_strlit("\t");
        reveal_strlit("\n");
        reveal_strlit("\u{c}");
        reveal_strlit("\r");
        assert(forall|j: int|
            0 <= j < s@.len() - from ==> s@.skip(from as int)[j] == s@[from + j]);
    }
    if from + 1 >= n {
        return None;
    }
    let c1 = s.get_char(from + 1);
    if c1 == '"' {
        Some(("\"", 2))
    } else if c1 == '\\' {
        Some(("\\", 2))
    } else if c1 == 'b' {
        Some(("\u{8}", 2))
    } else if c1 == 't' {
        Some(("\t", 2))
    } else if c1 == 'n' {
        Some(("\n", 2))
    } else if c1 == 'f' {
        Some(("\u{c}", 2))
    } else if c1 == 'r' {
        Some(("\r", 2))
    } else if c1 == 'u' {
        if n - from < 6 {
            return None;
        }
        if s.get_char(from + 2) != '0' || s.get_char(from + 3) != '0' {
            return None;
        }
        let h1 = s.get_char(from + 4);
        let h2 = s.get_char(from + 5);
        let unit: Option<&'static str> = ctrl_unit_of_hex(h1, h2);
        match unit {
            Some(u) => Some((u, 6)),
            None => None,
        }
    } else {
        None
    }
}

fn ctrl_unit_of_hex(h1: char, h2: char) -> (r: Option<&'static str>)
    ensures
        match r {
            Some(u) => ctrl_of_hex(h1, h2) matches Some(c) && u@ == seq![c],
            None => ctrl_of_hex(h1, h2) is None,
        },
{
    proof {
        reveal_strlit("\u{0}");
        reveal_strlit("\u{1}");
        reveal_strlit("\u{2}");
        reveal_strlit("\u{3}");
        reveal_strlit("\u{4}");
        reveal_strlit("\u{5}");
        reveal_strlit("\u{6}");
        reveal_strlit("\u{7}");
        reveal_strlit("\u{b}");
        reveal_strlit("\u{e}");
        reveal_strlit("\u{f}");
        reveal_strlit("\u{10}");
        reveal_strlit("\u{11}");
        reveal_strlit("\u{12}");
        reveal_strlit("\u{13}");
        reveal_strlit("\u{14}");
        reveal_strlit("\u{15}");
        reveal_strlit("\u{16}");
        reveal_strlit("\u{17}");
        reveal_strlit("\u{18}");
        reveal_strlit("\u{19}");
        reveal_strlit("\u{1a}");
        reveal_strlit("\u{1b}");
        reveal_strlit("\u{1c}");
        reveal_strlit("\u{1d}");
        reveal_strlit("\u{1e}");
        reveal_strlit("\u{1f}");
    }
    if h1 == '0' {
        if h2 == '0' {
            Some("\u{0}")
        } else if h2 == '1' {
            Some("\u{1}")
        } else if h2 == '2' {
            Some("\u{2}")
        } else if h2 == '3' {
            Some("\u{3}")
        } else if h2 == '4' {
            Some("\u{4}")
        } else if h2 == '5' {
            Some("\u{5}")
        } else if h2 == '6' {
            Some("\u{6}")
        } else if h2 == '7' {
            Some("\u{7}")
        } else if h2 == 'b' {
            Some("\u{b}")
        } else if h2 == 'e' {
            Some("\u{e}")
        } else if h2 == 'f' {
            Some("\u{f}")
        } else {
            None
        }
    } else if h1 == '1' {
        if h2 == '0' {
            Some("\u{10}")
        } else if h2 == '1' {
            Some("\u{11}")
        } else if h2 == '2' {
            Some("\u{12}")
        } else if h2 == '3' {
            Some("\u{13}")
        } else if h2 == '4' {
            Some("\u{14}")
        } else if h2 == '5' {
            Some("\u{15}")
        } else if h2 == '6' {
            Some("\u{16}")
        } else if h2 == '7' {
            Some("\u{17}")
        } else if h2 == '8' {
            Some("\u{18}")
        } else if h2 == '9' {
            Some("\u{19}")
        } else if h2 == 'a' {
            Some("\u{1a}")
        } else if h2 == 'b' {
            Some("\u{1b}")
        } else if h2 == 'c' {
            Some("\u{1c}")
        } else if h2 == 'd' {
            Some("\u{1d}")
        } else if h2 == 'e' {
            Some("\u{1e}")
        } else if h2 == 'f' {
            Some("\u{1f}")
        } else {
            None
        }
    } else {
        None
    }
}

fn scan_string(s: &str, from: usize) -> (r: Option<(String, usize)>)
    requires
        from <= s@.len(),
    ensures
        match r {
            Some(p) => from <= p.1 <= s@.len() && spec_scan_string(s@.skip(from as int)) == Some(
                (p.0@, s@.skip(p.1 as int)),
            ),
            None => spec_scan_string(s@.skip(from as int)) is None,
        },
    decreases s@.len() - from,
{
    let n = s.unicode_len();
    proof {
        assert(forall|j: int|
            0 <= j < s@.len() - from ==> s@.skip(from as int)[j] == s@[from + j]);
    }
    if from == n {
        return None;
    }
    let c = s.get_char(from);
    if c == '"' {
        proof {
            assert(s@.skip(from as int).drop_first() =~= s@.skip(from as int + 1));
        }
        return Some((String::new(), from + 1));
    }
    if c == '\\' {
        match unescape_head(s, from) {
            None => {
                return None;
            },
            Some((unit, k)) => {
                proof {
                    assert(s@.skip(from as int).skip(k as int) =~= s@.skip(from as int + k));
                }
                match scan_string(s, from + k) {
                    None => {
                        return None;
                    },
                    Some((rest, end)) => {
                        let mut out = String::from_str(unit);
                        out.append(rest.as_str());
                        return Some((out, end));
                    },
                }
            },
        }
    }
    if (c as u32) < 0x20 {
        return None;
    }
    proof {
        assert(s@.skip(from as int).drop_first() =~= s@.skip(from as int + 1));
        assert(s@.subrange(from as int, from as int + 1) =~= seq![s@[from as int]]);
    }
    match scan_string(s, from + 1) {
        None => None,
        Some((rest, end)) => {
            let mut out = String::from_str(s.substring_char(from, from + 1));
            out.append(rest.as_str());
            Some((out, end))
        },
    }
}

/// Encode a response as one line (without the line terminator).
pub fn encode_response(resp: &crate::protocol::AdminResponse) -> (r: String)
    ensures
        r@ == resp_text(*resp),
{
    match resp {
        crate::protocol::AdminResponse::Ack => String::from_str("{\"type\":\"Ack\"}"),
        crate::protocol::AdminResponse::Error(message) => {
            let mut out = String::from_str("{\"type\":\"Error\",\"payload\":\"");
            let e = escape_json(message.as_str());
            out.append(e.as_str());
            out.append("\"}");
            out
        },
        crate::protocol::AdminResponse::Status(st) => {
            let mut out = String::from_str("{\"type\":\"Status\",\"payload\":{\"run_id\":\"");
            let rid = escape_json(st.run_id.as_str());
            out.append(rid.as_str());
            out.append("\",\"risk_state\":\"");
            let rs = escape_json(st.risk_state.as_str());
            out.append(rs.as_str());
            out.append("\"}}");
            out
        },
    }
}

/// Decode one response line. Strict: exactly the canonical wire form of a
/// response decodes, with surrounding ASCII whitespace ignored.
pub fn decode_response(line: &str) -> (r: Option<crate::protocol::AdminResponse>)
    ensures
        match r {
            Some(resp) => spec_decode_response(trimmed(line@)) == Some(resp_model_of(resp)),
            None => spec_decode_response(trimmed(line@)) is None,
        },
{
    let t = trim_str(line);
    if str_eq_chars(t, "{\"type\":\"Ack\"}") {
        return Some(crate::protocol::AdminResponse::Ack);
    }
    proof {
        assert(t@.skip(0) =~= t@);
    }
    if match_lit_at(t, 0, "{\"type\":\"Error\",\"payload\":\"") {
        let plen = "{\"type\":\"Error\",\"payload\":\"".unicode_len();
        match scan_string(t, plen) {
            None => {
                return None;
            },
            Some((message, end)) => {
                let n = t.unicode_len();
                let closed = match_lit_at(t, end, "}");
                proof {
                    reveal_strlit("}");
                    assert(("}"@).subrange(0, 1) =~= "}"@);
                }
                if closed && end + 1 == n {
                    proof {
                        assert(t@.skip(end as int) =~= "}"@);
                    }
                    return Some(crate::protocol::AdminResponse::Error(message));
                } else {
                    return None;
                }
            },
        }
    }
    if match_lit_at(t, 0, "{\"type\":\"Status\",\"payload\":{\"run_id\":\"") {
        let plen = "{\"type\":\"Status\",\"payload\":{\"run_id\":\"".unicode_len();
        match scan_string(t, plen) {
            None => {
                return None;
            },
            Some((run_id, end1)) => {
                if !match_lit_at(t, end1, ",\"risk_state\":\"") {
                    return None;
                }
                let midlen = ",\"risk_state\":\"".unicode_len();
                let total = t.unicode_len();
                proof {
                    assert((",\"risk_state\":\""@).len() <= t@.skip(end1 as int).len());
                    assert(end1 as int + midlen as int <= total as int);
                    assert(t@.skip(end1 as int).skip(midlen as int) =~= t@.skip(
                        end1 as int + midlen as int,
                    ));
                }
                match scan_string(t, end1 + midlen) {
                    None => {
                        return None;
                    },
                    Some((risk_state, end2)) => {
                        let n = t.unicode_len();
                        let closed = match_lit_at(t, end2, "}}");
                        proof {
                            reveal_strlit("}}");
                            assert(("}}"@).subrange(0, 2) =~= "}}"@);
                        }
                        if closed && end2 + 2 == n {
                            proof {
                                assert(t@.skip(end2 as int) =~= "}}"@);
                            }
                            return Some(
                                crate::protocol::AdminResponse::Status(
                                    crate::protocol::AdminStatus { run_id, risk_state },
                                ),
                            );
                        } else {
                            return None;
                        }
                    },
                }
            },
        }
    }
    None
}

proof fn lemma_unescape_of_esc_char(c: char, tail: Seq<char>)
    requires
        c == '"' || c == '\\' || (c as u32) < 0x20,
    ensures
        ({
            let e = esc_char(c);
            &&& 2 <= e.len() <= 6
            &&& e[0] == '\\'
            &&& spec_unescape_head(e + tail) == Some((c, e.len() as int))
        }),
{
    reveal_strlit("\\\"");
    reveal_strlit("\\\\");
    reveal_strlit("\\b");
    reveal_strlit("\\t");
    reveal_strlit("\\n");
    reveal_strlit("\\f");
    reveal_strlit("\\r");
    reveal_strlit("\\u0000");
    reveal_strlit("\\u0001");
    reveal_strlit("\\u0002");
    reveal_strlit("\\u0003");
    reveal_strlit("\\u0004");
    reveal_strlit("\\u0005");
    reveal_strlit("\\u0006");
    reveal_strlit("\\u0007");
    reveal_strlit("\\u000b");
    reveal_strlit("\\u000e");
    reveal_strlit("\\u000f");
    reveal_strlit("\\u0010");
    reveal_strlit("\\u0011");
    reveal_strlit("\\u0012");
    reveal_strlit("\\u0013");
    reveal_strlit("\\u0014");
    reveal_strlit("\\u0015");
    reveal_strlit("\\u0016");
    reveal_strlit("\\u0017");
    reveal_strlit("\\u0018");
    reveal_strlit("\\u0019");
    reveal_strlit("\\u001a");
    reveal_strlit("\\u001b");
    reveal_strlit("\\u001c");
    reveal_strlit("\\u001d");
    reveal_strlit("\\u001e");
    reveal_strlit("\\u001f");
    let e = esc_char(c);
    let s = e + tail;
    assert(forall|j: int| 0 <= j < e.len() ==> s[j] == e[j]);
}

/// A scan of an encoded string body yields exactly the content that was
/// encoded, and stops exactly after its closing quote.
pub proof fn lemma_scan_of_escaped(m: Seq<char>, rest: Seq<char>)
    ensures
        spec_scan_string(esc_text(m) + seq!['"'] + rest) == Some((m, rest)),
    decreases m.len(),
{
    let s = esc_text(m) + seq!['"'] + rest;
    if m.len() == 0 {
        assert(s =~= seq!['"'] + rest);
        assert(s[0] == '"');
        assert(s.drop_first() =~= rest);
        assert(m =~= Seq::<char>::empty());
    } else {
        let c = m[0];
        let mrest = m.drop_first();
        let e = esc_char(c);
        let tail = esc_text(mrest) + seq!['"'] + rest;
        assert(s =~= e + tail);
        lemma_scan_of_escaped(mrest, rest);
        if c == '"' || c == '\\' || (c as u32) < 0x20 {
            lemma_unescape_of_esc_char(c, tail);
            assert(s[0] == e[0]);
            assert(s.skip(e.len() as int) =~= tail);
            assert(spec_scan_string(s) == Some((seq![c] + mrest, rest)));
        } else {
            assert(e =~= seq![c]);
            assert(s[0] == c);
            assert(s.drop_first() =~= tail);
            assert(spec_scan_string(s) == Some((seq![c] + mrest, rest)));
        }
        assert(seq![c] + mrest =~= m);
    }
}

/// Decoding is the inverse of encoding: every encoded response, read back
/// as one line, decodes to its own model, whatever text its strings carry.
pub proof fn lemma_response_codec_round_trip(m: RespModel)
    ensures
        trimmed(model_text(m)) == model_text(m),
        spec_decode_response(model_text(m)) == Some(m),
{
    reveal_strlit("{\"type\":\"Ack\"}");
    reveal_strlit("{\"type\":\"Error\",\"payload\":\"");
    reveal_strlit("{\"type\":\"Status\",\"payload\":{\"run_id\":\"");
    reveal_strlit("\",\"risk_state\":\"");
    reveal_strlit(",\"risk_state\":\"");
    reveal_strlit("\"}");
    reveal_strlit("\"}}");
    reveal_strlit("}}");
    reveal_strlit("}");
    let s = model_text(m);
    match m {
        RespModel::Ack => {
            assert(s[0] == '{');
            assert(s.last() == '}');
        },
        RespModel::Error { message } => {
            let pre = error_pre_text();
            let em = esc_text(message);
            assert(s =~= pre + (em + seq!['"'] + "}"@));
            let body = em + seq!['"'] + "}"@;
            lemma_scan_of_escaped(message, "}"@);
            assert(s.len() == pre.len() + body.len());
            assert(body.len() >= 2);
            assert(s.len() != ack_text().len());
            assert(s != ack_text());
            assert(pre =~= s.subrange(0, pre.len() as int));
            assert(pre.is_prefix_of(s));
            assert(s.skip(pre.len() as int) =~= body);
            assert(spec_decode_response(s) == Some(RespModel::Error { message }));
            assert(s[0] == '{');
            assert(s.last() == '}') by {
                assert(s[s.len() - 1] == body[body.len() - 1]);
            }
        },
        RespModel::Status { run_id, risk_state } => {
            let pre = status_pre_text();
            let midq = status_mid_after_quote();
            let er = esc_text(run_id);
            let ek = esc_text(risk_state);
            let tail1 = midq + ek + seq!['"'] + "}}"@;
            assert(s =~= pre + (er + seq!['"'] + tail1));
            let body = er + seq!['"'] + tail1;
            assert(s.len() == pre.len() + body.len());
            assert(body.len() >= 2);
            assert(s.len() != ack_text().len());
            assert(s != ack_text());
            assert(pre =~= s.subrange(0, pre.len() as int));
            assert(pre.is_prefix_of(s));
            if error_pre_text().is_prefix_of(s) {
                assert(error_pre_text() =~= s.subrange(0, error_pre_text().len() as int));
                assert(s[9] == error_pre_text()[9]);
                assert(s[9] == pre[9]);
                assert(false);
            }
            assert(s.skip(pre.len() as int) =~= body);
            lemma_scan_of_escaped(run_id, tail1);
            assert(spec_scan_string(body) == Some((run_id, tail1)));
            assert(midq =~= tail1.subrange(0, midq.len() as int));
            assert(midq.is_prefix_of(tail1));
            let tail2 = ek + seq!['"'] + "}}"@;
            assert(tail1.skip(midq.len() as int) =~= tail2);
            lemma_scan_of_escaped(risk_state, "}}"@);
            assert(spec_scan_string(tail2) == Some((risk_state, "}}"@)));
            assert(spec_decode_response(s) == Some(RespModel::Status { run_id, risk_state }));
            assert(s[0] == '{');
            assert(s.last() == '}') by {
                assert(s[s.len() - 1] == body[body.len() - 1]);
                assert(body[body.len() - 1] == tail1[tail1.len() - 1]);
            }
        },
    }
}

} // verus!
