//! The transport: requests go to the server's standard input as
//! newline-terminated JSON text, one per line; what the server writes to its
//! standard output is cut into lines the same way.
use vstd::prelude::*;

use crate::mcp_server::McpRequest;

verus! {

#[verifier::external_type_specification]
#[verifier::external_body]
pub struct ExJsonError(serde_json::Error);

/// The lowercase hexadecimal digit `d`, for `d < 16`.
pub open spec fn hex_digit(d: nat) -> char {
    seq!['0', '1', '2', '3', '4', '5', '6', '7', '8', '9', 'a', 'b', 'c', 'd', 'e', 'f'][d as int]
}

/// How one character is written inside a JSON string literal: quote and
/// backslash escaped, the five control characters that have a short escape
/// written with it, every other control character as `\u00xx`, and
/// everything else as it is.
pub open spec fn escaped_char(c: char) -> Seq<char> {
    if c == '"' {
        seq!['\\', '"']
    } else if c == '\\' {
        seq!['\\', '\\']
    } else if c == '\u{8}' {
        seq!['\\', 'b']
    } else if c == '\t' {
        seq!['\\', 't']
    } else if c == '\n' {
        seq!['\\', 'n']
    } else if c == '\u{c}' {
        seq!['\\', 'f']
    } else if c == '\r' {
        seq!['\\', 'r']
    } else if (c as u32) < 32 {
        seq!['\\', 'u', '0', '0', hex_digit((c as u32 / 16) as nat), hex_digit((c as u32 % 16) as nat)]
    } else {
        seq![c]
    }
}

/// The characters of `s`, each written as [`escaped_char`] says.
pub open spec fn escaped(s: Seq<char>) -> Seq<char>
    decreases s.len(),
{
    if s.len() == 0 {
        Seq::empty()
    } else {
        escaped(s.drop_last()) + escaped_char(s.last())
    }
}

/// The JSON string literal that stands for `s`: its escaped characters
/// between double quotes.
pub open spec fn json_quoted(s: Seq<char>) -> Seq<char> {
    seq!['"'] + escaped(s) + seq!['"']
}

/// Relies on `serde_json::to_string` applied to a `str`: the result is the
/// JSON string literal for it, escaped by serde_json's escape table as
/// [`escaped_char`] states. Serializing a `str` writes into a `Vec<u8>`,
/// which cannot fail, so the result is always `Ok`.
#[verifier::external_body]
fn to_json_string(s: &str) -> (r: Result<String, serde_json::Error>)
    ensures
        r is Ok,
        r matches Ok(t) ==> t@ == json_quoted(s@),
{
    serde_json::to_string(s)
}

/// The JSON string literal for `s`.
pub fn json_string(s: &str) -> (r: String)
    ensures
        r@ == json_quoted(s@),
{
    match to_json_string(s) {
        Ok(t) => t,
        Err(_) => String::new(),
    }
}

/// The decimal digit `d`, for `d < 10`.
pub open spec fn digit_char(d: nat) -> char {
    seq!['0', '1', '2', '3', '4', '5', '6', '7', '8', '9'][d as int]
}

/// The decimal notation of `n`, without sign or leading zeros.
pub open spec fn decimal_text(n: nat) -> Seq<char>
    decreases n,
{
    if n < 10 {
        seq![digit_char(n)]
    } else {
        decimal_text(n / 10).push(digit_char(n % 10))
    }
}

/// The one-character text of the decimal digit `d`.
fn digit_text(d: u64) -> (r: &'static str)
    requires
        d < 10,
    ensures
        r@ == seq![digit_char(d as nat)],
{
    proof {
        reveal_strlit("0");
        reveal_strlit("1");
        reveal_strlit("2");
        reveal_strlit("3");
        reveal_strlit("4");
        reveal_strlit("5");
        reveal_strlit("6");
        reveal_strlit("7");
        reveal_strlit("8");
        reveal_strlit("9");
    }
    let r = if d == 0 {
        "0"
    } else if d == 1 {
        "1"
    } else if d == 2 {
        "2"
    } else if d == 3 {
        "3"
    } else if d == 4 {
        "4"
    } else if d == 5 {
        "5"
    } else if d == 6 {
        "6"
    } else if d == 7 {
        "7"
    } else if d == 8 {
        "8"
    } else {
        "9"
    };
    assert(r@ =~= seq![digit_char(d as nat)]);
    r
}

/// The decimal notation of `n`, but empty for 0: the digits that stand
/// before the last one of a number `10 * n + d`.
pub open spec fn leading_digits(n: nat) -> Seq<char> {
    if n == 0 {
        Seq::empty()
    } else {
        decimal_text(n)
    }
}

/// The decimal notation of `n`.
pub fn decimal_string(n: u64) -> (r: String)
    ensures
        r@ == decimal_text(n as nat),
{
    let mut t = String::from_str(digit_text(n % 10));
    let mut m: u64 = n / 10;
    assert(decimal_text(n as nat) =~= leading_digits(m as nat) + t@);
    while m > 0
        invariant
            decimal_text(n as nat) == leading_digits(m as nat) + t@,
        decreases m,
    {
        let d = String::from_str(digit_text(m % 10));
        let ghost before = t@;
        t = d.concat(t.as_str());
        assert(leading_digits(m as nat) =~= leading_digits((m / 10) as nat) + seq![digit_char((m % 10) as nat)]);
        m = m / 10;
        assert(decimal_text(n as nat) =~= leading_digits(m as nat) + t@);
    }
    t
}

/// The text of a request line: a JSON-RPC 2.0 request object followed by a
/// newline. `params` is JSON text and is written as it is.
pub open spec fn request_line(id: u64, method: Seq<char>, params: Option<Seq<char>>) -> Seq<char> {
    let head = "{\"jsonrpc\":\"2.0\",\"id\":"@ + decimal_text(id as nat) + ",\"method\":"@
        + json_quoted(method);
    let body = match params {
        Some(p) => head + ",\"params\":"@ + p,
        None => head,
    };
    body + "}\n"@
}

/// The line that carries `req` to the server.
pub fn encode_request(req: &McpRequest) -> (r: String)
    ensures
        r@ == request_line(
            req.id,
            req.method@,
            match req.params {
                Some(p) => Some(p@),
                None => None,
            },
        ),
{
    let s = String::from_str("{\"jsonrpc\":\"2.0\",\"id\":");
    let id = decimal_string(req.id);
    let s = s.concat(id.as_str());
    let s = s.concat(",\"method\":");
    let m = json_string(req.method.as_str());
    let mut s = s.concat(m.as_str());
    match &req.params {
        Some(p) => {
            s = s.concat(",\"params\":");
            s = s.concat(p.as_str());
        },
        None => {},
    }
    s.concat("}\n")
}

/// The params of a `tools/call` request: the tool's name and its arguments
/// (JSON text, written as it is).
pub open spec fn tool_call_params(name: Seq<char>, arguments: Seq<char>) -> Seq<char> {
    "{\"name\":"@ + json_quoted(name) + ",\"arguments\":"@ + arguments + "}"@
}

/// The params of a `tools/call` request.
pub fn encode_tool_call_params(name: &str, arguments: &str) -> (r: String)
    ensures
        r@ == tool_call_params(name@, arguments@),
{
    let s = String::from_str("{\"name\":");
    let q = json_string(name);
    let s = s.concat(q.as_str());
    let s = s.concat(",\"arguments\":");
    let s = s.concat(arguments);
    s.concat("}")
}

/// The params of a request about one resource.
pub open spec fn uri_params(uri: Seq<char>) -> Seq<char> {
    "{\"uri\":"@ + json_quoted(uri) + "}"@
}

/// The params of a request about one resource.
pub fn encode_uri_params(uri: &str) -> (r: String)
    ensures
        r@ == uri_params(uri@),
{
    let s = String::from_str("{\"uri\":");
    let q = json_string(uri);
    let s = s.concat(q.as_str());
    s.concat("}")
}

/// The line feed that ends every frame.
pub const FRAME_END: u8 = 10;

/// Cutting state after reading `bytes`, starting from complete frames
/// `state.0` and an unfinished frame `state.1`: every line feed closes the
/// unfinished frame (without the line feed) and starts a new one.
pub open spec fn cut_frames(state: (Seq<Seq<u8>>, Seq<u8>), bytes: Seq<u8>) -> (
    Seq<Seq<u8>>,
    Seq<u8>,
)
    decreases bytes.len(),
{
    if bytes.len() == 0 {
        state
    } else {
        let (done, open) = cut_frames(state, bytes.drop_last());
        if bytes.last() == FRAME_END {
            (done.push(open), Seq::empty())
        } else {
            (done, open.push(bytes.last()))
        }
    }
}

/// The views of a list of byte buffers.
pub open spec fn byte_views(v: Seq<Vec<u8>>) -> Seq<Seq<u8>> {
    v.map_values(|b: Vec<u8>| b@)
}

/// Cuts a server's output stream into frames, however the bytes arrive.
pub struct LineFramer {
    partial: Vec<u8>,
}

impl LineFramer {
    /// The bytes of the frame that is not finished yet.
    pub closed spec fn pending(&self) -> Seq<u8> {
        self.partial@
    }

    /// A framer that has seen nothing.
    pub fn new() -> (r: Self)
        ensures
            r.pending().len() == 0,
    {
        LineFramer { partial: Vec::new() }
    }

    /// Takes the next bytes of the stream and returns the frames they
    /// complete, in order, without their line feeds; the rest waits for
    /// more bytes.
    pub fn push(&mut self, bytes: &[u8]) -> (r: Vec<Vec<u8>>)
        ensures
            (byte_views(r@), final(self).pending()) == cut_frames(
                (Seq::empty(), old(self).pending()),
                bytes@,
            ),
    {
        let mut done: Vec<Vec<u8>> = Vec::new();
        let mut open: Vec<u8> = Vec::new();
        core::mem::swap(&mut open, &mut self.partial);
        let ghost start = open@;
        let mut i: usize = 0;
        while i < bytes.len()
            invariant
                i <= bytes@.len(),
                start == old(self).partial@,
                (byte_views(done@), open@) == cut_frames(
                    (Seq::empty(), start),
                    bytes@.subrange(0, i as int),
                ),
            decreases bytes@.len() - i,
        {
            proof {
                assert(bytes@.subrange(0, i as int + 1).drop_last() =~= bytes@.subrange(0, i as int));
            }
            let b = bytes[i];
            if b == FRAME_END {
                let ghost before = done@;
                let mut frame: Vec<u8> = Vec::new();
                core::mem::swap(&mut frame, &mut open);
                done.push(frame);
                assert(byte_views(done@) =~= byte_views(before).push(frame@));
                assert(open@ =~= Seq::<u8>::empty());
            } else {
                open.push(b);
            }
            i = i + 1;
        }
        proof {
            assert(bytes@.subrange(0, i as int) =~= bytes@);
        }
        self.partial = open;
        done
    }
}

} // verus!
