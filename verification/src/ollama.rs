//! Protocol layer for the local model endpoint: rendering the generation
//! request body and decoding the `{response, done}` JSON objects the endpoint
//! answers with. The HTTP transport itself lives outside the library.

use vstd::prelude::*;
use crate::text::dec_rep;
use crate::text::digit_char;
use crate::text::push_char;
use crate::text::u64_to_string;

verus! {

/// Failures of the non-streaming generation path. Transport and decode
/// details arrive as plain text from the caller that performed the request.
#[derive(Debug, Clone)]
pub enum OllamaError {
    RequestError(String),
    NotAvailable,
    InvalidResponse(String),
}

/// How a character is written inside a JSON string literal.
pub open spec fn json_escape_char(c: char) -> Seq<char> {
    if c == '"' {
        seq!['\\', '"']
    } else if c == '\\' {
        seq!['\\', '\\']
    } else if c == '\n' {
        seq!['\\', 'n']
    } else if c == '\r' {
        seq!['\\', 'r']
    } else if c == '\t' {
        seq!['\\', 't']
    } else if (c as int) < 0x20 {
        seq!['\\', 'u', '0', '0', hex_char(c as int / 16), hex_char(c as int % 16)]
    } else {
        seq![c]
    }
}

/// The hexadecimal digit for a value below sixteen.
pub open spec fn hex_char(d: int) -> char {
    if d < 10 {
        digit_char(d)
    } else if d == 10 {
        'a'
    } else if d == 11 {
        'b'
    } else if d == 12 {
        'c'
    } else if d == 13 {
        'd'
    } else if d == 14 {
        'e'
    } else {
        'f'
    }
}

/// The body of a JSON string literal for the given text.
pub open spec fn json_escape(s: Seq<char>) -> Seq<char>
    decreases s.len(),
{
    if s.len() == 0 {
        Seq::empty()
    } else {
        json_escape(s.drop_last()) + json_escape_char(s.last())
    }
}

fn hex_of(d: u32) -> (c: char)
    requires
        d < 16,
    ensures
        c == hex_char(d as int),
{
    if d == 0 {
        '0'
    } else if d == 1 {
        '1'
    } else if d == 2 {
        '2'
    } else if d == 3 {
        '3'
    } else if d == 4 {
        '4'
    } else if d == 5 {
        '5'
    } else if d == 6 {
        '6'
    } else if d == 7 {
        '7'
    } else if d == 8 {
        '8'
    } else if d == 9 {
        '9'
    } else if d == 10 {
        'a'
    } else if d == 11 {
        'b'
    } else if d == 12 {
        'c'
    } else if d == 13 {
        'd'
    } else if d == 14 {
        'e'
    } else {
        'f'
    }
}

fn push_escaped_char(s: &mut String, c: char)
    ensures
        final(s)@ == old(s)@ + json_escape_char(c),
{
    let ghost s0 = s@;
    if c == '"' {
        push_char(s, '\\');
        push_char(s, '"');
        assert(s@ =~= s0 + json_escape_char(c));
    } else if c == '\\' {
        push_char(s, '\\');
        push_char(s, '\\');
        assert(s@ =~= s0 + json_escape_char(c));
    } else if c == '\n' {
        push_char(s, '\\');
        push_char(s, 'n');
        assert(s@ =~= s0 + json_escape_char(c));
    } else if c == '\r' {
        push_char(s, '\\');
        push_char(s, 'r');
        assert(s@ =~= s0 + json_escape_char(c));
    } else if c == '\t' {
        push_char(s, '\\');
        push_char(s, 't');
        assert(s@ =~= s0 + json_escape_char(c));
    } else if (c as u32) < 0x20 {
        push_char(s, '\\');
        push_char(s, 'u');
        push_char(s, '0');
        push_char(s, '0');
        push_char(s, hex_of((c as u32) / 16));
        push_char(s, hex_of((c as u32) % 16));
        assert(s@ =~= s0 + json_escape_char(c));
    } else {
        push_char(s, c);
        assert(s@ =~= s0 + json_escape_char(c));
    }
}

fn push_escaped(s: &mut String, text: &str)
    ensures
        final(s)@ == old(s)@ + json_escape(text@),
{
    let n = text.unicode_len();
    let mut i: usize = 0;
    proof {
        assert(text@.subrange(0, 0) =~= Seq::<char>::empty());
        assert(s@ + json_escape(text@.subrange(0, 0)) =~= s@);
    }
    while i < n
        invariant
            0 <= i <= n,
            n == text@.len(),
            s@ == old(s)@ + json_escape(text@.subrange(0, i as int)),
        decreases n - i,
    {
        let c = text.get_char(i);
        push_escaped_char(s, c);
        proof {
            let pre = text@.subrange(0, i as int);
            let post = text@.subrange(0, i + 1 as int);
            assert(post.drop_last() =~= pre);
            assert(post.last() == c);
            assert(old(s)@ + json_escape(pre) + json_escape_char(c) =~= old(s)@ + (json_escape(pre)
                + json_escape_char(c)));
        }
        i = i + 1;
    }
    proof {
        assert(text@.subrange(0, n as int) =~= text@);
    }
}

/// The request document sent to the generation endpoint: model, prompt,
/// streaming flag, and the fixed sampling options.
pub open spec fn spec_generate_request(
    model: Seq<char>,
    prompt: Seq<char>,
    stream: bool,
    temperature_tenths: int,
    num_predict: int,
) -> Seq<char> {
    "{\"model\":\""@ + json_escape(model) + "\",\"prompt\":\""@ + json_escape(prompt)
        + "\",\"stream\":"@ + (if stream {
        "true"@
    } else {
        "false"@
    }) + ",\"options\":{\"temperature\":"@ + seq!['0', '.'] + dec_rep(temperature_tenths as nat)
        + ",\"num_predict\":"@ + dec_rep(num_predict as nat) + "}}"@
}

/// Renders the generation request body. The temperature is given in tenths,
/// so that `7` renders as `0.7`.
pub fn render_generate_request(
    model: &str,
    prompt: &str,
    stream: bool,
    temperature_tenths: u64,
    num_predict: u64,
) -> (r: String)
    requires
        temperature_tenths <= 9,
    ensures
        r@ == spec_generate_request(
            model@,
            prompt@,
            stream,
            temperature_tenths as int,
            num_predict as int,
        ),
{
    let mut s = String::from_str("{\"model\":\"");
    push_escaped(&mut s, model);
    s.append("\",\"prompt\":\"");
    push_escaped(&mut s, prompt);
    s.append("\",\"stream\":");
    if stream {
        s.append("true");
    } else {
        s.append("false");
    }
    s.append(",\"options\":{\"temperature\":");
    push_char(&mut s, '0');
    push_char(&mut s, '.');
    let tenths = u64_to_string(temperature_tenths);
    s.append(tenths.as_str());
    s.append(",\"num_predict\":");
    let predict = u64_to_string(num_predict);
    s.append(predict.as_str());
    s.append("}}");
    proof {
        assert(s@ =~= spec_generate_request(
            model@,
            prompt@,
            stream,
            temperature_tenths as int,
            num_predict as int,
        ));
    }
    s
}

/// The `response` text and `done` flag carried by one JSON object of the
/// endpoint's answer, or nothing when the text is not such an object.
pub uninterp spec fn line_fields(s: Seq<char>) -> Option<(Seq<char>, bool)>;

/// Relies on `serde_json::from_str::<Value>` and the `Value` accessors
/// `get`, `as_str` and `as_bool`: yields the `response` string and `done`
/// boolean of a JSON object, and nothing when the text is not a JSON object
/// carrying both fields. The outcome depends on the text alone.
#[verifier::external_body]
pub(crate) fn decode_line(line: &str) -> (r: Option<(String, bool)>)
    ensures
        (match (r, line_fields(line@)) {
            (Some(f), Some(g)) => f.0@ == g.0 && f.1 == g.1,
            (None, None) => true,
            _ => false,
        }),
{
    match serde_json::from_str::<serde_json::Value>(line) {
        Ok(v) => {
            let text = v.get("response").and_then(|x| x.as_str());
            let done = v.get("done").and_then(|x| x.as_bool());
            match (text, done) {
                (Some(t), Some(d)) => Some((t.to_string(), d)),
                _ => None,
            }
        },
        Err(_) => None,
    }
}

/// Configuration of the non-streaming generation path: where the endpoint
/// lives and which model it should run.
pub struct OllamaClient {
    pub base_url: String,
    pub model: String,
}

/// Sampling temperature in tenths used for dialogue generation; biases the
/// model toward deterministic phrasing.
pub const GENERATION_TEMPERATURE_TENTHS: u64 = 7;

/// Token budget for one generated reply.
pub const GENERATION_NUM_PREDICT: u64 = 256;

impl OllamaClient {
    pub fn new(model: &str) -> (r: Self)
        ensures
            r.base_url@ == "http://localhost:11434"@,
            r.model@ == model@,
    {
        OllamaClient { base_url: String::from_str("http://localhost:11434"), model: String::from_str(model) }
    }

    pub fn with_url(self, url: &str) -> (r: Self)
        ensures
            r.base_url@ == url@,
            r.model@ == self.model@,
    {
        OllamaClient { base_url: String::from_str(url), model: self.model }
    }

    /// The request body for one non-streaming generation of this client.
    pub fn request_body(&self, prompt: &str) -> (r: String)
        ensures
            r@ == spec_generate_request(
                self.model@,
                prompt@,
                false,
                GENERATION_TEMPERATURE_TENTHS as int,
                GENERATION_NUM_PREDICT as int,
            ),
    {
        render_generate_request(
            self.model.as_str(),
            prompt,
            false,
            GENERATION_TEMPERATURE_TENTHS,
            GENERATION_NUM_PREDICT,
        )
    }

    /// The `response` text of a completed non-streaming answer, or the
    /// undecodable payload as an `InvalidResponse` error.
    pub fn parse_response(&self, body: &str) -> (r: Result<String, OllamaError>)
        ensures
            (match (r, line_fields(body@)) {
                (Ok(text), Some(f)) => text@ == f.0,
                (Err(e), None) => e is InvalidResponse,
                _ => false,
            }),
    {
        match decode_line(body) {
            Some(f) => Ok(f.0),
            None => Err(OllamaError::InvalidResponse(String::from_str(body))),
        }
    }
}

impl Default for OllamaClient {
    fn default() -> (r: Self)
        ensures
            r.base_url@ == "http://localhost:11434"@,
            r.model@ == "llama3.2"@,
    {
        OllamaClient::new("llama3.2")
    }
}

} // verus!
