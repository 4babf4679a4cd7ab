//! Relaying a conversation to the remote chat-completion API.
//!
//! The library decides everything that does not touch the network:
//! whether the call may proceed at all (the credential must be
//! present), the exact bytes of the request body, and what reply a
//! response text yields.  Sending the request is left to the caller.

use vstd::prelude::*;
use vstd::slice::slice_index_get;
use vstd::string::StringSliceAdditionalSpecFns;
use vstd::utf8::encode_utf8;

verus! {

/// One role/content pair of the conversation, kept in the order
/// received and forwarded verbatim.
pub struct ChatMessage {
    pub role: String,
    pub content: String,
}

/// An outbound chat-completion call, ready to send: the fixed
/// endpoint, the bearer credential, and the JSON body bytes.
pub struct ChatRequest {
    pub url: String,
    pub api_key: String,
    pub body: Vec<u8>,
}

/// The lower-case hex digit for a value below sixteen.
pub open spec fn hex_digit(n: u8) -> u8
    recommends
        n < 16,
{
    if n < 10 {
        (48 + n) as u8
    } else {
        (87 + n) as u8
    }
}

/// How one byte of a string appears inside a JSON string literal:
/// quote and backslash get a backslash escape, the named control
/// characters their short escapes, the remaining control bytes a
/// \u00XX escape, and every other byte stands as itself.  Bytes of a
/// multi-byte UTF-8 character are all above the control range, so
/// escaping byte by byte leaves them untouched.
pub open spec fn escaped_byte(b: u8) -> Seq<u8> {
    if b == 34 {  // quote
        seq![92u8, 34u8]
    } else if b == 92 {  // backslash
        seq![92u8, 92u8]
    } else if b == 8 {  // backspace
        seq![92u8, 98u8]
    } else if b == 9 {  // tab
        seq![92u8, 116u8]
    } else if b == 10 {  // newline
        seq![92u8, 110u8]
    } else if b == 12 {  // form feed
        seq![92u8, 102u8]
    } else if b == 13 {  // carriage return
        seq![92u8, 114u8]
    } else if b < 32 {
        seq![92u8, 117u8, 48u8, 48u8, hex_digit(b / 16), hex_digit(b % 16)]
    } else {
        seq![b]
    }
}

/// A byte sequence escaped for use inside a JSON string literal.
pub open spec fn escaped_bytes(s: Seq<u8>) -> Seq<u8>
    decreases s.len(),
{
    if s.len() == 0 {
        Seq::empty()
    } else {
        escaped_byte(s.first()) + escaped_bytes(s.drop_first())
    }
}

/// The JSON object for one message: role and content as escaped
/// string literals, in that order.
pub open spec fn message_bytes(m: ChatMessage) -> Seq<u8> {
    "{\"role\":\"".spec_bytes() + escaped_bytes(encode_utf8(m.role@)) + "\",\"content\":\"".spec_bytes()
        + escaped_bytes(encode_utf8(m.content@)) + "\"}".spec_bytes()
}

/// The JSON array elements for a message sequence, comma separated,
/// order preserved.
pub open spec fn messages_bytes(ms: Seq<ChatMessage>) -> Seq<u8>
    decreases ms.len(),
{
    if ms.len() == 0 {
        Seq::empty()
    } else if ms.len() == 1 {
        message_bytes(ms[0])
    } else {
        messages_bytes(ms.drop_last()) + ",".spec_bytes() + message_bytes(ms.last())
    }
}

/// The whole request body: the fixed model identifier and the
/// messages array.
pub open spec fn chat_body_bytes(ms: Seq<ChatMessage>) -> Seq<u8> {
    "{\"model\":\"gpt-4o-mini\",\"messages\":[".spec_bytes() + messages_bytes(ms)
        + "]}".spec_bytes()
}

/// Escaping distributes over concatenation.
proof fn lemma_escaped_bytes_append(a: Seq<u8>, b: Seq<u8>)
    ensures
        escaped_bytes(a + b) == escaped_bytes(a) + escaped_bytes(b),
    decreases a.len(),
{
    if a.len() == 0 {
        assert(a + b =~= b);
        assert(escaped_bytes(a) + escaped_bytes(b) =~= escaped_bytes(b));
    } else {
        assert((a + b).drop_first() =~= a.drop_first() + b);
        lemma_escaped_bytes_append(a.drop_first(), b);
        assert((a + b).first() == a.first());
        assert(escaped_bytes(a + b) =~= escaped_bytes(a) + escaped_bytes(b));
    }
}

/// Escaping one more byte appends that byte's escape.
proof fn lemma_escaped_bytes_snoc(s: Seq<u8>, i: int)
    requires
        0 <= i < s.len(),
    ensures
        escaped_bytes(s.take(i + 1)) == escaped_bytes(s.take(i)) + escaped_byte(s[i]),
{
    assert(s.take(i + 1) =~= s.take(i) + seq![s[i]]);
    lemma_escaped_bytes_append(s.take(i), seq![s[i]]);
    assert(seq![s[i]].drop_first() =~= Seq::<u8>::empty());
    assert(escaped_bytes(Seq::<u8>::empty()) =~= Seq::<u8>::empty());
    assert(seq![s[i]].first() == s[i]);
    assert(escaped_bytes(seq![s[i]]) == escaped_byte(s[i]) + escaped_bytes(
        seq![s[i]].drop_first(),
    ));
    assert(escaped_byte(s[i]) + Seq::<u8>::empty() =~= escaped_byte(s[i]));
}

/// One more message extends the array text by a separator (after the
/// first) and that message's object.
proof fn lemma_messages_bytes_snoc(ms: Seq<ChatMessage>, i: int)
    requires
        0 <= i < ms.len(),
    ensures
        i == 0 ==> messages_bytes(ms.take(1)) == message_bytes(ms[0]),
        i > 0 ==> messages_bytes(ms.take(i + 1)) == messages_bytes(ms.take(i)) + ",".spec_bytes()
            + message_bytes(ms[i]),
{
    assert(ms.take(i + 1).drop_last() =~= ms.take(i));
    assert(ms.take(i + 1).last() == ms[i]);
}

/// Appends a byte slice verbatim.
fn push_bytes(out: &mut Vec<u8>, s: &[u8])
    ensures
        final(out)@ == old(out)@ + s@,
{
    let n = s.len();
    let mut i: usize = 0;
    while i < n
        invariant
            i <= n,
            n == s@.len(),
            out@ == old(out)@ + s@.take(i as int),
        decreases n - i,
    {
        let b = *slice_index_get(s, i);
        out.push(b);
        assert(out@ =~= old(out)@ + s@.take(i + 1));
        i = i + 1;
    }
    assert(s@.take(n as int) =~= s@);
}

/// Appends a string's bytes escaped for a JSON string literal.
fn push_escaped(out: &mut Vec<u8>, s: &str)
    ensures
        final(out)@ == old(out)@ + escaped_bytes(s.spec_bytes()),
{
    let bytes = s.as_bytes();
    let ghost t = s.spec_bytes();
    let n = bytes.len();
    let mut i: usize = 0;
    while i < n
        invariant
            i <= n,
            n == t.len(),
            bytes@ == t,
            out@ == old(out)@ + escaped_bytes(t.take(i as int)),
        decreases n - i,
    {
        let b = *slice_index_get(bytes, i);
        if b == 34 {
            out.push(92);
            out.push(34);
        } else if b == 92 {
            out.push(92);
            out.push(92);
        } else if b == 8 {
            out.push(92);
            out.push(98);
        } else if b == 9 {
            out.push(92);
            out.push(116);
        } else if b == 10 {
            out.push(92);
            out.push(110);
        } else if b == 12 {
            out.push(92);
            out.push(102);
        } else if b == 13 {
            out.push(92);
            out.push(114);
        } else if b < 32 {
            let hi = b / 16;
            let lo = b % 16;
            out.push(92);
            out.push(117);
            out.push(48);
            out.push(48);
            out.push(if hi < 10 { 48 + hi } else { 87 + hi });
            out.push(if lo < 10 { 48 + lo } else { 87 + lo });
        } else {
            out.push(b);
        }
        proof {
            lemma_escaped_bytes_snoc(t, i as int);
            assert(out@ =~= old(out)@ + escaped_bytes(t.take(i + 1)));
        }
        i = i + 1;
    }
    assert(t.take(n as int) =~= t);
}

/// Appends one message's JSON object.
fn push_message(out: &mut Vec<u8>, m: &ChatMessage)
    ensures
        final(out)@ == old(out)@ + message_bytes(*m),
{
    push_bytes(out, "{\"role\":\"".as_bytes());
    push_escaped(out, m.role.as_str());
    push_bytes(out, "\",\"content\":\"".as_bytes());
    push_escaped(out, m.content.as_str());
    push_bytes(out, "\"}".as_bytes());
    assert(out@ =~= old(out)@ + message_bytes(*m));
}

/// Builds the request body: the fixed model identifier, then the
/// message sequence verbatim, as JSON text in UTF-8 bytes.
pub fn chat_body(messages: &Vec<ChatMessage>) -> (r: Vec<u8>)
    ensures
        r@ == chat_body_bytes(messages@),
{
    let mut out: Vec<u8> = Vec::new();
    push_bytes(&mut out, "{\"model\":\"gpt-4o-mini\",\"messages\":[".as_bytes());
    let ghost pre = out@;
    let n = messages.len();
    let mut i: usize = 0;
    while i < n
        invariant
            i <= n,
            n == messages@.len(),
            out@ == pre + messages_bytes(messages@.take(i as int)),
        decreases n - i,
    {
        if i > 0 {
            push_bytes(&mut out, ",".as_bytes());
        }
        push_message(&mut out, &messages[i]);
        proof {
            lemma_messages_bytes_snoc(messages@, i as int);
            assert(out@ =~= pre + messages_bytes(messages@.take(i + 1)));
        }
        i = i + 1;
    }
    push_bytes(&mut out, "]}".as_bytes());
    proof {
        assert(messages@.take(n as int) =~= messages@);
        assert(out@ =~= chat_body_bytes(messages@));
    }
    out
}

/// The fixed remote endpoint.
pub open spec fn chat_endpoint_text() -> Seq<char> {
    "https://api.openai.com/v1/chat/completions"@
}

/// The error reported when the credential is absent.
pub open spec fn missing_key_text() -> Seq<char> {
    "Missing OPENAI_API_KEY"@
}

/// Decides whether the chat call may proceed.  Without the
/// credential it fails at once with the configuration error, before
/// any request exists to send; with it, the outbound call is fully
/// determined: fixed endpoint, the credential as bearer token, and
/// the body built from the messages verbatim.
pub fn chat_request(messages: &Vec<ChatMessage>, api_key: Option<String>) -> (r: Result<
    ChatRequest,
    String,
>)
    ensures
        api_key is None ==> (r matches Err(e) && e@ == missing_key_text()),
        api_key matches Some(k) ==> (r matches Ok(q) && q.url@ == chat_endpoint_text()
            && q.api_key@ == k@ && q.body@ == chat_body_bytes(messages@)),
{
    match api_key {
        None => Err(String::from_str("Missing OPENAI_API_KEY")),
        Some(k) => Ok(
            ChatRequest {
                url: String::from_str("https://api.openai.com/v1/chat/completions"),
                api_key: k,
                body: chat_body(messages),
            },
        ),
    }
}

/// Whether serde_json accepts a text as a JSON document; a function
/// of the text alone.
pub uninterp spec fn json_parses(s: Seq<char>) -> bool;

/// The message of the error serde_json reports for a text it
/// refuses; a function of the text alone.
pub uninterp spec fn json_error_text(s: Seq<char>) -> Seq<char>;

/// The first completion's message content in a decoded response: the
/// string under choices[0].message.content, when the document has a
/// string there; a function of the text alone.
pub uninterp spec fn json_content_of(s: Seq<char>) -> Option<Seq<char>>;

/// Relies on serde_json::from_str and Value's get/as_str accessors:
/// decoding succeeds or fails on the text alone, and on failure the
/// error's message is carried over; on success the lookup walks
/// choices, its first element, message, content, and hands out that
/// value's string content, if each step is there.
#[verifier::external_body]
fn parse_content(s: &str) -> (r: Result<Option<String>, String>)
    ensures
        r is Ok <==> json_parses(s@),
        r matches Err(e) ==> e@ == json_error_text(s@),
        r matches Ok(c) ==> (match json_content_of(s@) {
            Some(u) => c matches Some(v) && v@ == u,
            None => c is None,
        }),
{
    match serde_json::from_str::<serde_json::Value>(s) {
        Err(e) => Err(e.to_string()),
        Ok(v) => Ok(
            v.get("choices")
                .and_then(|choices| choices.get(0))
                .and_then(|first| first.get("message"))
                .and_then(|message| message.get("content"))
                .and_then(|content| content.as_str())
                .map(|text| text.to_string()),
        ),
    }
}

/// The fallback reply for a response that carries no content.
pub open spec fn no_content_text() -> Seq<char> {
    "[no content]"@
}

/// The reply a decoded response yields: the extracted content when
/// there is one, and the literal fallback rather than a failure when
/// there is none.
pub fn reply_or_default(content: Option<String>) -> (r: String)
    ensures
        content matches Some(s) ==> r == s,
        content is None ==> r@ == no_content_text(),
{
    match content {
        Some(s) => s,
        None => String::from_str("[no content]"),
    }
}

/// The reply the response text yields.  A text the JSON decoder
/// refuses is the one failure, carrying the decoder's message; a
/// text it accepts always yields a reply, the first completion's
/// message content when the response has one and the literal
/// fallback otherwise.
pub fn reply_from_response(text: &str) -> (r: Result<String, String>)
    ensures
        r is Ok <==> json_parses(text@),
        r matches Err(e) ==> e@ == json_error_text(text@),
        r matches Ok(v) ==> v@ == (match json_content_of(text@) {
            Some(u) => u,
            None => no_content_text(),
        }),
{
    match parse_content(text) {
        Err(e) => Err(e),
        Ok(content) => Ok(reply_or_default(content)),
    }
}

} // verus!
