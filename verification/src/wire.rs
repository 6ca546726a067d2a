//! The JSON wire format: string escaping, the provider's request document,
//! and the client-facing reply document.
//!
//! The encoders are specified down to the exact character sequence, so a
//! caller knows the full bytes that leave the service: the provider request
//! carries the history, the one trailing user message, the system instruction
//! block, and the fixed generation parameters (1024 output tokens,
//! temperature 0.9, nucleus top-p 0.95), and nothing else.

use vstd::prelude::*;

use crate::model::ChatResponse;
use crate::provider::ProviderMessage;
use crate::provider::ProviderRequest;
use crate::provider::provider_role_tag;
use crate::provider::role_wire_tag;
use crate::text::decimal_rep;
use crate::text::digit_char;
use crate::text::push_char;
use crate::text::u64_to_string;
use vstd::string::StrSliceExecFns;
use vstd::string::StringExecFns;

verus! {

/// The character for one hexadecimal digit, lowercase.
pub open spec fn hex_char(d: nat) -> char {
    if d < 10 {
        digit_char(d)
    } else if d == 10 {
        'a'
    } else if d == 11 {
        'b'
    } else if d == 12 {
        'c'
    } else if d == 13 {
        'd'
    } else if d == 14 {
        'e'
    } else {
        'f'
    }
}

/// How one character appears inside a JSON string literal: quotes and
/// backslashes are escaped, the named control characters get their short
/// escapes, the remaining control characters a `\u00..` escape, and every
/// other character stands as itself.
pub open spec fn escape_char(c: char) -> Seq<char> {
    if c == '"' {
        seq!['\\', '"']
    } else if c == '\\' {
        seq!['\\', '\\']
    } else if c == '\u{8}' {
        seq!['\\', 'b']
    } else if c == '\u{c}' {
        seq!['\\', 'f']
    } else if c == '\n' {
        seq!['\\', 'n']
    } else if c == '\r' {
        seq!['\\', 'r']
    } else if c == '\t' {
        seq!['\\', 't']
    } else if (c as u32) < 0x20 {
        seq!['\\', 'u', '0', '0', hex_char(((c as u32) / 16) as nat), hex_char(
            ((c as u32) % 16) as nat,
        )]
    } else {
        seq![c]
    }
}

/// The body of a JSON string literal holding `s`.
pub open spec fn json_escaped(s: Seq<char>) -> Seq<char>
    decreases s.len(),
{
    if s.len() == 0 {
        Seq::empty()
    } else {
        escape_char(s[0]) + json_escaped(s.drop_first())
    }
}

fn hex_to_char(d: u32) -> (c: char)
    requires
        d < 16,
    ensures
        c == hex_char(d as nat),
{
    if d == 0 {
        '0'
    } else if d == 1 {
        '1'
    } else if d == 2 {
        '2'
    } else if d == 3 {
        '3'
    } else if d == 4 {
        '4'
    } else if d == 5 {
        '5'
    } else if d == 6 {
        '6'
    } else if d == 7 {
        '7'
    } else if d == 8 {
        '8'
    } else if d == 9 {
        '9'
    } else if d == 10 {
        'a'
    } else if d == 11 {
        'b'
    } else if d == 12 {
        'c'
    } else if d == 13 {
        'd'
    } else if d == 14 {
        'e'
    } else {
        'f'
    }
}

fn push_escaped(out: &mut String, c: char)
    ensures
        final(out)@ == old(out)@ + escape_char(c),
{
    if c == '"' {
        push_char(out, '\\');
        push_char(out, '"');
    } else if c == '\\' {
        push_char(out, '\\');
        push_char(out, '\\');
    } else if c == '\u{8}' {
        push_char(out, '\\');
        push_char(out, 'b');
    } else if c == '\u{c}' {
        push_char(out, '\\');
        push_char(out, 'f');
    } else if c == '\n' {
        push_char(out, '\\');
        push_char(out, 'n');
    } else if c == '\r' {
        push_char(out, '\\');
        push_char(out, 'r');
    } else if c == '\t' {
        push_char(out, '\\');
        push_char(out, 't');
    } else if (c as u32) < 0x20 {
        let code = c as u32;
        push_char(out, '\\');
        push_char(out, 'u');
        push_char(out, '0');
        push_char(out, '0');
        push_char(out, hex_to_char(code / 16));
        push_char(out, hex_to_char(code % 16));
    } else {
        push_char(out, c);
    }
    proof {
        assert(final(out)@ =~= old(out)@ + escape_char(c));
    }
}

/// Escapes `s` for use inside a JSON string literal.
pub fn json_escape(s: &str) -> (r: String)
    ensures
        r@ == json_escaped(s@),
{
    let n = s.unicode_len();
    let mut out = String::new();
    proof {
        assert(s@.skip(0) =~= s@);
    }
    for i in 0..n
        invariant
            n == s@.len(),
            json_escaped(s@) == out@ + json_escaped(s@.skip(i as int)),
    {
        let c = s.get_char(i);
        proof {
            assert(s@.skip(i as int).drop_first() =~= s@.skip(i + 1));
            assert(s@.skip(i as int)[0] == c);
        }
        push_escaped(&mut out, c);
        proof {
            assert(out@ + json_escaped(s@.skip(i + 1)) =~= json_escaped(s@));
        }
    }
    proof {
        assert(s@.skip(n as int) =~= Seq::<char>::empty());
        assert(out@ =~= json_escaped(s@));
    }
    out
}

/// One content entry of the provider request: a role tag and one text part.
pub open spec fn message_json(m: ProviderMessage) -> Seq<char> {
    "{\"role\":\""@ + provider_role_tag(m.role) + "\",\"parts\":[{\"text\":\""@ + json_escaped(
        m.text@,
    ) + "\"}]}"@
}

/// The comma-joined content entries of the provider request.
pub open spec fn contents_json(ms: Seq<ProviderMessage>) -> Seq<char>
    decreases ms.len(),
{
    if ms.len() == 0 {
        Seq::empty()
    } else if ms.len() == 1 {
        message_json(ms[0])
    } else {
        contents_json(ms.drop_last()) + seq![','] + message_json(ms.last())
    }
}

/// The full provider request document: the system-instruction block, the
/// content entries, and the fixed generation parameters.
pub open spec fn request_json(system: Seq<char>, ms: Seq<ProviderMessage>) -> Seq<char> {
    "{\"system_instruction\":{\"parts\":[{\"text\":\""@ + json_escaped(system)
        + "\"}]},\"contents\":["@ + contents_json(ms)
        + "],\"generationConfig\":{\"maxOutputTokens\":1024,\"temperature\":0.9,\"topP\":0.95}}"@
}

/// The client reply document for a given reply text and token count.
pub open spec fn chat_reply_json_of(text: Seq<char>, tokens: Option<u32>) -> Seq<char> {
    "{\"response\":\""@ + json_escaped(text) + "\",\"tokens_used\":"@ + (match tokens {
        Some(t) => decimal_rep(t as nat),
        None => "null"@,
    }) + "}"@
}

/// The client-facing reply document.
pub open spec fn chat_response_json(r: ChatResponse) -> Seq<char> {
    chat_reply_json_of(r.response@, r.tokens_used)
}

fn append_message_json(out: &mut String, m: &ProviderMessage)
    ensures
        final(out)@ == old(out)@ + message_json(*m),
{
    out.append("{\"role\":\"");
    out.append(role_wire_tag(&m.role));
    out.append("\",\"parts\":[{\"text\":\"");
    let esc = json_escape(m.text.as_str());
    out.append(esc.as_str());
    out.append("\"}]}");
    proof {
        assert(final(out)@ =~= old(out)@ + message_json(*m));
    }
}

fn encode_contents(ms: &Vec<ProviderMessage>) -> (r: String)
    ensures
        r@ == contents_json(ms@),
{
    let n = ms.len();
    let mut out = String::new();
    proof {
        assert(ms@.take(0) =~= Seq::<ProviderMessage>::empty());
    }
    for i in 0..n
        invariant
            n == ms@.len(),
            out@ == contents_json(ms@.take(i as int)),
    {
        if i > 0 {
            push_char(&mut out, ',');
        }
        append_message_json(&mut out, &ms[i]);
        proof {
            let taken = ms@.take(i + 1);
            assert(taken.drop_last() =~= ms@.take(i as int));
            assert(taken.last() == ms@[i as int]);
            assert(out@ =~= contents_json(taken));
        }
    }
    proof {
        assert(ms@.take(n as int) =~= ms@);
    }
    out
}

/// Renders the provider request as its exact JSON document.
pub fn encode_request(req: &ProviderRequest) -> (r: String)
    ensures
        r@ == request_json(req.system_instruction@, req.contents@),
{
    let mut out = String::from_str("{\"system_instruction\":{\"parts\":[{\"text\":\"");
    let esc = json_escape(req.system_instruction.as_str());
    out.append(esc.as_str());
    out.append("\"}]},\"contents\":[");
    let cs = encode_contents(&req.contents);
    out.append(cs.as_str());
    out.append("],\"generationConfig\":{\"maxOutputTokens\":1024,\"temperature\":0.9,\"topP\":0.95}}");
    proof {
        assert(out@ =~= request_json(req.system_instruction@, req.contents@));
    }
    out
}

/// Renders the client reply as its exact JSON document.
pub fn encode_chat_response(resp: &ChatResponse) -> (r: String)
    ensures
        r@ == chat_response_json(*resp),
{
    let mut out = String::from_str("{\"response\":\"");
    let esc = json_escape(resp.response.as_str());
    out.append(esc.as_str());
    out.append("\",\"tokens_used\":");
    match resp.tokens_used {
        Some(t) => {
            let num = u64_to_string(t as u64);
            out.append(num.as_str());
        },
        None => {
            out.append("null");
        },
    }
    out.append("}");
    proof {
        assert(out@ =~= chat_response_json(*resp));
    }
    out
}

} // verus!
