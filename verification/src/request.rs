//! Framing the completion request: JSON string escaping and the exact
//! payload text, with the gateway's fixed sampling parameters.

use vstd::prelude::*;
use vstd::string::StrSliceExecFns;
use vstd::string::StringExecFns;
use crate::text::push_char;

verus! {

/// The lowercase hexadecimal digit of a value below sixteen.
pub open spec fn spec_hex_digit(n: int) -> char {
    if n == 0 {
        '0'
    } else if n == 1 {
        '1'
    } else if n == 2 {
        '2'
    } else if n == 3 {
        '3'
    } else if n == 4 {
        '4'
    } else if n == 5 {
        '5'
    } else if n == 6 {
        '6'
    } else if n == 7 {
        '7'
    } else if n == 8 {
        '8'
    } else if n == 9 {
        '9'
    } else if n == 10 {
        'a'
    } else if n == 11 {
        'b'
    } else if n == 12 {
        'c'
    } else if n == 13 {
        'd'
    } else if n == 14 {
        'e'
    } else {
        'f'
    }
}

fn hex_digit(n: u32) -> (c: char)
    requires
        n < 16,
    ensures
        c == spec_hex_digit(n as int),
{
    if n == 0 {
        '0'
    } else if n == 1 {
        '1'
    } else if n == 2 {
        '2'
    } else if n == 3 {
        '3'
    } else if n == 4 {
        '4'
    } else if n == 5 {
        '5'
    } else if n == 6 {
        '6'
    } else if n == 7 {
        '7'
    } else if n == 8 {
        '8'
    } else if n == 9 {
        '9'
    } else if n == 10 {
        'a'
    } else if n == 11 {
        'b'
    } else if n == 12 {
        'c'
    } else if n == 13 {
        'd'
    } else if n == 14 {
        'e'
    } else {
        'f'
    }
}

/// How one character appears inside a JSON string literal: quote, backslash
/// and the common control characters get two-character escapes, the other
/// control characters a `\u00XX` escape, and every other character stands
/// as itself.
pub open spec fn spec_escape_char(c: char) -> Seq<char> {
    if c == '"' {
        "\\\""@
    } else if c == '\\' {
        "\\\\"@
    } else if c == '\n' {
        "\\n"@
    } else if c == '\r' {
        "\\r"@
    } else if c == '\t' {
        "\\t"@
    } else if (c as u32) < 32 {
        "\\u00"@ + seq![spec_hex_digit((c as u32 / 16) as int), spec_hex_digit((c as u32 % 16) as int)]
    } else {
        seq![c]
    }
}

/// The body of a JSON string literal holding the given text.
pub open spec fn spec_json_escape(s: Seq<char>) -> Seq<char>
    decreases s.len(),
{
    if s.len() == 0 {
        Seq::empty()
    } else {
        spec_json_escape(s.drop_last()) + spec_escape_char(s.last())
    }
}

/// Escapes text for inclusion inside a JSON string literal.
pub fn json_escape(s: &str) -> (r: String)
    ensures
        r@ == spec_json_escape(s@),
{
    let n: usize = s.unicode_len();
    let mut out: String = String::new();
    let mut i: usize = 0;
    while i < n
        invariant
            i <= n,
            n == s@.len(),
            out@ == spec_json_escape(s@.subrange(0, i as int)),
        decreases n - i,
    {
        let ghost prev = out@;
        let c = s.get_char(i);
        if c == '"' {
            out.append("\\\"");
        } else if c == '\\' {
            out.append("\\\\");
        } else if c == '\n' {
            out.append("\\n");
        } else if c == '\r' {
            out.append("\\r");
        } else if c == '\t' {
            out.append("\\t");
        } else if (c as u32) < 32 {
            let v: u32 = c as u32;
            out.append("\\u00");
            let hi = hex_digit(v / 16);
            let lo = hex_digit(v % 16);
            push_char(&mut out, hi);
            push_char(&mut out, lo);
        } else {
            push_char(&mut out, c);
        }
        proof {
            assert(out@ =~= prev + spec_escape_char(s@[i as int]));
            assert(s@.subrange(0, i + 1).drop_last() =~= s@.subrange(0, i as int));
            assert(s@.subrange(0, i + 1).last() == s@[i as int]);
        }
        i = i + 1;
    }
    proof {
        assert(s@.subrange(0, n as int) =~= s@);
    }
    out
}

/// The exact completion-request payload for a rendered prompt: the escaped
/// prompt and the gateway's fixed sampling parameters — at most 512 generated
/// tokens, temperature 0.7, nucleus-sampling threshold 0.9, and the stop
/// sequences `User:` and a blank line.
pub open spec fn spec_request_body(prompt: Seq<char>) -> Seq<char> {
    "{\"prompt\":\""@ + spec_json_escape(prompt)
        + "\",\"n_predict\":512,\"temperature\":0.7,\"top_p\":0.9,\"stop\":[\"User:\",\"\\n\\n\"]}"@
}

/// Frames the completion request that is submitted to the completion
/// service for the given rendered prompt.
pub fn build_request_body(prompt: &str) -> (r: String)
    ensures
        r@ == spec_request_body(prompt@),
{
    let mut out: String = String::new();
    out.append("{\"prompt\":\"");
    let esc = json_escape(prompt);
    out.append(esc.as_str());
    out.append("\",\"n_predict\":512,\"temperature\":0.7,\"top_p\":0.9,\"stop\":[\"User:\",\"\\n\\n\"]}");
    proof {
        assert(out@ =~= spec_request_body(prompt@));
    }
    out
}

} // verus!
