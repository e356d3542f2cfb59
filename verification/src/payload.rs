//! The claim request body: a fixed three-field JSON object, encoded by
//! verified code, with the string escaping JSON requires.

use vstd::prelude::*;
use vstd::string::*;

use crate::text::{hex_char, hex_exec, push_char};

verus! {

/// What one character contributes to a JSON string: quote and backslash
/// are escaped, the five control characters with short escapes use them,
/// any other control character is written as `\u00` and two hex digits,
/// and everything else stands as itself.
pub open spec fn escape_char(c: char) -> Seq<char> {
    if c == '"' {
        seq!['\\', '"']
    } else if c == '\\' {
        seq!['\\', '\\']
    } else if c == '\u{8}' {
        seq!['\\', 'b']
    } else if c == '\t' {
        seq!['\\', 't']
    } else if c == '\n' {
        seq!['\\', 'n']
    } else if c == '\u{c}' {
        seq!['\\', 'f']
    } else if c == '\r' {
        seq!['\\', 'r']
    } else if (c as u32) < 32 {
        seq!['\\', 'u', '0', '0', hex_char((c as u32 / 16) as nat), hex_char((c as u32 % 16) as nat)]
    } else {
        seq![c]
    }
}

/// A string escaped for JSON, character by character.
pub open spec fn escaped(s: Seq<char>) -> Seq<char>
    decreases s.len(),
{
    if s.len() == 0 {
        Seq::empty()
    } else {
        escaped(s.drop_last()) + escape_char(s.last())
    }
}

/// The body of a claim request: a JSON object with the address under
/// `hme`, then the label, then the note.
pub open spec fn claim_payload_model(hme: Seq<char>, label: Seq<char>, note: Seq<char>) -> Seq<
    char,
> {
    "{\"hme\":\""@ + escaped(hme) + "\",\"label\":\""@ + escaped(label) + "\",\"note\":\""@
        + escaped(note) + "\"}"@
}

/// Appends `s`, escaped for JSON, to `out`.
fn append_escaped(out: &mut String, s: &str)
    ensures
        final(out)@ == old(out)@ + escaped(s@),
{
    let n = s.unicode_len();
    let mut i: usize = 0;
    while i < n
        invariant
            i <= n,
            n == s@.len(),
            out@ == old(out)@ + escaped(s@.subrange(0, i as int)),
        decreases n - i,
    {
        let c = s.get_char(i);
        if c == '"' {
            out.append("\\\"");
        } else if c == '\\' {
            out.append("\\\\");
        } else if c == '\u{8}' {
            out.append("\\b");
        } else if c == '\t' {
            out.append("\\t");
        } else if c == '\n' {
            out.append("\\n");
        } else if c == '\u{c}' {
            out.append("\\f");
        } else if c == '\r' {
            out.append("\\r");
        } else if (c as u32) < 32 {
            out.append("\\u00");
            push_char(out, hex_exec(c as u32 / 16));
            push_char(out, hex_exec(c as u32 % 16));
        } else {
            push_char(out, c);
        }
        proof {
            reveal_strlit("\\\"");
            reveal_strlit("\\\\");
            reveal_strlit("\\b");
            reveal_strlit("\\t");
            reveal_strlit("\\n");
            reveal_strlit("\\f");
            reveal_strlit("\\r");
            reveal_strlit("\\u00");
            let p = s@.subrange(0, i as int);
            let q = s@.subrange(0, i as int + 1);
            assert(q.drop_last() =~= p);
            assert(q.last() == s@[i as int]);
            assert(out@ =~= old(out)@ + escaped(q));
        }
        i = i + 1;
    }
    proof {
        assert(s@.subrange(0, n as int) =~= s@);
    }
}

/// Encodes the claim request body for this address, label and note,
/// exactly as the wire format asks for it.
pub fn claim_payload(hme: &str, label: &str, note: &str) -> (r: String)
    ensures
        r@ == claim_payload_model(hme@, label@, note@),
{
    let mut out = String::from_str("{\"hme\":\"");
    append_escaped(&mut out, hme);
    out.append("\",\"label\":\"");
    append_escaped(&mut out, label);
    out.append("\",\"note\":\"");
    append_escaped(&mut out, note);
    out.append("\"}");
    proof {
        assert(out@ =~= claim_payload_model(hme@, label@, note@));
    }
    out
}

} // verus!
