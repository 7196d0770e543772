//! JSON text handling: trusted bindings to the JSON library for opaque
//! payload values, and a verified encoder for JSON string escaping.

use vstd::prelude::*;
use vstd::string::*;

verus! {

#[verifier::external_type_specification]
#[verifier::external_body]
pub struct ExValue(serde_json::Value);

/// The JSON value that the text parses to, if it is well-formed: names the
/// result of `serde_path_to_error::deserialize` over
/// `serde_json::Deserializer::from_str`.
pub uninterp spec fn json_parsed(s: Seq<char>) -> Option<serde_json::Value>;

/// The value's nesting lies within the JSON parser's recursion limit:
/// names the bound that `serde_json`'s deserializer enforces on every
/// value it produces. The serializer has no such limit, so a value a
/// handler builds may fall outside it.
pub uninterp spec fn json_within_depth(v: serde_json::Value) -> bool;

/// Relies on `serde_json::Deserializer::from_str` and
/// `serde_path_to_error::deserialize`: whether the text holds a JSON value,
/// and which value it holds, depend on the text alone, and the parser
/// refuses nesting beyond its recursion limit, so every value it returns
/// lies within that limit.
#[verifier::external_body]
pub(crate) fn parse_json(s: &str) -> (r: Result<serde_json::Value, String>)
    ensures
        r is Ok <==> json_parsed(s@) is Some,
        r is Ok ==> json_parsed(s@) == Some(r->Ok_0),
        r is Ok ==> json_within_depth(r->Ok_0),
{
    let mut de = serde_json::Deserializer::from_str(s);
    match serde_path_to_error::deserialize::<_, serde_json::Value>(&mut de) {
        Ok(v) => Ok(v),
        Err(e) => Err(e.to_string()),
    }
}

/// Relies on `serde_json::to_string`: on a `Value` it cannot fail (object
/// keys are strings, and `Value`'s `Serialize` implementation introduces no
/// errors of its own). Its output is one complete JSON rendering of the
/// value, so the parser either refuses it (the value's nesting exceeds the
/// parser's recursion limit, which the serializer does not enforce) or
/// yields an equal value; within the limit it always parses.
#[verifier::external_body]
pub(crate) fn value_to_json(v: &serde_json::Value) -> (r: Result<String, String>)
    ensures
        r is Ok,
        r is Ok && json_parsed(r->Ok_0@) is Some ==> json_parsed(r->Ok_0@) == Some(*v),
        r is Ok && json_within_depth(*v) ==> json_parsed(r->Ok_0@) == Some(*v),
{
    match serde_json::to_string(v) {
        Ok(s) => Ok(s),
        Err(e) => Err(e.to_string()),
    }
}

/// The lower-case hexadecimal digit for `n`, for `n` under sixteen.
pub open spec fn spec_hex_digit(n: int) -> char {
    if n == 0 {
        '0'
    } else if n == 1 {
        '1'
    } else if n == 2 {
        '2'
    } else if n == 3 {
        '3'
    } else if n == 4 {
        '4'
    } else if n == 5 {
        '5'
    } else if n == 6 {
        '6'
    } else if n == 7 {
        '7'
    } else if n == 8 {
        '8'
    } else if n == 9 {
        '9'
    } else if n == 10 {
        'a'
    } else if n == 11 {
        'b'
    } else if n == 12 {
        'c'
    } else if n == 13 {
        'd'
    } else if n == 14 {
        'e'
    } else {
        'f'
    }
}

/// How one character appears inside a JSON string literal: quotes and
/// backslashes take an escape, control characters take a short or a
/// numeric escape, and every other character stands as itself.
pub open spec fn spec_escape_char(c: char) -> Seq<char> {
    if c == '"' {
        seq!['\\', '"']
    } else if c == '\\' {
        seq!['\\', '\\']
    } else if c == '\n' {
        seq!['\\', 'n']
    } else if c == '\r' {
        seq!['\\', 'r']
    } else if c == '\t' {
        seq!['\\', 't']
    } else if (c as u32) < 32 {
        seq![
            '\\',
            'u',
            '0',
            '0',
            spec_hex_digit((c as u32) as int / 16),
            spec_hex_digit((c as u32) as int % 16),
        ]
    } else {
        seq![c]
    }
}

/// The body of the JSON string literal that renders `s`.
pub open spec fn spec_escaped(s: Seq<char>) -> Seq<char>
    decreases s.len(),
{
    if s.len() == 0 {
        Seq::empty()
    } else {
        spec_escaped(s.drop_last()) + spec_escape_char(s.last())
    }
}

fn hex_digit_str(n: u32) -> (r: &'static str)
    requires
        n < 16,
    ensures
        r@ == seq![spec_hex_digit(n as int)],
{
    proof {
        reveal_strlit("0");
        reveal_strlit("1");
        reveal_strlit("2");
        reveal_strlit("3");
        reveal_strlit("4");
        reveal_strlit("5");
        reveal_strlit("6");
        reveal_strlit("7");
        reveal_strlit("8");
        reveal_strlit("9");
        reveal_strlit("a");
        reveal_strlit("b");
        reveal_strlit("c");
        reveal_strlit("d");
        reveal_strlit("e");
        reveal_strlit("f");
    }
    let r: &'static str = if n == 0 {
        "0"
    } else if n == 1 {
        "1"
    } else if n == 2 {
        "2"
    } else if n == 3 {
        "3"
    } else if n == 4 {
        "4"
    } else if n == 5 {
        "5"
    } else if n == 6 {
        "6"
    } else if n == 7 {
        "7"
    } else if n == 8 {
        "8"
    } else if n == 9 {
        "9"
    } else if n == 10 {
        "a"
    } else if n == 11 {
        "b"
    } else if n == 12 {
        "c"
    } else if n == 13 {
        "d"
    } else if n == 14 {
        "e"
    } else {
        "f"
    };
    proof {
        assert(r@ =~= seq![spec_hex_digit(n as int)]);
    }
    r
}

/// Appends `s` to `out` in JSON string-literal form.
pub fn append_escaped(out: &mut String, s: &str)
    ensures
        final (out)@ == old(out)@ + spec_escaped(s@),
{
    let n = s.unicode_len();
    let mut i: usize = 0;
    while i < n
        invariant
            i <= n,
            n == s@.len(),
            out@ == old(out)@ + spec_escaped(s@.subrange(0, i as int)),
        decreases n - i,
    {
        let c = s.get_char(i);
        let d = c as u32;
        proof {
            assert(s@.subrange(0, i as int + 1).drop_last() =~= s@.subrange(0, i as int));
            assert(s@.subrange(0, i as int + 1).last() == s@[i as int]);
        }
        if c == '"' {
            proof {
                reveal_strlit("\\\"");
                assert("\\\""@ =~= spec_escape_char(c));
            }
            out.append("\\\"");
        } else if c == '\\' {
            proof {
                reveal_strlit("\\\\");
                assert("\\\\"@ =~= spec_escape_char(c));
            }
            out.append("\\\\");
        } else if c == '\n' {
            proof {
                reveal_strlit("\\n");
                assert("\\n"@ =~= spec_escape_char(c));
            }
            out.append("\\n");
        } else if c == '\r' {
            proof {
                reveal_strlit("\\r");
                assert("\\r"@ =~= spec_escape_char(c));
            }
            out.append("\\r");
        } else if c == '\t' {
            proof {
                reveal_strlit("\\t");
                assert("\\t"@ =~= spec_escape_char(c));
            }
            out.append("\\t");
        } else if d < 32 {
            proof {
                reveal_strlit("\\u00");
            }
            out.append("\\u00");
            let hi = hex_digit_str(d / 16);
            out.append(hi);
            let lo = hex_digit_str(d % 16);
            out.append(lo);
            proof {
                assert("\\u00"@ + hi@ + lo@ =~= spec_escape_char(c));
            }
        } else {
            let piece = s.substring_char(i, i + 1);
            proof {
                assert(piece@ =~= spec_escape_char(c));
            }
            out.append(piece);
        }
        proof {
            assert(out@ =~= old(out)@ + spec_escaped(s@.subrange(0, i as int + 1)));
        }
        i = i + 1;
    }
    proof {
        assert(s@.subrange(0, n as int) =~= s@);
    }
}

/// The JSON object in which a failure with this message and classification
/// is reported: the message first, then the type, both escaped.
pub open spec fn spec_error_body(msg: Seq<char>, ty: Seq<char>) -> Seq<char> {
    "{\"errorMessage\":\""@ + spec_escaped(msg) + "\",\"errorType\":\""@ + spec_escaped(ty)
        + "\"}"@
}

/// Renders the error-report object for this message and classification.
pub fn error_body(msg: &str, ty: &str) -> (r: String)
    ensures
        r@ == spec_error_body(msg@, ty@),
{
    let mut out = "{\"errorMessage\":\"".to_owned();
    append_escaped(&mut out, msg);
    out.append("\",\"errorType\":\"");
    append_escaped(&mut out, ty);
    out.append("\"}");
    proof {
        assert(out@ =~= spec_error_body(msg@, ty@));
    }
    out
}

} // verus!
