use vstd::prelude::*;
use vstd::string::StrSliceExecFns;

use crate::tokens::Token;

verus! {

/// The digit character for one value below sixteen.
pub open spec fn spec_hex_digit(d: int) -> char {
    if d == 0 {
        '0'
    } else if d == 1 {
        '1'
    } else if d == 2 {
        '2'
    } else if d == 3 {
        '3'
    } else if d == 4 {
        '4'
    } else if d == 5 {
        '5'
    } else if d == 6 {
        '6'
    } else if d == 7 {
        '7'
    } else if d == 8 {
        '8'
    } else if d == 9 {
        '9'
    } else if d == 10 {
        'a'
    } else if d == 11 {
        'b'
    } else if d == 12 {
        'c'
    } else if d == 13 {
        'd'
    } else if d == 14 {
        'e'
    } else {
        'f'
    }
}

fn hex_digit_str(d: u8) -> (r: &'static str)
    requires
        d < 16,
    ensures
        r@ == seq![spec_hex_digit(d as int)],
{
    proof {
        reveal_strlit("0");
        reveal_strlit("1");
        reveal_strlit("2");
        reveal_strlit("3");
        reveal_strlit("4");
        reveal_strlit("5");
        reveal_strlit("6");
        reveal_strlit("7");
        reveal_strlit("8");
        reveal_strlit("9");
        reveal_strlit("a");
        reveal_strlit("b");
        reveal_strlit("c");
        reveal_strlit("d");
        reveal_strlit("e");
        reveal_strlit("f");
    }
    match d {
        0 => "0",
        1 => "1",
        2 => "2",
        3 => "3",
        4 => "4",
        5 => "5",
        6 => "6",
        7 => "7",
        8 => "8",
        9 => "9",
        10 => "a",
        11 => "b",
        12 => "c",
        13 => "d",
        14 => "e",
        _ => "f",
    }
}

/// Decimal notation of a non-negative number, most significant digit
/// first, with no leading zeros.
pub open spec fn spec_dec_of(n: int) -> Seq<char>
    recommends
        n >= 0,
    decreases n,
{
    if n < 10 {
        seq![spec_hex_digit(n)]
    } else {
        spec_dec_of(n / 10).push(spec_hex_digit(n % 10))
    }
}

/// Decimal rendering of an integer, exactly as [`spec_dec_of`] states it.
pub fn u64_dec_str(n: u64) -> (s: String)
    ensures
        s@ == spec_dec_of(n as int),
    decreases n,
{
    if n < 10 {
        let s = hex_digit_str(n as u8).to_owned();
        proof {
            assert(s@ =~= spec_dec_of(n as int));
        }
        s
    } else {
        let mut s = u64_dec_str(n / 10);
        s.append(hex_digit_str((n % 10) as u8));
        proof {
            assert(s@ =~= spec_dec_of(n as int));
        }
        s
    }
}

/// How one character is written inside a JSON string literal: the two
/// quotes and the backslash are escaped, the common control characters get
/// their short escapes, any other control character a `\u00..` escape, and
/// everything else stands for itself.
pub open spec fn spec_json_escape_char(c: char) -> Seq<char> {
    if c == '"' {
        seq!['\\', '"']
    } else if c == '\\' {
        seq!['\\', '\\']
    } else if c == '\n' {
        seq!['\\', 'n']
    } else if c == '\r' {
        seq!['\\', 'r']
    } else if c == '\t' {
        seq!['\\', 't']
    } else if (c as u32) < 0x20 {
        seq!['\\', 'u', '0', '0', spec_hex_digit(c as u32 as int / 16), spec_hex_digit(
            c as u32 as int % 16,
        )]
    } else {
        seq![c]
    }
}

/// A whole character sequence written inside a JSON string literal.
pub open spec fn spec_json_escape(s: Seq<char>) -> Seq<char>
    decreases s.len(),
{
    if s.len() == 0 {
        Seq::empty()
    } else {
        spec_json_escape(s.drop_last()) + spec_json_escape_char(s.last())
    }
}

proof fn lemma_json_escape_step(s: Seq<char>, i: int)
    requires
        0 <= i < s.len(),
    ensures
        spec_json_escape(s.take(i + 1)) == spec_json_escape(s.take(i)) + spec_json_escape_char(
            s[i],
        ),
{
    assert(s.take(i + 1).drop_last() =~= s.take(i));
    assert(s.take(i + 1).last() == s[i]);
}

/// Escape a string for inclusion in a JSON string literal.
pub fn json_escape_str(s: &str) -> (r: String)
    ensures
        r@ == spec_json_escape(s@),
{
    let n: usize = s.unicode_len();
    let mut out = String::new();
    let mut i: usize = 0;
    while i < n
        invariant
            n == s@.len(),
            0 <= i <= n,
            out@ == spec_json_escape(s@.take(i as int)),
        decreases n - i,
    {
        let c = s.get_char(i);
        if c == '"' {
            out.append("\\\"");
            proof {
                reveal_strlit("\\\"");
                assert("\\\""@ =~= spec_json_escape_char(c));
            }
        } else if c == '\\' {
            out.append("\\\\");
            proof {
                reveal_strlit("\\\\");
                assert("\\\\"@ =~= spec_json_escape_char(c));
            }
        } else if c == '\n' {
            out.append("\\n");
            proof {
                reveal_strlit("\\n");
                assert("\\n"@ =~= spec_json_escape_char(c));
            }
        } else if c == '\r' {
            out.append("\\r");
            proof {
                reveal_strlit("\\r");
                assert("\\r"@ =~= spec_json_escape_char(c));
            }
        } else if c == '\t' {
            out.append("\\t");
            proof {
                reveal_strlit("\\t");
                assert("\\t"@ =~= spec_json_escape_char(c));
            }
        } else if (c as u32) < 0x20 {
            let code: u32 = c as u32;
            out.append("\\u00");
            out.append(hex_digit_str((code / 16) as u8));
            out.append(hex_digit_str((code % 16) as u8));
            proof {
                reveal_strlit("\\u00");
                assert("\\u00"@ + seq![spec_hex_digit(code as int / 16)] + seq![
                    spec_hex_digit(code as int % 16),
                ] =~= spec_json_escape_char(c));
            }
        } else {
            out.append(s.substring_char(i, i + 1));
            proof {
                assert(s@.subrange(i as int, i as int + 1) =~= spec_json_escape_char(c));
            }
        }
        proof {
            lemma_json_escape_step(s@, i as int);
        }
        i += 1;
    }
    proof {
        assert(s@.take(n as int) =~= s@);
    }
    out
}

/// What an optional string field holds in the response body: the escaped
/// string in quotes, or the JSON null.
pub open spec fn spec_opt_string_json(o: Option<String>) -> Seq<char> {
    match o {
        Some(s) => seq!['"'] + spec_json_escape(s@) + seq!['"'],
        None => "null"@,
    }
}

/// The serialized form of one issued token, field for field, in the order
/// the wire format fixes.
pub open spec fn spec_token_json(t: Token) -> Seq<char> {
    "{\"access_token\":\""@ + spec_json_escape(t.access_token@) + "\",\"token_type\":\""@
        + t.token_type.spec_wire_str() + "\",\"refresh_token\":"@ + spec_opt_string_json(
        t.refresh_token,
    ) + ",\"expires_in\":"@ + spec_dec_of(t.expires_in as int) + ",\"id_token\":"@
        + spec_opt_string_json(t.id_token) + "}"@
}

/// Serialize an issued token to the JSON body the client receives; the
/// result is exactly [`spec_token_json`].
pub fn token_response_body(t: &Token) -> (r: String)
    ensures
        r@ == spec_token_json(*t),
{
    let mut out = String::new();
    out.append("{\"access_token\":\"");
    let escaped_access = json_escape_str(t.access_token.as_str());
    out.append(escaped_access.as_str());
    out.append("\",\"token_type\":\"");
    out.append(t.token_type.wire_str());
    out.append("\",\"refresh_token\":");
    append_opt_string_json(&mut out, &t.refresh_token);
    out.append(",\"expires_in\":");
    let dec = u64_dec_str(t.expires_in);
    out.append(dec.as_str());
    out.append(",\"id_token\":");
    append_opt_string_json(&mut out, &t.id_token);
    out.append("}");
    proof {
        assert(out@ =~= spec_token_json(*t));
    }
    out
}

/// Write one optional string field as JSON.
fn append_opt_string_json(out: &mut String, o: &Option<String>)
    ensures
        final(out)@ == old(out)@ + spec_opt_string_json(*o),
{
    match o {
        Some(s) => {
            out.append("\"");
            let escaped = json_escape_str(s.as_str());
            out.append(escaped.as_str());
            out.append("\"");
            proof {
                reveal_strlit("\"");
                assert(out@ =~= old(out)@ + spec_opt_string_json(*o));
            }
        },
        None => {
            out.append("null");
        },
    }
}

} // verus!
