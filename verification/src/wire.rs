//! The wire text layer: requests travel as one-line JSON objects.
//! This module renders the request envelope exactly, character by
//! character — decimal numbers, JSON string escaping, and the fixed
//! field order `id`, `type`, `uri`, `payload`.

use vstd::prelude::*;
use vstd::string::*;

use crate::commands::{CommandRequest, Payload};

verus! {

/// The decimal digit character for `d` in `0..10`.
pub open spec fn dec_digit(d: int) -> char {
    if d == 0 {
        '0'
    } else if d == 1 {
        '1'
    } else if d == 2 {
        '2'
    } else if d == 3 {
        '3'
    } else if d == 4 {
        '4'
    } else if d == 5 {
        '5'
    } else if d == 6 {
        '6'
    } else if d == 7 {
        '7'
    } else if d == 8 {
        '8'
    } else {
        '9'
    }
}

/// Decimal digits of a positive number, most significant first;
/// empty for zero and below.
pub open spec fn dec_str_rec(n: int) -> Seq<char>
    decreases n,
{
    if n <= 0 {
        Seq::empty()
    } else {
        dec_str_rec(n / 10) + seq![dec_digit(n % 10)]
    }
}

/// The decimal rendering of a non-negative number, without sign or
/// leading zeros (`0` renders as `"0"`).
pub open spec fn dec_str(n: int) -> Seq<char> {
    if n == 0 {
        seq!['0']
    } else {
        dec_str_rec(n)
    }
}

/// The decimal rendering of a possibly negative number.
pub open spec fn int_dec(n: int) -> Seq<char> {
    if n < 0 {
        "-"@ + dec_str(-n)
    } else {
        dec_str(n)
    }
}

/// The lowercase hexadecimal digit character for `d` in `0..16`.
pub open spec fn hex_digit(d: int) -> char {
    if d == 0 {
        '0'
    } else if d == 1 {
        '1'
    } else if d == 2 {
        '2'
    } else if d == 3 {
        '3'
    } else if d == 4 {
        '4'
    } else if d == 5 {
        '5'
    } else if d == 6 {
        '6'
    } else if d == 7 {
        '7'
    } else if d == 8 {
        '8'
    } else if d == 9 {
        '9'
    } else if d == 10 {
        'a'
    } else if d == 11 {
        'b'
    } else if d == 12 {
        'c'
    } else if d == 13 {
        'd'
    } else if d == 14 {
        'e'
    } else {
        'f'
    }
}

/// How one character appears inside a JSON string literal: quotes and
/// backslashes are escaped, control characters become `\u00XX`, and
/// everything else stands as itself.
pub open spec fn escape_char(c: char) -> Seq<char> {
    if c == '"' {
        "\\\""@
    } else if c == '\\' {
        "\\\\"@
    } else if (c as u32) < 32 {
        "\\u00"@ + seq![hex_digit((c as u32) as int / 16), hex_digit((c as u32) as int % 16)]
    } else {
        seq![c]
    }
}

/// A character sequence with every character JSON-escaped.
pub open spec fn escape_seq(s: Seq<char>) -> Seq<char>
    decreases s.len(),
{
    if s.len() == 0 {
        Seq::empty()
    } else {
        escape_seq(s.drop_last()) + escape_char(s.last())
    }
}

/// A JSON string literal: the escaped characters between quotes.
pub open spec fn json_string(s: Seq<char>) -> Seq<char> {
    "\""@ + escape_seq(s) + "\""@
}

/// The JSON rendering of an envelope payload; `null` when absent.
pub open spec fn payload_json(p: Option<Payload>) -> Seq<char> {
    match p {
        None => "null"@,
        Some(Payload::Message(text)) => "{\"message\":"@ + json_string(text@) + "}"@,
        Some(Payload::Target(url)) => "{\"target\":"@ + json_string(url@) + "}"@,
        Some(Payload::ChannelId(channel_id)) => "{\"channelId\":"@ + json_string(channel_id@)
            + "}"@,
        Some(Payload::InputId(input_id)) => "{\"inputId\":"@ + json_string(input_id@) + "}"@,
        Some(Payload::Mute(mute)) => "{\"mute\":"@ + (if mute {
            "true"@
        } else {
            "false"@
        }) + "}"@,
        Some(Payload::Volume(volume)) => "{\"volume\":"@ + int_dec(volume as int) + "}"@,
    }
}

/// The full wire text of a request envelope.
pub open spec fn wire_of(req: CommandRequest) -> Seq<char> {
    "{\"id\":"@ + dec_str(req.id as int) + ",\"type\":"@ + json_string(req.request_type@)
        + ",\"uri\":"@ + json_string(req.uri@) + ",\"payload\":"@ + payload_json(req.payload)
        + "}"@
}

/// The wire text of the envelope that carries command `cmd` under
/// request id `id`: the catalogue's URI and payload for `cmd`, in a
/// `type: "request"` envelope.
pub open spec fn request_wire(id: u8, cmd: crate::commands::Command) -> Seq<char> {
    "{\"id\":"@ + dec_str(id as int) + ",\"type\":"@ + json_string("request"@) + ",\"uri\":"@
        + json_string(crate::commands::uri_of(cmd)) + ",\"payload\":"@ + payload_json(
        crate::commands::payload_of(cmd),
    ) + "}"@
}

/// The one-character string for a decimal digit.
fn dec_digit_char(d: u8) -> (s: &'static str)
    requires
        d < 10,
    ensures
        s@ == seq![dec_digit(d as int)],
{
    let s: &'static str = match d {
        0 => "0",
        1 => "1",
        2 => "2",
        3 => "3",
        4 => "4",
        5 => "5",
        6 => "6",
        7 => "7",
        8 => "8",
        _ => "9",
    };
    proof {
        reveal_strlit("0");
        reveal_strlit("1");
        reveal_strlit("2");
        reveal_strlit("3");
        reveal_strlit("4");
        reveal_strlit("5");
        reveal_strlit("6");
        reveal_strlit("7");
        reveal_strlit("8");
        reveal_strlit("9");
        assert(s@ =~= seq![dec_digit(d as int)]);
    }
    s
}

/// The one-character string for a lowercase hexadecimal digit.
fn hex_digit_char(d: u8) -> (s: &'static str)
    requires
        d < 16,
    ensures
        s@ == seq![hex_digit(d as int)],
{
    let s: &'static str = match d {
        0 => "0",
        1 => "1",
        2 => "2",
        3 => "3",
        4 => "4",
        5 => "5",
        6 => "6",
        7 => "7",
        8 => "8",
        9 => "9",
        10 => "a",
        11 => "b",
        12 => "c",
        13 => "d",
        14 => "e",
        _ => "f",
    };
    proof {
        reveal_strlit("0");
        reveal_strlit("1");
        reveal_strlit("2");
        reveal_strlit("3");
        reveal_strlit("4");
        reveal_strlit("5");
        reveal_strlit("6");
        reveal_strlit("7");
        reveal_strlit("8");
        reveal_strlit("9");
        reveal_strlit("a");
        reveal_strlit("b");
        reveal_strlit("c");
        reveal_strlit("d");
        reveal_strlit("e");
        reveal_strlit("f");
        assert(s@ =~= seq![hex_digit(d as int)]);
    }
    s
}

/// Render an eight-bit number in decimal.
pub fn u8_dec(n: u8) -> (s: String)
    ensures
        s@ == dec_str(n as int),
{
    let mut s = String::new();
    if n >= 100 {
        s.append(dec_digit_char(n / 100));
    }
    if n >= 10 {
        s.append(dec_digit_char((n / 10) % 10));
    }
    s.append(dec_digit_char(n % 10));
    proof {
        let ni = n as int;
        if n == 0 {
            assert(s@ =~= dec_str(ni));
        } else if n < 10 {
            assert(dec_str_rec(ni) == dec_str_rec(ni / 10) + seq![dec_digit(ni % 10)]);
            assert(dec_str_rec(ni / 10) == Seq::<char>::empty());
            assert(s@ =~= dec_str(ni));
        } else if n < 100 {
            assert(dec_str_rec(ni) == dec_str_rec(ni / 10) + seq![dec_digit(ni % 10)]);
            assert(dec_str_rec(ni / 10) == dec_str_rec(ni / 10 / 10) + seq![
                dec_digit(ni / 10 % 10),
            ]);
            assert(dec_str_rec(ni / 10 / 10) == Seq::<char>::empty());
            assert(s@ =~= dec_str(ni));
        } else {
            assert(dec_str_rec(ni) == dec_str_rec(ni / 10) + seq![dec_digit(ni % 10)]);
            assert(dec_str_rec(ni / 10) == dec_str_rec(ni / 10 / 10) + seq![
                dec_digit(ni / 10 % 10),
            ]);
            assert(dec_str_rec(ni / 10 / 10) == dec_str_rec(ni / 10 / 10 / 10) + seq![
                dec_digit(ni / 10 / 10 % 10),
            ]);
            assert(dec_str_rec(ni / 10 / 10 / 10) == Seq::<char>::empty());
            assert(ni / 10 / 10 == ni / 100);
            assert(s@ =~= dec_str(ni));
        }
    }
    s
}

/// Render a signed eight-bit number in decimal.
pub fn i8_dec(v: i8) -> (s: String)
    ensures
        s@ == int_dec(v as int),
{
    if v >= 0 {
        u8_dec(v as u8)
    } else {
        let mag: u8 = (-(v as i16)) as u8;
        let mut s = "-".to_owned();
        let digits = u8_dec(mag);
        s.append(digits.as_str());
        proof {
            assert(s@ =~= int_dec(v as int));
        }
        s
    }
}

/// JSON-escape every character of a string.
pub fn escape_json(s: &str) -> (out: String)
    ensures
        out@ == escape_seq(s@),
{
    let n = s.unicode_len();
    let mut out = String::new();
    let mut i: usize = 0;
    while i < n
        invariant
            n == s@.len(),
            i <= n,
            out@ == escape_seq(s@.take(i as int)),
        decreases n - i,
    {
        let c = s.get_char(i);
        if c == '"' {
            out.append("\\\"");
        } else if c == '\\' {
            out.append("\\\\");
        } else if (c as u32) < 32 {
            let code = c as u32;
            out.append("\\u00");
            out.append(hex_digit_char((code / 16) as u8));
            out.append(hex_digit_char((code % 16) as u8));
        } else {
            out.append(s.substring_char(i, i + 1));
        }
        proof {
            assert(s@.take(i as int + 1).drop_last() =~= s@.take(i as int));
            assert(s@.take(i as int + 1).last() == s@[i as int]);
            assert(escape_seq(s@.take(i as int + 1)) == escape_seq(s@.take(i as int))
                + escape_char(s@[i as int]));
            assert(out@ =~= escape_seq(s@.take(i as int + 1)));
        }
        i += 1;
    }
    proof {
        assert(s@.take(n as int) =~= s@);
    }
    out
}

/// Append a JSON string literal holding `s`.
fn append_json_string(out: &mut String, s: &str)
    ensures
        final(out)@ == old(out)@ + json_string(s@),
{
    out.append("\"");
    let escaped = escape_json(s);
    out.append(escaped.as_str());
    out.append("\"");
}

/// Serialize a request envelope to its wire text.
pub fn serialize_request(req: &CommandRequest) -> (out: String)
    ensures
        out@ == wire_of(*req),
{
    let mut out = "{\"id\":".to_owned();
    let id_digits = u8_dec(req.id);
    out.append(id_digits.as_str());
    out.append(",\"type\":");
    append_json_string(&mut out, req.request_type.as_str());
    out.append(",\"uri\":");
    append_json_string(&mut out, req.uri.as_str());
    out.append(",\"payload\":");
    match &req.payload {
        None => {
            out.append("null");
        },
        Some(Payload::Message(text)) => {
            out.append("{\"message\":");
            append_json_string(&mut out, text.as_str());
            out.append("}");
        },
        Some(Payload::Target(url)) => {
            out.append("{\"target\":");
            append_json_string(&mut out, url.as_str());
            out.append("}");
        },
        Some(Payload::ChannelId(channel_id)) => {
            out.append("{\"channelId\":");
            append_json_string(&mut out, channel_id.as_str());
            out.append("}");
        },
        Some(Payload::InputId(input_id)) => {
            out.append("{\"inputId\":");
            append_json_string(&mut out, input_id.as_str());
            out.append("}");
        },
        Some(Payload::Mute(mute)) => {
            out.append("{\"mute\":");
            if *mute {
                out.append("true");
            } else {
                out.append("false");
            }
            out.append("}");
        },
        Some(Payload::Volume(volume)) => {
            out.append("{\"volume\":");
            let volume_digits = i8_dec(*volume);
            out.append(volume_digits.as_str());
            out.append("}");
        },
    }
    out.append("}");
    proof {
        assert(out@ =~= wire_of(*req));
    }
    out
}

} // verus!
