use vstd::prelude::*;
use vstd::string::{StrSliceExecFns, StringSliceAdditionalSpecFns};
use vstd::utf8::encode_utf8;
use crate::message::{Message, MessageView, Record, RecordView};

verus! {

/// One hexadecimal digit, lower case.
pub open spec fn hex_digit(n: u8) -> u8
    recommends
        n < 16,
{
    if n < 10 {
        (48 + n) as u8
    } else {
        (87 + n) as u8
    }
}

/// JSON escaping of one byte of UTF-8 text.  The double quote, the
/// backslash and the control bytes are escaped; every other byte passes
/// through unchanged, which keeps multi-byte UTF-8 sequences intact.
pub open spec fn escape_byte(b: u8) -> Seq<u8> {
    if b == 34 {
        seq![92u8, 34u8]
    } else if b == 92 {
        seq![92u8, 92u8]
    } else if b == 8 {
        seq![92u8, 98u8]
    } else if b == 9 {
        seq![92u8, 116u8]
    } else if b == 10 {
        seq![92u8, 110u8]
    } else if b == 12 {
        seq![92u8, 102u8]
    } else if b == 13 {
        seq![92u8, 114u8]
    } else if b < 32 {
        seq![92u8, 117u8, 48u8, 48u8, hex_digit(b / 16), hex_digit(b % 16)]
    } else {
        seq![b]
    }
}

/// JSON escaping of a byte sequence, byte for byte.
pub open spec fn escape_bytes(s: Seq<u8>) -> Seq<u8>
    decreases s.len(),
{
    if s.len() == 0 {
        Seq::<u8>::empty()
    } else {
        escape_byte(s[0]) + escape_bytes(s.drop_first())
    }
}

/// A JSON string literal: the escaped text between double quotes.
pub open spec fn json_string(s: Seq<u8>) -> Seq<u8> {
    seq![34u8] + escape_bytes(s) + seq![34u8]
}

/// The decimal digits of a non-negative integer, most significant first.
pub open spec fn dec_digits(n: nat) -> Seq<u8>
    decreases n,
{
    if n < 10 {
        seq![(48 + n) as u8]
    } else {
        dec_digits(n / 10) + seq![(48 + n % 10) as u8]
    }
}

/// Whole milliseconds rendered as seconds with exactly three decimals.
pub open spec fn ms_as_seconds(ms: nat) -> Seq<u8> {
    dec_digits(ms / 1000) + seq![
        46u8,
        (48 + (ms / 100) % 10) as u8,
        (48 + (ms / 10) % 10) as u8,
        (48 + ms % 10) as u8,
    ]
}

/// The wire encoding of the per-job message object.
pub open spec fn json_of_message(m: MessageView) -> Seq<u8> {
    "{\"source\":".spec_bytes() + json_string(encode_utf8(m.source)) + ",\"filename\":".spec_bytes()
        + json_string(encode_utf8(m.filename)) + ",\"dst\":".spec_bytes() + json_string(
        encode_utf8(m.dst),
    ) + ",\"error\":".spec_bytes() + json_string(encode_utf8(m.error))
        + ",\"orig_size\":".spec_bytes() + dec_digits(m.orig_size as nat)
        + ",\"back_size\":".spec_bytes() + dec_digits(m.back_size as nat)
        + ",\"time_spent\":".spec_bytes() + ms_as_seconds(m.time_spent_ms as nat)
        + "}".spec_bytes()
}

/// The wire encoding of a whole status record: one JSON object, UTF-8,
/// sent as-is over one connection.
pub open spec fn json_of_record(r: RecordView) -> Seq<u8> {
    "{\"timestamp\":".spec_bytes() + json_string(encode_utf8(r.timestamp))
        + ",\"index_name\":".spec_bytes() + json_string(encode_utf8(r.index_name))
        + ",\"version\":".spec_bytes() + json_string(encode_utf8(r.version))
        + ",\"password\":".spec_bytes() + json_string(encode_utf8(r.password))
        + ",\"host\":".spec_bytes() + json_string(encode_utf8(r.host)) + ",\"message\":".spec_bytes()
        + (match r.message {
        Some(m) => json_of_message(m),
        None => "null".spec_bytes(),
    }) + "}".spec_bytes()
}

/// Escaping distributes over appending one byte at the end.
proof fn lemma_escape_snoc(s: Seq<u8>, b: u8)
    ensures
        escape_bytes(s.push(b)) == escape_bytes(s) + escape_byte(b),
    decreases s.len(),
{
    if s.len() == 0 {
        assert(s.push(b).len() == 1);
        assert(s.push(b)[0] == b);
        assert(s.push(b).drop_first() =~= Seq::<u8>::empty());
        assert(escape_bytes(s.push(b)) == escape_byte(b) + escape_bytes(Seq::<u8>::empty()));
        assert(escape_bytes(Seq::<u8>::empty()) == Seq::<u8>::empty());
        assert(escape_byte(b) + Seq::<u8>::empty() =~= escape_byte(b));
        assert(escape_bytes(s) == Seq::<u8>::empty());
        assert(escape_bytes(s) + escape_byte(b) =~= escape_byte(b));
    } else {
        lemma_escape_snoc(s.drop_first(), b);
        assert(s.push(b).len() == s.len() + 1);
        assert(s.push(b)[0] == s[0]);
        assert(s.push(b).drop_first() =~= s.drop_first().push(b));
        assert(escape_bytes(s.push(b)) == escape_byte(s[0]) + escape_bytes(s.drop_first().push(b)));
        assert(escape_bytes(s.drop_first().push(b)) == escape_bytes(s.drop_first()) + escape_byte(
            b,
        ));
        assert(escape_bytes(s) == escape_byte(s[0]) + escape_bytes(s.drop_first()));
        assert(escape_byte(s[0]) + (escape_bytes(s.drop_first()) + escape_byte(b)) =~= (escape_byte(
            s[0],
        ) + escape_bytes(s.drop_first())) + escape_byte(b));
    }
}

fn hex_digit_exec(n: u8) -> (r: u8)
    requires
        n < 16,
    ensures
        r == hex_digit(n),
{
    if n < 10 {
        48 + n
    } else {
        87 + n
    }
}

/// Appends the UTF-8 bytes of `s` to `out`.
fn push_str_bytes(out: &mut Vec<u8>, s: &str)
    ensures
        final(out)@ == old(out)@ + s.spec_bytes(),
{
    let mut bs = s.as_bytes_vec();
    out.append(&mut bs);
}

/// Appends the JSON escaping of the UTF-8 bytes of `s` to `out`.
fn push_escaped(out: &mut Vec<u8>, s: &str)
    ensures
        final(out)@ == old(out)@ + escape_bytes(s.spec_bytes()),
{
    let bs = s.as_bytes_vec();
    let mut i: usize = 0;
    while i < bs.len()
        invariant
            i <= bs@.len(),
            bs@ == s.spec_bytes(),
            out@ == old(out)@ + escape_bytes(bs@.take(i as int)),
        decreases bs@.len() - i,
    {
        let b = bs[i];
        if b == 34 {
            out.push(92);
            out.push(34);
        } else if b == 92 {
            out.push(92);
            out.push(92);
        } else if b == 8 {
            out.push(92);
            out.push(98);
        } else if b == 9 {
            out.push(92);
            out.push(116);
        } else if b == 10 {
            out.push(92);
            out.push(110);
        } else if b == 12 {
            out.push(92);
            out.push(102);
        } else if b == 13 {
            out.push(92);
            out.push(114);
        } else if b < 32 {
            out.push(92);
            out.push(117);
            out.push(48);
            out.push(48);
            out.push(hex_digit_exec(b / 16));
            out.push(hex_digit_exec(b % 16));
        } else {
            out.push(b);
        }
        proof {
            lemma_escape_snoc(bs@.take(i as int), bs@[i as int]);
            assert(bs@.take(i as int).push(bs@[i as int]) =~= bs@.take(i as int + 1));
            assert(out@ =~= old(out)@ + escape_bytes(bs@.take(i as int + 1)));
        }
        i = i + 1;
    }
    proof {
        assert(bs@.take(bs@.len() as int) =~= bs@);
    }
}

/// Appends the JSON string literal for `s` to `out`.
fn push_json_string(out: &mut Vec<u8>, s: &str)
    ensures
        final(out)@ == old(out)@ + json_string(s.spec_bytes()),
{
    out.push(34);
    push_escaped(out, s);
    out.push(34);
    proof {
        assert(out@ =~= old(out)@ + json_string(s.spec_bytes()));
    }
}

/// Appends the decimal digits of `n` to `out`.
fn push_u64_dec(out: &mut Vec<u8>, n: u64)
    ensures
        final(out)@ == old(out)@ + dec_digits(n as nat),
    decreases n,
{
    if n < 10 {
        out.push(48 + (n as u8));
        proof {
            assert(old(out)@.push((48 + n as nat) as u8) =~= old(out)@ + dec_digits(n as nat));
        }
    } else {
        push_u64_dec(out, n / 10);
        out.push(48 + ((n % 10) as u8));
        proof {
            assert((n / 10) as nat == (n as nat) / 10);
            assert(out@ =~= old(out)@ + dec_digits(n as nat));
        }
    }
}

/// Appends `ms` milliseconds as seconds with three decimals to `out`.
fn push_ms_seconds(out: &mut Vec<u8>, ms: u64)
    ensures
        final(out)@ == old(out)@ + ms_as_seconds(ms as nat),
{
    push_u64_dec(out, ms / 1000);
    out.push(46);
    out.push(48 + (((ms / 100) % 10) as u8));
    out.push(48 + (((ms / 10) % 10) as u8));
    out.push(48 + ((ms % 10) as u8));
    proof {
        assert((ms / 1000) as nat == (ms as nat) / 1000);
        assert(out@ =~= old(out)@ + ms_as_seconds(ms as nat));
    }
}

/// Encodes the per-job message object.
pub fn encode_message(m: &Message) -> (r: Vec<u8>)
    ensures
        r@ == json_of_message(m@),
{
    let mut out: Vec<u8> = Vec::new();
    push_str_bytes(&mut out, "{\"source\":");
    push_json_string(&mut out, m.source.as_str());
    push_str_bytes(&mut out, ",\"filename\":");
    push_json_string(&mut out, m.filename.as_str());
    push_str_bytes(&mut out, ",\"dst\":");
    push_json_string(&mut out, m.dst.as_str());
    push_str_bytes(&mut out, ",\"error\":");
    push_json_string(&mut out, m.error.as_str());
    push_str_bytes(&mut out, ",\"orig_size\":");
    push_u64_dec(&mut out, m.orig_size);
    push_str_bytes(&mut out, ",\"back_size\":");
    push_u64_dec(&mut out, m.back_size);
    push_str_bytes(&mut out, ",\"time_spent\":");
    push_ms_seconds(&mut out, m.time_spent_ms);
    push_str_bytes(&mut out, "}");
    proof {
        assert(out@ =~= json_of_message(m@));
    }
    out
}

/// Encodes a whole status record as its wire bytes.
pub fn encode_record(r: &Record) -> (res: Vec<u8>)
    ensures
        res@ == json_of_record(r@),
{
    let mut out: Vec<u8> = Vec::new();
    push_str_bytes(&mut out, "{\"timestamp\":");
    push_json_string(&mut out, r.timestamp.as_str());
    push_str_bytes(&mut out, ",\"index_name\":");
    push_json_string(&mut out, r.index_name.as_str());
    push_str_bytes(&mut out, ",\"version\":");
    push_json_string(&mut out, r.version.as_str());
    push_str_bytes(&mut out, ",\"password\":");
    push_json_string(&mut out, r.password.as_str());
    push_str_bytes(&mut out, ",\"host\":");
    push_json_string(&mut out, r.host.as_str());
    push_str_bytes(&mut out, ",\"message\":");
    match &r.message {
        Some(m) => {
            let mut mb = encode_message(m);
            out.append(&mut mb);
        },
        None => {
            push_str_bytes(&mut out, "null");
        },
    }
    push_str_bytes(&mut out, "}");
    proof {
        assert(out@ =~= json_of_record(r@));
    }
    out
}

} // verus!
