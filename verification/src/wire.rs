//! Exact JSON text encoding for the outbound wire messages.
//!
//! The two messages this client ever writes (the acknowledgment frame and the
//! publish body) are small fixed-shape JSON objects, so the library encodes
//! them itself and the encoding is specified character by character:
//! a string member is quoted with `"` and `\` escaped and control characters
//! written as `\u00XX`, which is exactly the JSON grammar's requirement.

use vstd::prelude::*;
use vstd::string::StrSliceExecFns;

verus! {

/// The hexadecimal digit for `n`, lower case.
pub open spec fn spec_hex_digit(n: int) -> char {
    if n < 10 {
        (((n + 48) as u8) as char)
    } else {
        (((n + 87) as u8) as char)
    }
}

/// How one character is written inside a JSON string literal.
pub open spec fn spec_escape_char(c: char) -> Seq<char> {
    if c == '"' {
        seq!['\\', '"']
    } else if c == '\\' {
        seq!['\\', '\\']
    } else if (c as u32) < 0x20 {
        seq!['\\', 'u', '0', '0']
            + seq![spec_hex_digit((c as u32 / 16) as int), spec_hex_digit((c as u32 % 16) as int)]
    } else {
        seq![c]
    }
}

/// How a whole character sequence is written inside a JSON string literal.
pub open spec fn spec_escape(s: Seq<char>) -> Seq<char>
    decreases s.len(),
{
    if s.len() == 0 {
        Seq::empty()
    } else {
        spec_escape_char(s[0]) + spec_escape(s.drop_first())
    }
}

/// A JSON string literal: the escaped content between two quotes.
pub open spec fn spec_json_string(s: Seq<char>) -> Seq<char> {
    seq!['"'] + spec_escape(s) + seq!['"']
}

/// Relies on `String::push`: appends exactly the one character.
#[verifier::external_body]
fn push_char(out: &mut String, c: char)
    ensures
        final(out)@ == old(out)@ + seq![c],
{
    out.push(c);
}

/// The hexadecimal digit for `n`, lower case.
fn hex_digit(n: u8) -> (c: char)
    requires
        n < 16,
    ensures
        c == spec_hex_digit(n as int),
{
    if n < 10 {
        (n + 48) as char
    } else {
        (n + 87) as char
    }
}

/// Appends the escaped form of `s` to `out`.
fn escape_into(out: &mut String, s: &str)
    ensures
        final(out)@ == old(out)@ + spec_escape(s@),
{
    let ghost base: Seq<char> = out@;
    let n = s.unicode_len();
    proof {
        assert(s@.skip(0) =~= s@);
    }
    let mut i: usize = 0;
    while i < n
        invariant
            n == s@.len(),
            i <= n,
            out@ + spec_escape(s@.skip(i as int)) =~= base + spec_escape(s@),
        decreases n - i,
    {
        let c = s.get_char(i);
        proof {
            assert(s@.skip(i as int)[0] == c);
            assert(s@.skip(i as int).drop_first() =~= s@.skip(i as int + 1));
            assert(spec_escape(s@.skip(i as int)) == spec_escape_char(c) + spec_escape(
                s@.skip(i as int + 1),
            ));
        }
        if c == '"' {
            push_char(out, '\\');
            push_char(out, '"');
        } else if c == '\\' {
            push_char(out, '\\');
            push_char(out, '\\');
        } else if (c as u32) < 0x20 {
            push_char(out, '\\');
            push_char(out, 'u');
            push_char(out, '0');
            push_char(out, '0');
            let cv = c as u32;
            push_char(out, hex_digit((cv / 16) as u8));
            push_char(out, hex_digit((cv % 16) as u8));
        } else {
            push_char(out, c);
        }
        i += 1;
        proof {
            assert(out@ + spec_escape(s@.skip(i as int)) =~= base + spec_escape(s@));
        }
    }
    proof {
        assert(s@.skip(n as int) =~= Seq::<char>::empty());
        assert(out@ =~= base + spec_escape(s@));
    }
}

/// Appends the JSON string literal for `s` to `out`.
pub fn write_json_string(out: &mut String, s: &str)
    ensures
        final(out)@ == old(out)@ + spec_json_string(s@),
{
    let ghost base: Seq<char> = out@;
    push_char(out, '"');
    escape_into(out, s);
    push_char(out, '"');
    proof {
        assert(out@ =~= base + spec_json_string(s@));
    }
}

} // verus!
