//! Canonical text renderings of the plain values a result cell can hold.
//!
//! Integers render as decimal numerals (with a leading `-` when negative) and
//! booleans as `true` / `false`, matching the renderings the rest of the
//! library promises for decoded cells.

use vstd::prelude::*;

verus! {

pub const DIGITS: [char; 10] = ['0', '1', '2', '3', '4', '5', '6', '7', '8', '9'];

/// The decimal numeral of a natural number, most significant digit first.
pub open spec fn spec_dec(n: nat) -> Seq<char>
    decreases n,
{
    if n < 10 {
        seq![DIGITS@[n as int]]
    } else {
        spec_dec(n / 10) + seq![DIGITS@[(n % 10) as int]]
    }
}

/// The decimal numeral of an integer: a `-` sign, if negative, then digits.
pub open spec fn spec_int_dec(i: int) -> Seq<char> {
    if i >= 0 {
        spec_dec(i as nat)
    } else {
        seq!['-'] + spec_dec((-i) as nat)
    }
}

/// The canonical rendering of a boolean.
pub open spec fn spec_bool_text(b: bool) -> Seq<char> {
    if b {
        "true"@
    } else {
        "false"@
    }
}

/// Relies on std's `String::push`: it appends the given character to the end
/// of the string.
#[verifier::external_body]
fn string_push(s: &mut String, c: char)
    ensures
        final(s)@ == old(s)@.push(c),
{
    s.push(c);
}

fn push_u64_dec(s: &mut String, v: u64)
    ensures
        final(s)@ == old(s)@ + spec_dec(v as nat),
    decreases v,
{
    if v >= 10 {
        push_u64_dec(s, v / 10);
        string_push(s, DIGITS[(v % 10) as usize]);
        proof {
            assert(old(s)@ + spec_dec(v as nat) =~= (old(s)@ + spec_dec((v / 10) as nat)).push(
                DIGITS@[(v % 10) as int],
            ));
        }
    } else {
        string_push(s, DIGITS[v as usize]);
        proof {
            assert(old(s)@ + spec_dec(v as nat) =~= old(s)@.push(DIGITS@[v as int]));
        }
    }
}

/// The decimal rendering of an unsigned 64-bit integer.
pub fn u64_to_string(v: u64) -> (r: String)
    ensures
        r@ == spec_dec(v as nat),
{
    let mut s = String::new();
    push_u64_dec(&mut s, v);
    proof {
        assert(Seq::<char>::empty() + spec_dec(v as nat) =~= spec_dec(v as nat));
    }
    s
}

/// The decimal rendering of a signed 64-bit integer.
pub fn i64_to_string(v: i64) -> (r: String)
    ensures
        r@ == spec_int_dec(v as int),
{
    if v >= 0 {
        u64_to_string(v as u64)
    } else {
        let mut s = String::new();
        string_push(&mut s, '-');
        let abs: u64 = (-(v as i128)) as u64;
        push_u64_dec(&mut s, abs);
        proof {
            assert(abs as nat == (-(v as int)) as nat);
            assert(Seq::<char>::empty().push('-') + spec_dec(abs as nat) =~= seq!['-'] + spec_dec(
                (-(v as int)) as nat,
            ));
        }
        s
    }
}

/// The decimal rendering of a signed 32-bit integer.
pub fn i32_to_string(v: i32) -> (r: String)
    ensures
        r@ == spec_int_dec(v as int),
{
    i64_to_string(v as i64)
}

/// The decimal rendering of a signed 16-bit integer.
pub fn i16_to_string(v: i16) -> (r: String)
    ensures
        r@ == spec_int_dec(v as int),
{
    i64_to_string(v as i64)
}

/// The canonical rendering of a boolean.
pub fn bool_to_string(b: bool) -> (r: String)
    ensures
        r@ == spec_bool_text(b),
{
    if b {
        "true".to_owned()
    } else {
        "false".to_owned()
    }
}

} // verus!
