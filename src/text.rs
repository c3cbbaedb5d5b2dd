//! Decimal rendering of heights and output references.
use vstd::prelude::*;
use vstd::string::{StringExecFns, StrSliceExecFns};

verus! {

/// The character of the decimal digit `d`.
pub open spec fn digit_char(d: nat) -> char {
    if d == 0 { '0' }
    else if d == 1 { '1' }
    else if d == 2 { '2' }
    else if d == 3 { '3' }
    else if d == 4 { '4' }
    else if d == 5 { '5' }
    else if d == 6 { '6' }
    else if d == 7 { '7' }
    else if d == 8 { '8' }
    else { '9' }
}

/// The decimal representation of `n`, without leading zeros.
pub open spec fn decimal(n: nat) -> Seq<char>
    decreases n,
{
    if n < 10 {
        seq![digit_char(n)]
    } else {
        decimal(n / 10).push(digit_char(n % 10))
    }
}

/// The terminal escape that starts green text.
pub open spec fn green_code() -> Seq<char> {
    seq!['\x1b', '[', '3', '2', 'm']
}

/// The terminal escape that resets the text colour.
pub open spec fn reset_code() -> Seq<char> {
    seq!['\x1b', '[', '0', 'm']
}

/// `n` in decimal with its last three digits (all of them, if it has no more
/// than three) in green.
pub open spec fn colored_last_3(n: nat) -> Seq<char> {
    let d = decimal(n);
    if d.len() > 3 {
        d.subrange(0, d.len() - 3) + green_code() + d.subrange(d.len() - 3, d.len() as int)
            + reset_code()
    } else {
        green_code() + d + reset_code()
    }
}

/// An input named by the transaction it spends from and the output index:
/// `txid:vout`.
pub open spec fn outpoint_label(txid: Seq<char>, vout: u32) -> Seq<char> {
    txid + seq![':'] + decimal(vout as nat)
}

fn digit_str(d: u32) -> (r: &'static str)
    requires
        d < 10,
    ensures
        r@ == seq![digit_char(d as nat)],
{
    if d == 0 {
        proof { reveal_strlit("0"); }
        "0"
    } else if d == 1 {
        proof { reveal_strlit("1"); }
        "1"
    } else if d == 2 {
        proof { reveal_strlit("2"); }
        "2"
    } else if d == 3 {
        proof { reveal_strlit("3"); }
        "3"
    } else if d == 4 {
        proof { reveal_strlit("4"); }
        "4"
    } else if d == 5 {
        proof { reveal_strlit("5"); }
        "5"
    } else if d == 6 {
        proof { reveal_strlit("6"); }
        "6"
    } else if d == 7 {
        proof { reveal_strlit("7"); }
        "7"
    } else if d == 8 {
        proof { reveal_strlit("8"); }
        "8"
    } else {
        proof { reveal_strlit("9"); }
        "9"
    }
}

/// Appends the decimal representation of `n` to `s`.
pub fn push_decimal(s: &mut String, n: u32)
    ensures
        final(s)@ == old(s)@ + decimal(n as nat),
    decreases n,
{
    if n >= 10 {
        push_decimal(s, n / 10);
    }
    s.append(digit_str(n % 10));
}

/// The decimal representation of `n`.
pub fn decimal_string(n: u32) -> (r: String)
    ensures
        r@ == decimal(n as nat),
{
    let mut s = String::new();
    push_decimal(&mut s, n);
    proof {
        assert(s@ == Seq::<char>::empty() + decimal(n as nat));
    }
    s
}

/// `n` in decimal, with its last three digits coloured green for a terminal.
pub fn color_last_3_digits(num: u32) -> (r: String)
    ensures
        r@ == colored_last_3(num as nat),
{
    let num_str = decimal_string(num);
    let len = num_str.as_str().unicode_len();
    proof {
        reveal_strlit("\x1b[32m");
        reveal_strlit("\x1b[0m");
    }
    if len > 3 {
        let prefix = num_str.as_str().substring_char(0, len - 3);
        let suffix = num_str.as_str().substring_char(len - 3, len);
        let mut out = String::from_str(prefix);
        out.append("\x1b[32m");
        out.append(suffix);
        out.append("\x1b[0m");
        out
    } else {
        let mut out = String::from_str("\x1b[32m");
        out.append(num_str.as_str());
        out.append("\x1b[0m");
        out
    }
}

/// The label `txid:vout` of an input.
pub fn outpoint_string(txid: &str, vout: u32) -> (r: String)
    ensures
        r@ == outpoint_label(txid@, vout),
{
    let mut out = String::from_str(txid);
    proof { reveal_strlit(":"); }
    out.append(":");
    push_decimal(&mut out, vout);
    out
}

} // verus!
