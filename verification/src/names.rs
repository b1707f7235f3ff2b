//! Synthesized names for clipboard-sourced blobs.
//!
//! Blobs taken from a paste event carry no file name, so the controller names
//! them `clipboard_<index>`, with the index counting the image items of that
//! one paste event from zero.

use vstd::prelude::*;
use vstd::string::StringExecFns;

verus! {

/// The character for a single decimal digit.
pub open spec fn digit_char(d: nat) -> char {
    if d == 0 {
        '0'
    } else if d == 1 {
        '1'
    } else if d == 2 {
        '2'
    } else if d == 3 {
        '3'
    } else if d == 4 {
        '4'
    } else if d == 5 {
        '5'
    } else if d == 6 {
        '6'
    } else if d == 7 {
        '7'
    } else if d == 8 {
        '8'
    } else {
        '9'
    }
}

/// The usual decimal rendering of `n`, most significant digit first, with no
/// leading zeros (except for `n == 0` itself).
pub open spec fn dec_rep(n: nat) -> Seq<char>
    decreases n,
{
    if n < 10 {
        seq![digit_char(n)]
    } else {
        dec_rep(n / 10) + seq![digit_char(n % 10)]
    }
}

/// The name given to the clipboard blob at position `i` of a paste event.
pub open spec fn clipboard_name_spec(i: nat) -> Seq<char> {
    "clipboard_"@ + dec_rep(i)
}

/// A `&str` holding exactly the one decimal digit `d`.
fn digit_str(d: usize) -> (r: &'static str)
    requires
        d < 10,
    ensures
        r@ =~= seq![digit_char(d as nat)],
{
    proof {
        reveal_strlit("0");
        reveal_strlit("1");
        reveal_strlit("2");
        reveal_strlit("3");
        reveal_strlit("4");
        reveal_strlit("5");
        reveal_strlit("6");
        reveal_strlit("7");
        reveal_strlit("8");
        reveal_strlit("9");
    }
    match d {
        0 => "0",
        1 => "1",
        2 => "2",
        3 => "3",
        4 => "4",
        5 => "5",
        6 => "6",
        7 => "7",
        8 => "8",
        _ => "9",
    }
}

/// Appends the decimal rendering of `n` to `s`.
fn push_dec(s: &mut String, n: usize)
    ensures
        final(s)@ == old(s)@ + dec_rep(n as nat),
    decreases n,
{
    if n >= 10 {
        push_dec(s, n / 10);
    }
    let d: usize = n % 10;
    s.append(digit_str(d));
    proof {
        assert(s@ =~= old(s)@ + dec_rep(n as nat));
    }
}

/// The names of the first two clipboard blobs of one paste event, written
/// out: a paste carrying two image file items submits blobs named
/// `clipboard_0` and `clipboard_1`.
pub proof fn lemma_first_two_clipboard_names()
    ensures
        clipboard_name_spec(0) == "clipboard_0"@,
        clipboard_name_spec(1) == "clipboard_1"@,
{
    reveal_strlit("clipboard_");
    reveal_strlit("clipboard_0");
    reveal_strlit("clipboard_1");
    assert(clipboard_name_spec(0) =~= "clipboard_0"@);
    assert(clipboard_name_spec(1) =~= "clipboard_1"@);
}

/// The name `clipboard_<i>` for the clipboard blob at position `i`.
pub fn clipboard_name(i: usize) -> (r: String)
    ensures
        r@ == clipboard_name_spec(i as nat),
{
    let mut s = String::from_str("clipboard_");
    push_dec(&mut s, i);
    proof {
        assert(s@ =~= clipboard_name_spec(i as nat));
    }
    s
}

} // verus!
