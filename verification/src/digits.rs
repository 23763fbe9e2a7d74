//! Decimal rendering of positions: the `[position/total]` label that the
//! status line and the bookmark slots display.

use vstd::prelude::*;

verus! {

/// The character for a single decimal digit value.
pub open spec fn digit_char(d: int) -> char {
    if d == 0 {
        '0'
    } else if d == 1 {
        '1'
    } else if d == 2 {
        '2'
    } else if d == 3 {
        '3'
    } else if d == 4 {
        '4'
    } else if d == 5 {
        '5'
    } else if d == 6 {
        '6'
    } else if d == 7 {
        '7'
    } else if d == 8 {
        '8'
    } else {
        '9'
    }
}

/// The usual decimal representation of a natural number, most significant
/// digit first, with no leading zeros (a lone zero is "0").
pub open spec fn dec_rep(n: nat) -> Seq<char>
    decreases n,
{
    if n < 10 {
        seq![digit_char(n as int)]
    } else {
        dec_rep(n / 10).push(digit_char((n % 10) as int))
    }
}

/// The `[position/total]` label shown for the file at index `i` of a list of
/// `n` files: positions are displayed one-based.
pub open spec fn idx_label(i: int, n: int) -> Seq<char> {
    seq!['['] + dec_rep((i + 1) as nat) + seq!['/'] + dec_rep(n as nat) + seq![']']
}

fn digit_str(d: usize) -> (r: &'static str)
    requires
        d < 10,
    ensures
        r@ == seq![digit_char(d as int)],
{
    proof {
        reveal_strlit("0");
        reveal_strlit("1");
        reveal_strlit("2");
        reveal_strlit("3");
        reveal_strlit("4");
        reveal_strlit("5");
        reveal_strlit("6");
        reveal_strlit("7");
        reveal_strlit("8");
        reveal_strlit("9");
    }
    let r = match d {
        0 => "0",
        1 => "1",
        2 => "2",
        3 => "3",
        4 => "4",
        5 => "5",
        6 => "6",
        7 => "7",
        8 => "8",
        _ => "9",
    };
    proof {
        assert(r@ =~= seq![digit_char(d as int)]);
    }
    r
}

/// Renders `n` in decimal.
pub fn dec_string(n: usize) -> (r: String)
    ensures
        r@ == dec_rep(n as nat),
    decreases n,
{
    if n < 10 {
        String::from_str(digit_str(n))
    } else {
        let mut r = dec_string(n / 10);
        r.append(digit_str(n % 10));
        proof {
            assert(r@ =~= dec_rep(n as nat));
        }
        r
    }
}

/// Builds the `[position/total]` label for index `i` in a list of `max`
/// entries, displaying the position one-based.
pub fn make_idx(i: usize, max: usize) -> (r: String)
    requires
        i < max,
    ensures
        r@ == idx_label(i as int, max as int),
{
    proof {
        reveal_strlit("[");
        reveal_strlit("/");
        reveal_strlit("]");
    }
    let mut r = String::from_str("[");
    r.append(dec_string(i + 1).as_str());
    r.append("/");
    r.append(dec_string(max).as_str());
    r.append("]");
    proof {
        assert(r@ =~= idx_label(i as int, max as int));
    }
    r
}

} // verus!
