//! Decimal rendering of unsigned integers, used to populate the metadata
//! headers with the snapshot's fields verbatim.

use vstd::prelude::*;

verus! {

/// The character for a single decimal digit.
pub open spec fn digit_char(d: nat) -> char {
    if d == 0 {
        '0'
    } else if d == 1 {
        '1'
    } else if d == 2 {
        '2'
    } else if d == 3 {
        '3'
    } else if d == 4 {
        '4'
    } else if d == 5 {
        '5'
    } else if d == 6 {
        '6'
    } else if d == 7 {
        '7'
    } else if d == 8 {
        '8'
    } else {
        '9'
    }
}

/// The canonical decimal rendering of `n`: no sign, no leading zero except
/// for `n == 0` itself.
pub open spec fn dec_str_of(n: nat) -> Seq<char>
    decreases n,
{
    if n < 10 {
        seq![digit_char(n)]
    } else {
        dec_str_of(n / 10).push(digit_char(n % 10))
    }
}

pub proof fn lemma_dec_str_len(n: nat)
    ensures
        dec_str_of(n).len() >= 1,
        n >= 10 ==> dec_str_of(n).len() >= 2,
    decreases n,
{
    if n >= 10 {
        lemma_dec_str_len(n / 10);
    }
}

proof fn lemma_digit_char_injective(a: nat, b: nat)
    requires
        a < 10,
        b < 10,
        digit_char(a) == digit_char(b),
    ensures
        a == b,
{
}

/// Two distinct numbers never share a decimal rendering: the rendering pins
/// the number down exactly.
pub proof fn lemma_dec_str_injective(a: nat, b: nat)
    requires
        dec_str_of(a) == dec_str_of(b),
    ensures
        a == b,
    decreases a,
{
    lemma_dec_str_len(a);
    lemma_dec_str_len(b);
    if a < 10 && b < 10 {
        assert(dec_str_of(a)[0] == digit_char(a));
        assert(dec_str_of(b)[0] == digit_char(b));
        lemma_digit_char_injective(a, b);
    } else if a < 10 {
        assert(dec_str_of(a).len() == 1);
        assert(dec_str_of(b).len() >= 2);
    } else if b < 10 {
        assert(dec_str_of(a).len() >= 2);
        assert(dec_str_of(b).len() == 1);
    } else {
        let la = dec_str_of(a / 10).len() as int;
        assert(dec_str_of(a).len() == la + 1);
        assert(dec_str_of(b).len() == dec_str_of(b / 10).len() + 1);
        assert(dec_str_of(a)[la] == digit_char(a % 10));
        assert(dec_str_of(b)[la] == digit_char(b % 10));
        lemma_digit_char_injective(a % 10, b % 10);
        assert(dec_str_of(a / 10) =~= dec_str_of(b / 10)) by {
            assert forall|i: int| 0 <= i < la implies #[trigger] dec_str_of(a / 10)[i]
                == dec_str_of(b / 10)[i] by {
                assert(dec_str_of(a)[i] == dec_str_of(a / 10)[i]);
                assert(dec_str_of(b)[i] == dec_str_of(b / 10)[i]);
            }
        }
        lemma_dec_str_injective(a / 10, b / 10);
    }
}

/// Appends the character for one decimal digit to `s`.
fn push_digit(s: &mut String, d: u64)
    requires
        d < 10,
    ensures
        final(s)@ == old(s)@ + seq![digit_char(d as nat)],
{
    if d == 0 {
        s.append("0");
        proof {
            reveal_strlit("0");
            assert(old(s)@ + "0"@ =~= old(s)@ + seq![digit_char(d as nat)]);
        }
    } else if d == 1 {
        s.append("1");
        proof {
            reveal_strlit("1");
            assert(old(s)@ + "1"@ =~= old(s)@ + seq![digit_char(d as nat)]);
        }
    } else if d == 2 {
        s.append("2");
        proof {
            reveal_strlit("2");
            assert(old(s)@ + "2"@ =~= old(s)@ + seq![digit_char(d as nat)]);
        }
    } else if d == 3 {
        s.append("3");
        proof {
            reveal_strlit("3");
            assert(old(s)@ + "3"@ =~= old(s)@ + seq![digit_char(d as nat)]);
        }
    } else if d == 4 {
        s.append("4");
        proof {
            reveal_strlit("4");
            assert(old(s)@ + "4"@ =~= old(s)@ + seq![digit_char(d as nat)]);
        }
    } else if d == 5 {
        s.append("5");
        proof {
            reveal_strlit("5");
            assert(old(s)@ + "5"@ =~= old(s)@ + seq![digit_char(d as nat)]);
        }
    } else if d == 6 {
        s.append("6");
        proof {
            reveal_strlit("6");
            assert(old(s)@ + "6"@ =~= old(s)@ + seq![digit_char(d as nat)]);
        }
    } else if d == 7 {
        s.append("7");
        proof {
            reveal_strlit("7");
            assert(old(s)@ + "7"@ =~= old(s)@ + seq![digit_char(d as nat)]);
        }
    } else if d == 8 {
        s.append("8");
        proof {
            reveal_strlit("8");
            assert(old(s)@ + "8"@ =~= old(s)@ + seq![digit_char(d as nat)]);
        }
    } else {
        s.append("9");
        proof {
            reveal_strlit("9");
            assert(old(s)@ + "9"@ =~= old(s)@ + seq![digit_char(d as nat)]);
        }
    }
}

/// Appends the decimal rendering of `n` to `s`, most significant digit first.
fn push_dec(s: &mut String, n: u64)
    ensures
        final(s)@ == old(s)@ + dec_str_of(n as nat),
    decreases n,
{
    if n < 10 {
        push_digit(s, n);
    } else {
        push_dec(s, n / 10);
        push_digit(s, n % 10);
        proof {
            assert((n / 10) as nat == (n as nat) / 10);
            assert((n % 10) as nat == (n as nat) % 10);
            assert(old(s)@ + dec_str_of((n / 10) as nat) + seq![digit_char((n % 10) as nat)]
                =~= old(s)@ + dec_str_of(n as nat));
        }
    }
}

/// The decimal rendering of `n` as an owned string.
pub fn u64_to_dec(n: u64) -> (r: String)
    ensures
        r@ == dec_str_of(n as nat),
{
    let mut s = String::new();
    push_dec(&mut s, n);
    proof {
        assert(s@ =~= dec_str_of(n as nat));
    }
    s
}

} // verus!
