//! Decimal rendering of integers, used when an integer value is coerced to
//! text.
//!
//! [`decimal_of`] is the mathematical statement: the usual base-ten
//! rendering, most significant digit first, with a leading minus sign for
//! negative numbers and no leading zeroes.  [`i64_to_text`] computes it.

use vstd::prelude::*;

verus! {

/// The character for one decimal digit.
pub open spec fn digit_char(d: nat) -> char {
    if d == 0 {
        '0'
    } else if d == 1 {
        '1'
    } else if d == 2 {
        '2'
    } else if d == 3 {
        '3'
    } else if d == 4 {
        '4'
    } else if d == 5 {
        '5'
    } else if d == 6 {
        '6'
    } else if d == 7 {
        '7'
    } else if d == 8 {
        '8'
    } else {
        '9'
    }
}

/// The decimal digits of a natural number, most significant first.
pub open spec fn decimal_digits(n: nat) -> Seq<char>
    decreases n,
{
    if n < 10 {
        seq![digit_char(n)]
    } else {
        decimal_digits(n / 10).push(digit_char(n % 10))
    }
}

/// The decimal rendering of an integer.
pub open spec fn decimal_of(n: int) -> Seq<char> {
    if n >= 0 {
        decimal_digits(n as nat)
    } else {
        seq!['-'] + decimal_digits((-n) as nat)
    }
}

/// The characters of a digit buffer read back to front: digits are collected
/// least significant first, so reading them in reverse yields the rendering.
spec fn rev_chars(s: Seq<u8>) -> Seq<char>
    decreases s.len(),
{
    if s.len() == 0 {
        Seq::<char>::empty()
    } else {
        seq![digit_char(s.last() as nat)] + rev_chars(s.drop_last())
    }
}

proof fn lemma_rev_chars_len(s: Seq<u8>)
    ensures
        rev_chars(s).len() == s.len(),
    decreases s.len(),
{
    if s.len() > 0 {
        lemma_rev_chars_len(s.drop_last());
    }
}

proof fn lemma_rev_chars_index(s: Seq<u8>, i: int)
    requires
        0 <= i < s.len(),
    ensures
        rev_chars(s)[i] == digit_char(s[s.len() - 1 - i] as nat),
    decreases s.len(),
{
    lemma_rev_chars_len(s.drop_last());
    if i > 0 {
        lemma_rev_chars_index(s.drop_last(), i - 1);
    }
}

/// The one-character text of a decimal digit.
fn digit_str(d: u8) -> (r: &'static str)
    requires
        d < 10,
    ensures
        r@ == seq![digit_char(d as nat)],
{
    if d == 0 {
        proof {
            reveal_strlit("0");
            assert("0"@ =~= seq![digit_char(0)]);
        }
        "0"
    } else if d == 1 {
        proof {
            reveal_strlit("1");
            assert("1"@ =~= seq![digit_char(1)]);
        }
        "1"
    } else if d == 2 {
        proof {
            reveal_strlit("2");
            assert("2"@ =~= seq![digit_char(2)]);
        }
        "2"
    } else if d == 3 {
        proof {
            reveal_strlit("3");
            assert("3"@ =~= seq![digit_char(3)]);
        }
        "3"
    } else if d == 4 {
        proof {
            reveal_strlit("4");
            assert("4"@ =~= seq![digit_char(4)]);
        }
        "4"
    } else if d == 5 {
        proof {
            reveal_strlit("5");
            assert("5"@ =~= seq![digit_char(5)]);
        }
        "5"
    } else if d == 6 {
        proof {
            reveal_strlit("6");
            assert("6"@ =~= seq![digit_char(6)]);
        }
        "6"
    } else if d == 7 {
        proof {
            reveal_strlit("7");
            assert("7"@ =~= seq![digit_char(7)]);
        }
        "7"
    } else if d == 8 {
        proof {
            reveal_strlit("8");
            assert("8"@ =~= seq![digit_char(8)]);
        }
        "8"
    } else {
        proof {
            reveal_strlit("9");
            assert("9"@ =~= seq![digit_char(9)]);
        }
        "9"
    }
}

/// Render a 64-bit integer in decimal.
pub fn i64_to_text(n: i64) -> (r: String)
    ensures
        r@ == decimal_of(n as int),
{
    let neg: bool = n < 0;
    let mag: u64 = if n >= 0 {
        n as u64
    } else if n == i64::MIN {
        9223372036854775808u64
    } else {
        (-n) as u64
    };
    let ghost magg: nat = mag as nat;
    proof {
        assert(magg == if n as int >= 0 {
            n as int
        } else {
            -(n as int)
        });
    }
    let mut ds: Vec<u8> = Vec::new();
    let mut cur: u64 = mag;
    if cur == 0 {
        ds.push(0u8);
        proof {
            assert(ds@ =~= seq![0u8]);
            assert(ds@.drop_last() =~= Seq::<u8>::empty());
            assert(rev_chars(Seq::<u8>::empty()) =~= Seq::<char>::empty());
            assert(rev_chars(ds@) =~= seq![digit_char(0)]);
            assert(decimal_digits(magg) =~= rev_chars(ds@));
        }
    }
    while cur > 0
        invariant
            forall|j: int| 0 <= j < ds@.len() ==> ds@[j] < 10,
            cur > 0 ==> decimal_digits(magg) =~= decimal_digits(cur as nat) + rev_chars(ds@),
            cur == 0 ==> ds@.len() > 0 && decimal_digits(magg) =~= rev_chars(ds@),
        decreases cur,
    {
        let ghost old_cur: nat = cur as nat;
        let ghost old_ds: Seq<u8> = ds@;
        let d: u8 = (cur % 10) as u8;
        ds.push(d);
        cur = cur / 10;
        proof {
            assert(ds@.last() == d);
            assert(ds@.drop_last() =~= old_ds);
            assert(rev_chars(ds@) =~= seq![digit_char(d as nat)] + rev_chars(old_ds));
            if cur == 0 {
                assert(old_cur < 10);
                assert(decimal_digits(old_cur) =~= seq![digit_char(old_cur)]);
                assert(d as nat == old_cur);
                assert(decimal_digits(magg) =~= rev_chars(ds@));
            } else {
                assert(old_cur >= 10);
                assert(cur as nat == old_cur / 10);
                assert(decimal_digits(old_cur) =~= decimal_digits(old_cur / 10).push(
                    digit_char(old_cur % 10),
                ));
                assert(decimal_digits(old_cur / 10).push(digit_char(d as nat))
                    =~= decimal_digits(old_cur / 10) + seq![digit_char(d as nat)]);
                assert(decimal_digits(magg) =~= decimal_digits(cur as nat) + rev_chars(ds@));
            }
        }
    }
    proof {
        lemma_rev_chars_len(ds@);
    }
    let mut digits = String::new();
    let mut i: usize = ds.len();
    while i > 0
        invariant
            i <= ds@.len(),
            forall|j: int| 0 <= j < ds@.len() ==> ds@[j] < 10,
            rev_chars(ds@).len() == ds@.len(),
            digits@ =~= rev_chars(ds@).take(ds@.len() - i),
        decreases i,
    {
        i = i - 1;
        let d: u8 = ds[i];
        let s: &str = digit_str(d);
        digits.append(s);
        proof {
            lemma_rev_chars_index(ds@, ds@.len() - 1 - i);
            assert(digits@ =~= rev_chars(ds@).take(ds@.len() - i));
        }
    }
    proof {
        assert(rev_chars(ds@).take(ds@.len() - 0) =~= rev_chars(ds@));
        assert(digits@ =~= decimal_digits(magg));
    }
    if neg {
        let mut r = String::new();
        r.append("-");
        r.append(digits.as_str());
        proof {
            reveal_strlit("-");
            assert("-"@ =~= seq!['-']);
            assert(r@ =~= seq!['-'] + decimal_digits(magg));
        }
        r
    } else {
        digits
    }
}

} // verus!
