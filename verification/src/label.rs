//! The label values that tell the workers of a runtime apart: each worker's
//! index, written in decimal.

use vstd::prelude::*;
use vstd::string::*;

verus! {

/// The decimal digit of `d`, for `d < 10`.
pub open spec fn digit_char(d: nat) -> char {
    seq!['0', '1', '2', '3', '4', '5', '6', '7', '8', '9'][d as int]
}

/// `n` written in decimal, without leading zeros.
pub open spec fn decimal(n: nat) -> Seq<char>
    decreases n,
{
    if n < 10 {
        seq![digit_char(n)]
    } else {
        decimal(n / 10).push(digit_char(n % 10))
    }
}

/// The label value of worker `w`.
pub open spec fn spec_worker_label(w: nat) -> Seq<char> {
    decimal(w)
}

fn digit_str(d: usize) -> (r: &'static str)
    requires
        d < 10,
    ensures
        r@ == seq![digit_char(d as nat)],
{
    match d {
        0 => {
            proof {
                reveal_strlit("0");
            }
            "0"
        },
        1 => {
            proof {
                reveal_strlit("1");
            }
            "1"
        },
        2 => {
            proof {
                reveal_strlit("2");
            }
            "2"
        },
        3 => {
            proof {
                reveal_strlit("3");
            }
            "3"
        },
        4 => {
            proof {
                reveal_strlit("4");
            }
            "4"
        },
        5 => {
            proof {
                reveal_strlit("5");
            }
            "5"
        },
        6 => {
            proof {
                reveal_strlit("6");
            }
            "6"
        },
        7 => {
            proof {
                reveal_strlit("7");
            }
            "7"
        },
        8 => {
            proof {
                reveal_strlit("8");
            }
            "8"
        },
        _ => {
            proof {
                reveal_strlit("9");
            }
            "9"
        },
    }
}

fn append_decimal(s: &mut String, n: usize)
    ensures
        final(s)@ == old(s)@ + decimal(n as nat),
    decreases n,
{
    if n >= 10 {
        append_decimal(s, n / 10);
    }
    s.append(digit_str(n % 10));
    assert(decimal(n as nat) =~= if n < 10 {
        seq![digit_char(n as nat)]
    } else {
        decimal((n / 10) as nat).push(digit_char((n % 10) as nat))
    });
}

/// The label value of worker `worker`: its index in decimal, as the
/// standard library writes an integer.
pub fn worker_label(worker: usize) -> (r: String)
    ensures
        r@ == spec_worker_label(worker as nat),
        digits_value(r@) == worker,
{
    proof {
        lemma_worker_label_is_decimal(worker as nat);
    }
    let mut s = String::new();
    append_decimal(&mut s, worker);
    assert(s@ =~= decimal(worker as nat));
    s
}

proof fn lemma_decimal_len(n: nat)
    ensures
        decimal(n).len() >= 1,
        n >= 10 ==> decimal(n).len() >= 2,
    decreases n,
{
    if n >= 10 {
        lemma_decimal_len(n / 10);
    }
}

/// Distinct workers get distinct labels.
pub proof fn lemma_worker_labels_distinct(a: nat, b: nat)
    requires
        a != b,
    ensures
        spec_worker_label(a) != spec_worker_label(b),
    decreases a + b,
{
    lemma_decimal_len(a);
    lemma_decimal_len(b);
    if a < 10 && b < 10 {
        assert(decimal(a)[0] != decimal(b)[0]);
    } else if a >= 10 && b >= 10 {
        let da = decimal(a);
        let db = decimal(b);
        if da == db {
            assert(da.last() == digit_char(a % 10));
            assert(db.last() == digit_char(b % 10));
            assert(a % 10 == b % 10);
            assert(da.drop_last() =~= decimal(a / 10));
            assert(db.drop_last() =~= decimal(b / 10));
            lemma_worker_labels_distinct(a / 10, b / 10);
        }
    }
}

/// The number that a string of decimal digits stands for, read from the
/// most significant digit on (each character counted as its distance from
/// `'0'`).
pub open spec fn digits_value(s: Seq<char>) -> int
    decreases s.len(),
{
    if s.len() == 0 {
        0
    } else {
        digits_value(s.drop_last()) * 10 + (s.last() as int - '0' as int)
    }
}

proof fn lemma_digit_char(d: nat)
    requires
        d < 10,
    ensures
        digit_char(d) as int - '0' as int == d,
        '0' <= digit_char(d) <= '9',
{
    if d == 0 {
    } else if d == 1 {
    } else if d == 2 {
    } else if d == 3 {
    } else if d == 4 {
    } else if d == 5 {
    } else if d == 6 {
    } else if d == 7 {
    } else if d == 8 {
    } else {
    }
}

/// Law: the label of worker `w` is `w` written in decimal. It is a
/// non-empty string of the digits `'0'` to `'9'`, with no leading zero
/// (unless it is `"0"` itself), and read back as a decimal number it is `w`.
pub proof fn lemma_worker_label_is_decimal(w: nat)
    ensures
        spec_worker_label(w).len() >= 1,
        forall|i: int|
            0 <= i < spec_worker_label(w).len() ==> '0' <= #[trigger] spec_worker_label(w)[i]
                <= '9',
        spec_worker_label(w).len() > 1 ==> spec_worker_label(w)[0] != '0',
        digits_value(spec_worker_label(w)) == w,
    decreases w,
{
    lemma_digit_char(w % 10);
    assert(digits_value(Seq::<char>::empty()) == 0);
    if w < 10 {
        let d = decimal(w);
        assert(d =~= seq![digit_char(w)]);
        assert(d.drop_last() =~= Seq::<char>::empty());
        assert(w % 10 == w);
        assert(d.last() == digit_char(w));
        assert(digits_value(d) == digits_value(d.drop_last()) * 10 + (d.last() as int - '0' as int));
    } else {
        lemma_worker_label_is_decimal(w / 10);
        let p = decimal(w / 10);
        let d = decimal(w);
        assert(d =~= p.push(digit_char(w % 10)));
        assert(d.drop_last() =~= p);
        assert forall|i: int| 0 <= i < d.len() implies '0' <= #[trigger] d[i] <= '9' by {
            if i < p.len() {
                assert(d[i] == p[i]);
            }
        }
        assert(d[0] == p[0]);
        if p.len() == 1 {
            assert(digits_value(p) == p[0] as int - '0' as int) by {
                assert(p.drop_last() =~= Seq::<char>::empty());
                assert(p.last() == p[0]);
            }
            assert(w / 10 >= 1);
        }
        assert(d.last() == digit_char(w % 10));
        assert(digits_value(d) == digits_value(d.drop_last()) * 10 + (d.last() as int - '0' as int));
        assert(digits_value(d) == (w / 10) * 10 + w % 10);
    }
}

} // verus!
