use vstd::prelude::*;
use vstd::string::StringExecFns;

verus! {

/// Character for a single decimal digit value.
pub open spec fn spec_digit_char(d: int) -> char {
    if d == 0 {
        '0'
    } else if d == 1 {
        '1'
    } else if d == 2 {
        '2'
    } else if d == 3 {
        '3'
    } else if d == 4 {
        '4'
    } else if d == 5 {
        '5'
    } else if d == 6 {
        '6'
    } else if d == 7 {
        '7'
    } else if d == 8 {
        '8'
    } else {
        '9'
    }
}

/// The decimal digit string of `n`, most significant digit first, with no
/// leading zeros (the number zero is the single character `0`).
pub open spec fn spec_u64_decimal(n: nat) -> Seq<char>
    decreases n,
{
    if n < 10 {
        seq![spec_digit_char(n as int)]
    } else {
        spec_u64_decimal(n / 10).push(spec_digit_char((n % 10) as int))
    }
}

/// Digits collected least significant first, read back most significant
/// first.
spec fn rev_digit_chars(ds: Seq<u64>) -> Seq<char>
    decreases ds.len(),
{
    if ds.len() == 0 {
        Seq::empty()
    } else {
        rev_digit_chars(ds.drop_first()) + seq![spec_digit_char(ds.first() as int)]
    }
}

proof fn lemma_rev_digit_chars_push(ds: Seq<u64>, x: u64)
    ensures
        rev_digit_chars(ds.push(x)) == seq![spec_digit_char(x as int)] + rev_digit_chars(ds),
    decreases ds.len(),
{
    let p = ds.push(x);
    assert(p.len() == ds.len() + 1);
    assert(p.first() == if ds.len() == 0 { x } else { ds.first() });
    if ds.len() == 0 {
        assert(p.drop_first() =~= Seq::<u64>::empty());
        assert(rev_digit_chars(p) == rev_digit_chars(p.drop_first()) + seq![
            spec_digit_char(p.first() as int),
        ]);
        assert(rev_digit_chars(Seq::<u64>::empty()) =~= Seq::<char>::empty());
        assert(rev_digit_chars(p) =~= seq![spec_digit_char(x as int)] + rev_digit_chars(ds));
    } else {
        assert(p.drop_first() =~= ds.drop_first().push(x));
        lemma_rev_digit_chars_push(ds.drop_first(), x);
        assert(rev_digit_chars(p) == rev_digit_chars(p.drop_first()) + seq![
            spec_digit_char(p.first() as int),
        ]);
        assert(rev_digit_chars(p) =~= seq![spec_digit_char(x as int)] + rev_digit_chars(ds));
    }
}

/// One-character string for a digit value.
fn digit_str(d: u64) -> (r: &'static str)
    requires
        d < 10,
    ensures
        r@ == seq![spec_digit_char(d as int)],
{
    proof {
        reveal_strlit("0");
        reveal_strlit("1");
        reveal_strlit("2");
        reveal_strlit("3");
        reveal_strlit("4");
        reveal_strlit("5");
        reveal_strlit("6");
        reveal_strlit("7");
        reveal_strlit("8");
        reveal_strlit("9");
    }
    let r = match d {
        0 => "0",
        1 => "1",
        2 => "2",
        3 => "3",
        4 => "4",
        5 => "5",
        6 => "6",
        7 => "7",
        8 => "8",
        _ => "9",
    };
    proof {
        assert(r@ =~= seq![spec_digit_char(d as int)]);
    }
    r
}

/// Renders `n` in decimal, most significant digit first.
pub fn u64_to_decimal(n: u64) -> (r: String)
    ensures
        r@ == spec_u64_decimal(n as nat),
{
    let mut digits: Vec<u64> = Vec::new();
    let mut m = n;
    proof {
        assert(rev_digit_chars(Seq::<u64>::empty()) =~= Seq::<char>::empty());
        assert(spec_u64_decimal(n as nat) =~= spec_u64_decimal(n as nat) + Seq::<char>::empty());
    }
    loop
        invariant_except_break
            forall|j: int| 0 <= j < digits@.len() ==> digits@[j] < 10,
            m == 0 ==> digits@.len() == 0 && n == 0,
            m > 0 ==> spec_u64_decimal(n as nat) == spec_u64_decimal(m as nat) + rev_digit_chars(
                digits@,
            ),
        ensures
            forall|j: int| 0 <= j < digits@.len() ==> digits@[j] < 10,
            spec_u64_decimal(n as nat) == rev_digit_chars(digits@),
        decreases m,
    {
        let d = m % 10;
        let ghost old_m = m as nat;
        let ghost old_digits = digits@;
        digits.push(d);
        m = m / 10;
        proof {
            lemma_rev_digit_chars_push(old_digits, d);
            if old_m == 0 {
                assert(rev_digit_chars(digits@) =~= seq![spec_digit_char(0)]);
            } else if old_m < 10 {
                assert(spec_u64_decimal(old_m) =~= seq![spec_digit_char(d as int)]);
                assert(spec_u64_decimal(n as nat) =~= rev_digit_chars(digits@));
            } else {
                vstd::arithmetic::div_mod::lemma_div_is_strictly_smaller(
                    old_m as int,
                    10,
                );
                assert(spec_u64_decimal(old_m) =~= spec_u64_decimal(m as nat) + seq![
                    spec_digit_char(d as int),
                ]);
                assert(spec_u64_decimal(n as nat) =~= spec_u64_decimal(m as nat) + rev_digit_chars(
                    digits@,
                ));
            }
        }
        if m == 0 {
            break;
        }
    }
    let mut r = String::new();
    let mut i = digits.len();
    while i > 0
        invariant
            i <= digits@.len(),
            forall|j: int| 0 <= j < digits@.len() ==> digits@[j] < 10,
            r@ == rev_digit_chars(digits@.subrange(i as int, digits@.len() as int)),
        decreases i,
    {
        i = i - 1;
        r.append(digit_str(digits[i]));
        proof {
            let ds = digits@.subrange(i as int, digits@.len() as int);
            assert(ds.drop_first() =~= digits@.subrange(i as int + 1, digits@.len() as int));
            assert(r@ =~= rev_digit_chars(ds));
        }
    }
    proof {
        assert(digits@.subrange(0, digits@.len() as int) =~= digits@);
        if n == 0 {
            assert(spec_u64_decimal(0) == seq![spec_digit_char(0)]);
        }
    }
    r
}

/// Whether two strings hold the same characters.
pub fn str_equal(a: &str, b: &str) -> (r: bool)
    ensures
        r == (a@ == b@),
{
    let x = a.to_owned();
    let y = b.to_owned();
    x == y
}

} // verus!
