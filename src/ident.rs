//! Synthesis of the temporary names bound by the rewrite.
use vstd::prelude::*;

verus! {

/// The character of a decimal digit.
pub open spec fn digit_char(d: nat) -> char {
    if d == 0 {
        '0'
    } else if d == 1 {
        '1'
    } else if d == 2 {
        '2'
    } else if d == 3 {
        '3'
    } else if d == 4 {
        '4'
    } else if d == 5 {
        '5'
    } else if d == 6 {
        '6'
    } else if d == 7 {
        '7'
    } else if d == 8 {
        '8'
    } else {
        '9'
    }
}

/// Whether `c` is one of the ten decimal digits.
pub open spec fn is_digit(c: char) -> bool {
    '0' <= c && c <= '9'
}

/// The decimal representation of `n`, without leading zeros.
pub open spec fn decimal(n: nat) -> Seq<char>
    decreases n,
{
    if n < 10 {
        seq![digit_char(n)]
    } else {
        decimal(n / 10).push(digit_char(n % 10))
    }
}

/// The reserved prefix that no hand-written binding is expected to use.
pub open spec fn temp_prefix() -> Seq<char> {
    "__rhs_first_assign_rhs_l"@
}

/// The name of the temporary for a compound operator at `line` and `column`:
/// `__rhs_first_assign_rhs_l<line>_c<column>`.
pub open spec fn temp_name(line: nat, column: nat) -> Seq<char> {
    temp_prefix() + decimal(line) + "_c"@ + decimal(column)
}

proof fn lemma_digit_char(d: nat)
    requires
        d < 10,
    ensures
        is_digit(digit_char(d)),
        forall|e: nat| e < 10 && digit_char(e) == digit_char(d) ==> e == d,
{
}

proof fn lemma_decimal_digits(n: nat)
    ensures
        decimal(n).len() >= 1,
        n >= 10 ==> decimal(n).len() >= 2,
        forall|i: int| 0 <= i < decimal(n).len() ==> is_digit(#[trigger] decimal(n)[i]),
    decreases n,
{
    lemma_digit_char(n % 10);
    if n >= 10 {
        lemma_decimal_digits(n / 10);
    }
}

proof fn lemma_decimal_injective(a: nat, b: nat)
    requires
        decimal(a) == decimal(b),
    ensures
        a == b,
    decreases a,
{
    lemma_digit_char(a % 10);
    lemma_digit_char(b % 10);
    lemma_decimal_digits(a);
    lemma_decimal_digits(b);
    if a >= 10 && b >= 10 {
        let da = decimal(a);
        let db = decimal(b);
        assert(da.last() == digit_char(a % 10));
        assert(db.last() == digit_char(b % 10));
        assert(decimal(a / 10) == da.drop_last());
        assert(decimal(b / 10) == db.drop_last());
        lemma_decimal_injective(a / 10, b / 10);
    } else if a < 10 && b < 10 {
        assert(decimal(a)[0] == digit_char(a));
        assert(decimal(b)[0] == digit_char(b));
    }
}

/// Distinct operator positions give distinct temporary names.
pub proof fn lemma_temp_name_unique(l1: nat, c1: nat, l2: nat, c2: nat)
    requires
        l1 != l2 || c1 != c2,
    ensures
        temp_name(l1, c1) != temp_name(l2, c2),
{
    if temp_name(l1, c1) == temp_name(l2, c2) {
        reveal_strlit("_c");
        reveal_strlit("__rhs_first_assign_rhs_l");
        lemma_decimal_digits(l1);
        lemma_decimal_digits(l2);
        let p = temp_prefix();
        let pl = p.len() as int;
        let d1 = decimal(l1);
        let n1 = d1.len() as int;
        let d2 = decimal(l2);
        let n2 = d2.len() as int;
        let s1 = temp_name(l1, c1);
        let s2 = temp_name(l2, c2);
        if d1.len() < d2.len() {
            assert(s1[pl + n1] == '_');
            assert(s2[pl + n1] == d2[n1]);
        } else if d2.len() < d1.len() {
            assert(s2[pl + n2] == '_');
            assert(s1[pl + n2] == d1[n2]);
        } else {
            assert(s1.subrange(pl, pl + n1) =~= d1);
            assert(s2.subrange(pl, pl + n2) =~= d2);
            lemma_decimal_injective(l1, l2);
            let k = pl + n1 + 2;
            assert(s1.subrange(k, s1.len() as int) =~= decimal(c1));
            assert(s2.subrange(k, s2.len() as int) =~= decimal(c2));
            lemma_decimal_injective(c1, c2);
        }
    }
}

fn digit_str(d: usize) -> (r: &'static str)
    requires
        d < 10,
    ensures
        r@ == seq![digit_char(d as nat)],
{
    proof {
        reveal_strlit("0");
        reveal_strlit("1");
        reveal_strlit("2");
        reveal_strlit("3");
        reveal_strlit("4");
        reveal_strlit("5");
        reveal_strlit("6");
        reveal_strlit("7");
        reveal_strlit("8");
        reveal_strlit("9");
    }
    if d == 0 {
        "0"
    } else if d == 1 {
        "1"
    } else if d == 2 {
        "2"
    } else if d == 3 {
        "3"
    } else if d == 4 {
        "4"
    } else if d == 5 {
        "5"
    } else if d == 6 {
        "6"
    } else if d == 7 {
        "7"
    } else if d == 8 {
        "8"
    } else {
        "9"
    }
}

/// Appends the decimal representation of `n` to `s`.
pub fn push_decimal(s: &mut String, n: usize)
    ensures
        final(s)@ == old(s)@ + decimal(n as nat),
    decreases n,
{
    if n >= 10 {
        push_decimal(s, n / 10);
    }
    s.append(digit_str(n % 10));
    assert(s@ =~= old(s)@ + decimal(n as nat));
}

/// Builds the temporary name for a compound operator at `line` and `column`.
pub fn temp_ident(line: usize, column: usize) -> (r: String)
    ensures
        r@ == temp_name(line as nat, column as nat),
{
    let mut s = String::from_str("__rhs_first_assign_rhs_l");
    push_decimal(&mut s, line);
    s.append("_c");
    push_decimal(&mut s, column);
    assert(s@ =~= temp_name(line as nat, column as nat));
    s
}

} // verus!
