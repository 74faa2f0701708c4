use vstd::prelude::*;

verus! {

/// The character of the decimal digit `d` (`d < 10`).
pub open spec fn digit_char(d: nat) -> char {
    if d == 0 { '0' }
    else if d == 1 { '1' }
    else if d == 2 { '2' }
    else if d == 3 { '3' }
    else if d == 4 { '4' }
    else if d == 5 { '5' }
    else if d == 6 { '6' }
    else if d == 7 { '7' }
    else if d == 8 { '8' }
    else { '9' }
}

/// The decimal notation of `n`, without sign or leading zeros.
pub open spec fn decimal_chars(n: nat) -> Seq<char>
    decreases n,
{
    if n < 10 {
        seq![digit_char(n)]
    } else {
        decimal_chars(n / 10).push(digit_char(n % 10))
    }
}

fn digit_str(d: u32) -> (r: &'static str)
    requires
        d < 10,
    ensures
        r@ == seq![digit_char(d as nat)],
{
    proof {
        reveal_strlit("0");
        reveal_strlit("1");
        reveal_strlit("2");
        reveal_strlit("3");
        reveal_strlit("4");
        reveal_strlit("5");
        reveal_strlit("6");
        reveal_strlit("7");
        reveal_strlit("8");
        reveal_strlit("9");
    }
    match d {
        0 => "0",
        1 => "1",
        2 => "2",
        3 => "3",
        4 => "4",
        5 => "5",
        6 => "6",
        7 => "7",
        8 => "8",
        _ => "9",
    }
}

/// Decimal notation of `n`, as `format!("{}", n)` writes it.
pub fn decimal(n: u32) -> (s: String)
    ensures
        s@ == decimal_chars(n as nat),
    decreases n,
{
    if n < 10 {
        String::from_str(digit_str(n))
    } else {
        let head = decimal(n / 10);
        head.concat(digit_str(n % 10))
    }
}

/// `prefix` followed by `rest`, as a new string.
pub fn join2(prefix: &str, rest: &str) -> (s: String)
    ensures
        s@ == prefix@ + rest@,
{
    String::from_str(prefix).concat(rest)
}

/// `prefix`, then `middle`, then `suffix`, as a new string.
pub fn join3(prefix: &str, middle: &str, suffix: &str) -> (s: String)
    ensures
        s@ == prefix@ + middle@ + suffix@,
{
    String::from_str(prefix).concat(middle).concat(suffix)
}

/// The number that the decimal digits `s` stand for, each character read by
/// its distance from `'0'`.
pub open spec fn decimal_value(s: Seq<char>) -> int
    decreases s.len(),
{
    if s.len() == 0 {
        0
    } else {
        decimal_value(s.drop_last()) * 10 + (s.last() as int - '0' as int)
    }
}

/// Whether every character of `s` is one of `'0'` to `'9'`.
pub open spec fn all_decimal_digits(s: Seq<char>) -> bool {
    forall|i: int| 0 <= i < s.len() ==> '0' <= #[trigger] s[i] && s[i] <= '9'
}

/// The decimal text of `n` is made of digits only, starts with a zero only
/// for zero itself, and reads back as `n`.
pub proof fn lemma_decimal_reads_back(n: nat)
    ensures
        decimal_chars(n).len() > 0,
        all_decimal_digits(decimal_chars(n)),
        decimal_chars(n)[0] == '0' ==> n == 0,
        decimal_value(decimal_chars(n)) == n,
    decreases n,
{
    if n < 10 {
        let s = decimal_chars(n);
        assert(s.drop_last() =~= Seq::<char>::empty());
        assert(decimal_value(s.drop_last()) == 0);
        assert(s.last() == digit_char(n));
        assert(digit_char(n) as int - '0' as int == n);
        assert(decimal_value(s) == decimal_value(s.drop_last()) * 10 + (s.last() as int - '0' as int));
    } else {
        let q = n / 10;
        let d = n % 10;
        lemma_decimal_reads_back(q);
        let s = decimal_chars(n);
        assert(s == decimal_chars(q).push(digit_char(d)));
        assert(s.drop_last() =~= decimal_chars(q));
        assert(s.last() == digit_char(d));
        assert(digit_char(d) as int - '0' as int == d);
        assert(decimal_value(s) == decimal_value(s.drop_last()) * 10 + (s.last() as int - '0' as int));
        assert(all_decimal_digits(s)) by {
            assert forall|i: int| 0 <= i < s.len() implies '0' <= #[trigger] s[i] && s[i] <= '9' by {
                if i < s.len() - 1 {
                    assert(s[i] == decimal_chars(q)[i]);
                }
            }
        }
        assert(q * 10 + d == n) by (nonlinear_arith)
            requires q == n / 10, d == n % 10;
        assert(s[0] == decimal_chars(q)[0]);
    }
}

} // verus!
