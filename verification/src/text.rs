use vstd::prelude::*;

use vstd::string::StringExecFns;

verus! {

/// The decimal digit character of `d`, for `d < 10`.
pub open spec fn spec_digit(d: nat) -> char {
    if d == 0 {
        '0'
    } else if d == 1 {
        '1'
    } else if d == 2 {
        '2'
    } else if d == 3 {
        '3'
    } else if d == 4 {
        '4'
    } else if d == 5 {
        '5'
    } else if d == 6 {
        '6'
    } else if d == 7 {
        '7'
    } else if d == 8 {
        '8'
    } else {
        '9'
    }
}

/// The decimal representation of `n`, without leading zeros.
pub open spec fn spec_decimal(n: nat) -> Seq<char>
    decreases n,
{
    if n < 10 {
        seq![spec_digit(n)]
    } else {
        spec_decimal(n / 10).push(spec_digit(n % 10))
    }
}

/// A decimal representation is never empty, and has more than one digit exactly from ten on.
pub proof fn lemma_decimal_len(n: nat)
    ensures
        spec_decimal(n).len() >= 1,
        spec_decimal(n).len() == 1 <==> n < 10,
    decreases n,
{
    if n >= 10 {
        lemma_decimal_len(n / 10);
    }
}

/// Different numbers are written differently in decimal.
pub proof fn lemma_decimal_injective(m: nat, n: nat)
    requires
        spec_decimal(m) == spec_decimal(n),
    ensures
        m == n,
    decreases m,
{
    lemma_decimal_len(m);
    lemma_decimal_len(n);
    let dm = spec_decimal(m);
    let dn = spec_decimal(n);
    assert(dm[dm.len() - 1] == spec_digit(m % 10));
    assert(dn[dn.len() - 1] == spec_digit(n % 10));
    assert(m % 10 == n % 10);
    if m >= 10 {
        assert(spec_decimal(m / 10) =~= dm.drop_last());
        assert(spec_decimal(n / 10) =~= dn.drop_last());
        lemma_decimal_injective(m / 10, n / 10);
    }
}

/// The number that a string of decimal digits reads as, most significant digit first.
pub open spec fn spec_read_decimal(s: Seq<char>) -> int
    decreases s.len(),
{
    if s.len() == 0 {
        0
    } else {
        spec_read_decimal(s.drop_last()) * 10 + (s.last() as int - '0' as int)
    }
}

/// Decimal text is what it should be: every character is a digit, it reads back as the
/// number, and it has no leading zero (zero itself is "0").
pub proof fn lemma_decimal_reads_back(n: nat)
    ensures
        forall|i: int|
            0 <= i < spec_decimal(n).len() ==> '0' <= #[trigger] spec_decimal(n)[i] <= '9',
        spec_read_decimal(spec_decimal(n)) == n,
        spec_decimal(n)[0] == '0' ==> n == 0 && spec_decimal(n).len() == 1,
    decreases n,
{
    lemma_decimal_len(n);
    let d = spec_decimal(n);
    assert(spec_digit(n % 10) as int - '0' as int == n % 10);
    assert(d.last() == spec_digit(n % 10));
    if n < 10 {
        assert(d.drop_last() =~= Seq::<char>::empty());
    } else {
        lemma_decimal_reads_back(n / 10);
        lemma_decimal_len(n / 10);
        assert(d.drop_last() =~= spec_decimal(n / 10));
        assert(d[0] == spec_decimal(n / 10)[0]);
        assert(n == (n / 10) * 10 + n % 10);
    }
    assert(spec_read_decimal(d) == spec_read_decimal(d.drop_last()) * 10 + (d.last() as int
        - '0' as int));
}

/// The text of a single decimal digit.
fn digit_text(d: usize) -> (r: &'static str)
    requires
        d < 10,
    ensures
        r@ == seq![spec_digit(d as nat)],
{
    proof {
        reveal_strlit("0");
        reveal_strlit("1");
        reveal_strlit("2");
        reveal_strlit("3");
        reveal_strlit("4");
        reveal_strlit("5");
        reveal_strlit("6");
        reveal_strlit("7");
        reveal_strlit("8");
        reveal_strlit("9");
    }
    if d == 0 {
        "0"
    } else if d == 1 {
        "1"
    } else if d == 2 {
        "2"
    } else if d == 3 {
        "3"
    } else if d == 4 {
        "4"
    } else if d == 5 {
        "5"
    } else if d == 6 {
        "6"
    } else if d == 7 {
        "7"
    } else if d == 8 {
        "8"
    } else {
        "9"
    }
}

/// Writes `n` in decimal.
pub fn decimal_string(n: usize) -> (r: String)
    ensures
        r@ == spec_decimal(n as nat),
    decreases n,
{
    let mut s = if n < 10 {
        String::new()
    } else {
        decimal_string(n / 10)
    };
    s.append(digit_text(n % 10));
    s
}

/// `prefix`, then `sep`, then `n` in decimal.
pub fn numbered(prefix: &str, sep: &str, n: usize) -> (r: String)
    ensures
        r@ == prefix@ + sep@ + spec_decimal(n as nat),
{
    let mut s = String::from_str(prefix);
    s.append(sep);
    let d = decimal_string(n);
    s.append(d.as_str());
    s
}

} // verus!
