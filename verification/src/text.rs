//! Text building blocks: decimal numerals, fixed-point numerals, substring
//! search and the character views of strings.
use vstd::prelude::*;
use vstd::string::StringExecFns;
use vstd::string::StrSliceExecFns;
use crate::outside::push_char;

verus! {

/// Number of fixed-point units in `1.0`: valence and depth carry six
/// decimal places.
pub const UNITS_PER_ONE: i32 = 1_000_000;

/// The decimal digit character of `d` (for `d < 10`).
pub open spec fn digit_char(d: nat) -> char {
    if d == 0 { '0' }
    else if d == 1 { '1' }
    else if d == 2 { '2' }
    else if d == 3 { '3' }
    else if d == 4 { '4' }
    else if d == 5 { '5' }
    else if d == 6 { '6' }
    else if d == 7 { '7' }
    else if d == 8 { '8' }
    else { '9' }
}

/// The decimal numeral of `n`, without leading zeros (`0` is `"0"`).
pub open spec fn nat_numeral(n: nat) -> Seq<char>
    decreases n,
{
    if n < 10 {
        seq![digit_char(n)]
    } else {
        nat_numeral(n / 10).push(digit_char(n % 10))
    }
}

/// The decimal numeral of a signed integer: a minus sign before the
/// numeral of its magnitude when it is negative.
pub open spec fn int_numeral(n: int) -> Seq<char> {
    if n < 0 {
        seq!['-'] + nat_numeral((-n) as nat)
    } else {
        nat_numeral(n as nat)
    }
}

/// The last `k` decimal digits of `f`, zero-padded to exactly `k` digits.
pub open spec fn padded_digits(f: nat, k: nat) -> Seq<char>
    decreases k,
{
    if k == 0 {
        Seq::empty()
    } else {
        padded_digits(f / 10, (k - 1) as nat).push(digit_char(f % 10))
    }
}

/// `s` without its trailing `'0'` characters.
pub open spec fn trim_trailing_zeros(s: Seq<char>) -> Seq<char>
    decreases s.len(),
{
    if s.len() > 0 && s.last() == '0' {
        trim_trailing_zeros(s.drop_last())
    } else {
        s
    }
}

/// The shortest decimal text of the fixed-point number `m` (six decimal
/// places): `1_500_000` reads `"1.5"`, `2_000_000` reads `"2"`.
pub open spec fn fixed_numeral(m: nat) -> Seq<char> {
    let whole = nat_numeral(m / 1_000_000);
    let frac = m % 1_000_000;
    if frac == 0 {
        whole
    } else {
        whole + seq!['.'] + trim_trailing_zeros(padded_digits(frac, 6))
    }
}

/// Like `fixed_numeral`, but a whole number keeps a `".0"` (as a number's
/// debug form reads: `"2.0"`).
pub open spec fn fixed_numeral_debug(m: nat) -> Seq<char> {
    if m % 1_000_000 == 0 {
        nat_numeral(m / 1_000_000) + seq!['.', '0']
    } else {
        fixed_numeral(m)
    }
}

/// Whether `needle` occurs in `hay` starting at position `i`.
pub open spec fn occurs_at(hay: Seq<char>, needle: Seq<char>, i: int) -> bool {
    0 <= i && i + needle.len() <= hay.len() && hay.subrange(i, i + needle.len()) == needle
}

/// Whether `needle` occurs somewhere in `hay`.
pub open spec fn contains_text(hay: Seq<char>, needle: Seq<char>) -> bool {
    exists|i: int| occurs_at(hay, needle, i)
}

fn digit(d: u64) -> (c: char)
    requires
        d < 10,
    ensures
        c == digit_char(d as nat),
{
    if d == 0 { '0' }
    else if d == 1 { '1' }
    else if d == 2 { '2' }
    else if d == 3 { '3' }
    else if d == 4 { '4' }
    else if d == 5 { '5' }
    else if d == 6 { '6' }
    else if d == 7 { '7' }
    else if d == 8 { '8' }
    else { '9' }
}

/// Appends the decimal numeral of `n` to `s`.
pub fn push_nat(s: &mut String, n: u64)
    ensures
        final(s)@ == old(s)@ + nat_numeral(n as nat),
    decreases n,
{
    if n >= 10 {
        push_nat(s, n / 10);
    }
    push_char(s, digit(n % 10));
    proof {
        assert(old(s)@ + nat_numeral(n as nat) =~= old(s)@ + nat_numeral((n / 10) as nat) + seq![
            digit_char((n % 10) as nat)] || n < 10);
    }
}

/// Appends the decimal numeral of the signed integer `n` to `s`.
pub fn push_int(s: &mut String, n: i64)
    ensures
        final(s)@ == old(s)@ + int_numeral(n as int),
{
    if n < 0 {
        push_char(s, '-');
        let magnitude: u64 = if n == i64::MIN {
            9_223_372_036_854_775_808u64
        } else {
            (-n) as u64
        };
        push_nat(s, magnitude);
        assert(final(s)@ =~= old(s)@ + int_numeral(n as int));
    } else {
        push_nat(s, n as u64);
    }
}

/// The decimal numeral of `n`.
pub fn nat_text(n: u64) -> (res: String)
    ensures
        res@ == nat_numeral(n as nat),
{
    let mut s = String::new();
    push_nat(&mut s, n);
    assert(s@ =~= nat_numeral(n as nat));
    s
}

/// The decimal numeral of the signed integer `n`.
pub fn int_text(n: i64) -> (res: String)
    ensures
        res@ == int_numeral(n as int),
{
    let mut s = String::new();
    push_int(&mut s, n);
    assert(s@ =~= int_numeral(n as int));
    s
}

/// Appends exactly `k` digits of `f` (zero-padded on the left).
fn push_padded(s: &mut String, f: u64, k: u64)
    ensures
        final(s)@ == old(s)@ + padded_digits(f as nat, k as nat),
    decreases k,
{
    if k > 0 {
        push_padded(s, f / 10, k - 1);
        push_char(s, digit(f % 10));
        assert(final(s)@ =~= old(s)@ + padded_digits(f as nat, k as nat));
    } else {
        assert(final(s)@ =~= old(s)@ + padded_digits(f as nat, k as nat));
    }
}

proof fn lemma_trim_drops_zero_digit(f: nat, k: nat)
    requires
        k > 0,
        f % 10 == 0,
    ensures
        trim_trailing_zeros(padded_digits(f, k)) == trim_trailing_zeros(
            padded_digits(f / 10, (k - 1) as nat),
        ),
{
    let s = padded_digits(f, k);
    assert(s.drop_last() =~= padded_digits(f / 10, (k - 1) as nat));
}

proof fn lemma_trim_nonzero_last(f: nat, k: nat)
    requires
        k > 0,
        f % 10 != 0,
    ensures
        trim_trailing_zeros(padded_digits(f, k)) == padded_digits(f, k),
{
    assert(digit_char(f % 10) != '0');
}

/// Appends the shortest decimal text of the fixed-point number `m`.
pub fn push_fixed(s: &mut String, m: u64)
    ensures
        final(s)@ == old(s)@ + fixed_numeral(m as nat),
{
    push_nat(s, m / 1_000_000);
    let frac = m % 1_000_000;
    if frac != 0 {
        push_char(s, '.');
        let mut f: u64 = frac;
        let mut k: u64 = 6;
        proof {
            reveal_with_fuel(pow10, 7);
        }
        while f % 10 == 0
            invariant
                0 < f <= frac,
                1 <= k <= 6,
                trim_trailing_zeros(padded_digits(frac as nat, 6)) == trim_trailing_zeros(
                    padded_digits(f as nat, k as nat),
                ),
                f < pow10(k as nat),
            decreases f,
        {
            proof {
                lemma_trim_drops_zero_digit(f as nat, k as nat);
                let p = pow10((k - 1) as nat);
                assert(pow10(k as nat) == 10 * p);
                assert(f / 10 < p) by (nonlinear_arith)
                    requires
                        f < 10 * p,
                        f % 10 == 0,
                ;
                if k == 1 {
                    assert(p == 1);
                }
            }
            f = f / 10;
            k = k - 1;
        }
        proof {
            lemma_trim_nonzero_last(f as nat, k as nat);
        }
        push_padded(s, f, k);
        assert(final(s)@ =~= old(s)@ + fixed_numeral(m as nat));
    } else {
        assert(final(s)@ =~= old(s)@ + fixed_numeral(m as nat));
    }
}

/// Ten to the power `k`.
pub open spec fn pow10(k: nat) -> nat
    decreases k,
{
    if k == 0 { 1 } else { 10 * pow10((k - 1) as nat) }
}

/// Appends the debug-style decimal text of the fixed-point number `m`.
pub fn push_fixed_debug(s: &mut String, m: u64)
    ensures
        final(s)@ == old(s)@ + fixed_numeral_debug(m as nat),
{
    if m % 1_000_000 == 0 {
        push_nat(s, m / 1_000_000);
        push_char(s, '.');
        push_char(s, '0');
        assert(final(s)@ =~= old(s)@ + fixed_numeral_debug(m as nat));
    } else {
        push_fixed(s, m);
    }
}

/// The characters of `s`, one by one.
pub fn chars_of(s: &str) -> (res: Vec<char>)
    ensures
        res@ == s@,
{
    let n = s.unicode_len();
    let mut res: Vec<char> = Vec::new();
    let mut i: usize = 0;
    while i < n
        invariant
            n == s@.len(),
            i <= n,
            res@ == s@.subrange(0, i as int),
        decreases n - i,
    {
        let c = s.get_char(i);
        res.push(c);
        i = i + 1;
        assert(res@ =~= s@.subrange(0, i as int));
    }
    assert(res@ =~= s@);
    res
}

/// Whether `needle` occurs somewhere in `hay`.
pub fn contains(hay: &str, needle: &str) -> (res: bool)
    ensures
        res == contains_text(hay@, needle@),
{
    let h = chars_of(hay);
    let nd = chars_of(needle);
    let hl = h.len();
    let nl = nd.len();
    if nl > hl {
        assert forall|i: int| !occurs_at(hay@, needle@, i) by {}
        return false;
    }
    let mut i: usize = 0;
    while i <= hl - nl
        invariant
            h@ == hay@,
            nd@ == needle@,
            hl == h@.len(),
            nl == nd@.len(),
            nl <= hl,
            i <= hl - nl + 1,
            forall|j: int| 0 <= j < i ==> !occurs_at(hay@, needle@, j),
        decreases hl - nl + 1 - i,
    {
        let mut j: usize = 0;
        let mut matched = true;
        while j < nl
            invariant
                h@ == hay@,
                nd@ == needle@,
                hl == h@.len(),
                nl == nd@.len(),
                i + nl <= hl,
                j <= nl,
                matched == (forall|t: int| 0 <= t < j ==> h@[i + t] == nd@[t]),
            decreases nl - j,
        {
            if h[i + j] != nd[j] {
                matched = false;
            }
            j = j + 1;
        }
        if matched {
            assert(hay@.subrange(i as int, i + nl) =~= needle@);
            assert(occurs_at(hay@, needle@, i as int));
            return true;
        }
        assert(!occurs_at(hay@, needle@, i as int)) by {
            let t = choose|t: int| 0 <= t < nl && h@[i + t] != nd@[t];
            if hay@.subrange(i as int, i + nl) == needle@ {
                assert(hay@.subrange(i as int, i + nl)[t] == h@[i + t]);
            }
        }
        i = i + 1;
    }
    assert forall|j: int| !occurs_at(hay@, needle@, j) by {
        if 0 <= j < i {
        }
    }
    false
}

} // verus!

verus! {

/// The text of an optional string slice.
pub open spec fn opt_text(o: Option<&str>) -> Option<Seq<char>> {
    match o {
        Some(s) => Some(s@),
        None => None,
    }
}

/// Whether two texts are the same character by character.
pub fn same_text(a: &str, b: &str) -> (res: bool)
    ensures
        res == (a@ == b@),
{
    let x = chars_of(a);
    let y = chars_of(b);
    if x.len() != y.len() {
        return false;
    }
    let mut i: usize = 0;
    while i < x.len()
        invariant
            x@ == a@,
            y@ == b@,
            x@.len() == y@.len(),
            i <= x@.len(),
            forall|t: int| 0 <= t < i ==> x@[t] == y@[t],
        decreases x.len() - i,
    {
        if x[i] != y[i] {
            return false;
        }
        i = i + 1;
    }
    assert(a@ =~= b@);
    true
}

} // verus!
