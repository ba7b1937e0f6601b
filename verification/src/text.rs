//! Character-level helpers: string equality and decimal rendering of the
//! small integers that appear in printed output and in the config file.

use vstd::prelude::*;

verus! {

/// The character for a single decimal digit.
pub open spec fn digit_char(d: nat) -> char {
    if d == 0 {
        '0'
    } else if d == 1 {
        '1'
    } else if d == 2 {
        '2'
    } else if d == 3 {
        '3'
    } else if d == 4 {
        '4'
    } else if d == 5 {
        '5'
    } else if d == 6 {
        '6'
    } else if d == 7 {
        '7'
    } else if d == 8 {
        '8'
    } else {
        '9'
    }
}

pub open spec fn is_digit(ch: char) -> bool {
    '0' <= ch && ch <= '9'
}

/// The numeric value of a decimal digit character.
pub open spec fn digit_val(ch: char) -> nat {
    (ch as nat - '0' as nat) as nat
}

/// The canonical decimal rendering of a natural number: no sign, no
/// leading zeros (a single `'0'` for zero).
pub open spec fn dec_digits(n: nat) -> Seq<char>
    decreases n,
{
    if n < 10 {
        seq![digit_char(n)]
    } else {
        dec_digits(n / 10) + seq![digit_char(n % 10)]
    }
}

/// The canonical decimal rendering of an integer: a `'-'` sign before the
/// digits when the value is negative.
pub open spec fn dec_int(n: int) -> Seq<char> {
    if n < 0 {
        seq!['-'] + dec_digits((-n) as nat)
    } else {
        dec_digits(n as nat)
    }
}

pub proof fn lemma_digit_char_val(d: nat)
    requires
        d < 10,
    ensures
        is_digit(digit_char(d)),
        digit_val(digit_char(d)) == d,
{
}

pub proof fn lemma_digit_val_char(ch: char)
    requires
        is_digit(ch),
    ensures
        digit_val(ch) < 10,
        digit_char(digit_val(ch)) == ch,
{
}

fn digit_str(d: u32) -> (r: &'static str)
    requires
        d < 10,
    ensures
        r@ =~= seq![digit_char(d as nat)],
{
    proof {
        reveal_strlit("0");
        reveal_strlit("1");
        reveal_strlit("2");
        reveal_strlit("3");
        reveal_strlit("4");
        reveal_strlit("5");
        reveal_strlit("6");
        reveal_strlit("7");
        reveal_strlit("8");
        reveal_strlit("9");
    }
    if d == 0 {
        "0"
    } else if d == 1 {
        "1"
    } else if d == 2 {
        "2"
    } else if d == 3 {
        "3"
    } else if d == 4 {
        "4"
    } else if d == 5 {
        "5"
    } else if d == 6 {
        "6"
    } else if d == 7 {
        "7"
    } else if d == 8 {
        "8"
    } else {
        "9"
    }
}

/// Renders a number in canonical decimal form.
pub fn u32_to_string(n: u32) -> (r: String)
    ensures
        r@ == dec_digits(n as nat),
    decreases n,
{
    if n < 10 {
        let r = digit_str(n).to_owned();
        proof {
            assert(r@ =~= dec_digits(n as nat));
        }
        r
    } else {
        let q = n / 10;
        let d = n % 10;
        let mut s = u32_to_string(q);
        s.append(digit_str(d));
        proof {
            assert(s@ =~= dec_digits(n as nat));
        }
        s
    }
}

/// Renders a signed number in canonical decimal form.
pub fn i32_to_string(n: i32) -> (r: String)
    requires
        n > i32::MIN,
    ensures
        r@ == dec_int(n as int),
{
    if n < 0 {
        let mut s = String::from_str("-");
        let digits = u32_to_string((-n) as u32);
        s.append(digits.as_str());
        proof {
            reveal_strlit("-");
            assert(s@ =~= dec_int(n as int));
        }
        s
    } else {
        u32_to_string(n as u32)
    }
}

/// Whether `pat` occurs in `s` starting at character position `i`.
pub open spec fn occurs_at(s: Seq<char>, i: int, pat: Seq<char>) -> bool {
    &&& 0 <= i
    &&& i + pat.len() <= s.len()
    &&& s.subrange(i, i + pat.len()) == pat
}

/// An occurrence gives the characters pointwise.
pub proof fn lemma_subrange_points(s: Seq<char>, i: int, p: Seq<char>)
    requires
        occurs_at(s, i, p),
    ensures
        forall|k: int| 0 <= k < p.len() ==> s[i + k] == p[k],
{
    assert forall|k: int| 0 <= k < p.len() implies s[i + k] == p[k] by {
        assert(p[k] == s.subrange(i, i + p.len() as int)[k]);
    }
}

/// Compares the characters of `s` from position `i` on against `pat`.
pub fn has_at(s: &str, i: usize, pat: &str) -> (r: bool)
    requires
        i <= s@.len(),
    ensures
        r == occurs_at(s@, i as int, pat@),
{
    let sl = s.unicode_len();
    let pl = pat.unicode_len();
    if pl > sl - i {
        return false;
    }
    let mut j: usize = 0;
    while j < pl
        invariant
            i + pl <= sl,
            sl == s@.len(),
            pl == pat@.len(),
            j <= pl,
            forall|k: int| 0 <= k < j ==> s@[i + k] == pat@[k],
        decreases pl - j,
    {
        if s.get_char(i + j) != pat.get_char(j) {
            proof {
                assert(s@.subrange(i as int, i + pat@.len())[j as int] != pat@[j as int]);
            }
            return false;
        }
        j = j + 1;
    }
    proof {
        assert(s@.subrange(i as int, i + pat@.len()) =~= pat@);
    }
    true
}

/// Where the run of decimal digits starting at position `i` ends.
pub open spec fn digit_run_end(s: Seq<char>, i: int) -> int
    decreases s.len() - i when 0 <= i <= s.len()
{
    if i < s.len() && is_digit(s[i]) {
        digit_run_end(s, i + 1)
    } else {
        i
    }
}

/// The numeric value of a sequence of decimal digit characters.
pub open spec fn num_val(s: Seq<char>) -> nat
    decreases s.len(),
{
    if s.len() == 0 {
        0
    } else {
        num_val(s.drop_last()) * 10 + digit_val(s.last())
    }
}

pub proof fn lemma_run_end_of(s: Seq<char>, i: int, e: int)
    requires
        0 <= i <= e <= s.len(),
        forall|k: int| i <= k < e ==> is_digit(s[k]),
        e == s.len() || !is_digit(s[e]),
    ensures
        digit_run_end(s, i) == e,
    decreases e - i,
{
    if i < e {
        lemma_run_end_of(s, i + 1, e);
    }
}

pub proof fn lemma_run_end_at_least(s: Seq<char>, i: int, j: int)
    requires
        0 <= i <= j <= s.len(),
        forall|k: int| i <= k < j ==> is_digit(s[k]),
    ensures
        digit_run_end(s, i) >= j,
    decreases j - i,
{
    if i < j {
        assert(is_digit(s[i]));
        lemma_run_end_at_least(s, i + 1, j);
    } else {
        lemma_run_end_ge(s, i);
    }
}

pub proof fn lemma_run_end_ge(s: Seq<char>, i: int)
    requires
        0 <= i <= s.len(),
    ensures
        i <= digit_run_end(s, i) <= s.len(),
    decreases s.len() - i,
{
    if i < s.len() && is_digit(s[i]) {
        lemma_run_end_ge(s, i + 1);
    }
}

/// Digit sequences of up to three characters keep their value under 1000.
pub proof fn lemma_num_val_small(s: Seq<char>)
    requires
        forall|k: int| 0 <= k < s.len() ==> is_digit(s[k]),
    ensures
        s.len() == 0 ==> num_val(s) == 0,
        s.len() == 1 ==> num_val(s) < 10,
        s.len() == 2 ==> num_val(s) < 100,
        s.len() == 3 ==> num_val(s) < 1000,
    decreases s.len(),
{
    if s.len() > 0 {
        lemma_num_val_small(s.drop_last());
    }
}

/// A digit sequence without a leading zero has a positive value.
pub proof fn lemma_num_val_pos(s: Seq<char>)
    requires
        s.len() >= 1,
        forall|k: int| 0 <= k < s.len() ==> is_digit(s[k]),
        s[0] != '0',
    ensures
        num_val(s) >= 1,
    decreases s.len(),
{
    if s.len() == 1 {
        lemma_digit_val_char(s[0]);
        assert(digit_val(s[0]) >= 1) by {
            if digit_val(s[0]) == 0 {
                assert(digit_char(digit_val(s[0])) == '0');
            }
        }
    } else {
        lemma_num_val_pos(s.drop_last());
    }
}

/// Rendering is a left inverse of the digit value.
pub proof fn lemma_num_val_of_dec(n: nat)
    ensures
        num_val(dec_digits(n)) == n,
        dec_digits(n).len() >= 1,
        forall|k: int| 0 <= k < dec_digits(n).len() ==> is_digit(#[trigger] dec_digits(n)[k]),
        n >= 1 ==> dec_digits(n)[0] != '0',
        n < 10 ==> dec_digits(n).len() == 1,
        n < 100 ==> dec_digits(n).len() <= 2,
        n < 1000 ==> dec_digits(n).len() <= 3,
    decreases n,
{
    lemma_digit_char_val(n % 10);
    if n < 10 {
        assert(dec_digits(n) =~= seq![digit_char(n)]);
        lemma_digit_char_val(n);
        assert(num_val(dec_digits(n)) == num_val(seq![digit_char(n)].drop_last()) * 10 + digit_val(
            digit_char(n),
        ));
        assert(seq![digit_char(n)].drop_last() =~= Seq::<char>::empty());
        if n >= 1 {
            assert(dec_digits(n)[0] == digit_char(n));
            assert(digit_char(n) != '0');
        }
    } else {
        lemma_num_val_of_dec(n / 10);
        let pre = dec_digits(n / 10);
        assert(dec_digits(n) == pre + seq![digit_char(n % 10)]);
        assert((pre + seq![digit_char(n % 10)]).drop_last() =~= pre);
        assert((pre + seq![digit_char(n % 10)]).last() == digit_char(n % 10));
        assert(num_val(dec_digits(n)) == (n / 10) * 10 + n % 10);
        vstd::arithmetic::div_mod::lemma_fundamental_div_mod(n as int, 10);
        assert(dec_digits(n)[0] == pre[0]);
        assert forall|k: int| 0 <= k < dec_digits(n).len() implies is_digit(
            #[trigger] dec_digits(n)[k],
        ) by {
            if k < pre.len() {
                assert(dec_digits(n)[k] == pre[k]);
            } else {
                assert(dec_digits(n)[k] == digit_char(n % 10));
            }
        }
    }
}

/// Rendering is a right inverse: a canonical digit sequence is the rendering
/// of its own value.
pub proof fn lemma_dec_of_num_val(s: Seq<char>)
    requires
        s.len() >= 1,
        forall|k: int| 0 <= k < s.len() ==> is_digit(s[k]),
        s.len() == 1 || s[0] != '0',
    ensures
        dec_digits(num_val(s)) == s,
    decreases s.len(),
{
    if s.len() == 1 {
        lemma_digit_val_char(s[0]);
        assert(num_val(s.drop_last()) == 0) by {
            assert(s.drop_last() =~= Seq::<char>::empty());
        }
        assert(num_val(s) == digit_val(s[0]));
        assert(dec_digits(num_val(s)) =~= seq![s[0]]);
        assert(dec_digits(num_val(s)) =~= s);
    } else {
        let pre = s.drop_last();
        lemma_dec_of_num_val(pre);
        lemma_num_val_pos(pre);
        lemma_digit_val_char(s.last());
        let v = num_val(pre) as int;
        let d = digit_val(s.last()) as int;
        let n = num_val(s);
        assert(n == v * 10 + d);
        assert(n >= 10) by {
            assert(v >= 1);
            assert(v * 10 >= 10) by (nonlinear_arith)
                requires
                    v >= 1,
            ;
        }
        vstd::arithmetic::div_mod::lemma_fundamental_div_mod_converse(n as int, 10, v, d);
        assert(dec_digits(n) == dec_digits((n as int / 10) as nat) + seq![
            digit_char((n as int % 10) as nat),
        ]);
        assert(dec_digits(n) == pre + seq![s.last()]);
        assert(pre + seq![s.last()] =~= s);
    }
}

/// A successful read of the digit run at `i`: it ends at `j`, is at most
/// three digits long, and renders the value `n` canonically.
pub open spec fn num_at(t: Seq<char>, i: int, n: nat, j: int) -> bool {
    &&& 0 <= i < j <= t.len()
    &&& j == digit_run_end(t, i)
    &&& j - i <= 3
    &&& n < 1000
    &&& t.subrange(i, j) == dec_digits(n)
}

/// Why a read of the digit run at `i` fails: no digit, more than three
/// digits, or a leading zero.
pub open spec fn num_rejected(t: Seq<char>, i: int) -> bool {
    let e = digit_run_end(t, i);
    ||| e == i
    ||| e - i > 3
    ||| (e - i > 1 && t[i] == '0')
}

/// Reads a run of up to three decimal digits at position `i`, rejecting
/// leading zeros: exactly the canonical decimal renderings of 0..=999.
pub fn parse_num_at(s: &str, i: usize) -> (r: Option<(u16, usize)>)
    requires
        i <= s@.len(),
    ensures
        match r {
            Some(p) => num_at(s@, i as int, p.0 as nat, p.1 as int),
            None => num_rejected(s@, i as int),
        },
{
    let sl = s.unicode_len();
    let mut j: usize = i;
    let mut val: u16 = 0;
    loop
        invariant
            i <= j <= sl,
            sl == s@.len(),
            j - i <= 3,
            forall|k: int| i <= k < j ==> is_digit(s@[k]),
            val == num_val(s@.subrange(i as int, j as int)),
            val < 1000,
        ensures
            i <= j <= sl,
            sl == s@.len(),
            j - i <= 3,
            forall|k: int| i <= k < j ==> is_digit(s@[k]),
            val == num_val(s@.subrange(i as int, j as int)),
            val < 1000,
            j == sl || j - i == 3 || !is_digit(s@[j as int]),
        decreases i + 3 - j,
    {
        if j == sl || j - i == 3 {
            break ;
        }
        let c = s.get_char(j);
        if c < '0' || c > '9' {
            break ;
        }
        proof {
            lemma_num_val_small(s@.subrange(i as int, j as int));
            lemma_digit_val_char(c);
            assert(s@.subrange(i as int, (j + 1) as int).drop_last() =~= s@.subrange(
                i as int,
                j as int,
            ));
            assert(s@.subrange(i as int, (j + 1) as int).last() == c);
        }
        let d = (c as u32 - '0' as u32) as u16;
        proof {
            assert(d == digit_val(c));
        }
        val = val * 10 + d;
        j = j + 1;
    }
    proof {
        lemma_run_end_at_least(s@, i as int, j as int);
    }
    if j == i {
        proof {
            lemma_run_end_of(s@, i as int, i as int);
        }
        return None;
    }
    if j - i == 3 && j < sl {
        let c = s.get_char(j);
        if c >= '0' && c <= '9' {
            proof {
                lemma_run_end_at_least(s@, i as int, j + 1);
            }
            return None;
        }
    }
    proof {
        lemma_run_end_of(s@, i as int, j as int);
    }
    if j - i >= 2 {
        let c0 = s.get_char(i);
        if c0 == '0' {
            return None;
        }
    }
    proof {
        lemma_dec_of_num_val(s@.subrange(i as int, j as int));
        lemma_num_val_small(s@.subrange(i as int, j as int));
    }
    Some((val, j))
}

/// Exact string comparison over the character views.
pub fn str_eq(a: &str, b: &str) -> (r: bool)
    ensures
        r == (a@ == b@),
{
    let la = a.unicode_len();
    let lb = b.unicode_len();
    if la != lb {
        return false;
    }
    let mut i: usize = 0;
    while i < la
        invariant
            la == a@.len(),
            la == b@.len(),
            i <= la,
            forall|j: int| 0 <= j < i ==> a@[j] == b@[j],
        decreases la - i,
    {
        if a.get_char(i) != b.get_char(i) {
            return false;
        }
        i = i + 1;
    }
    proof {
        assert(a@ =~= b@);
    }
    true
}

} // verus!
