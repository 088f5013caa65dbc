//! The texts that `str::parse::<f64>` accepts.
//!
//! std documents the grammar of a float literal (compared after lowercasing):
//! an optional sign, then `inf`, `infinity`, `nan`, or a number made of decimal
//! digits with at most one point and at least one digit, optionally followed by
//! `e`, an optional sign and at least one digit.
use vstd::prelude::*;

verus! {

pub open spec fn is_digit(c: char) -> bool {
    '0' <= c && c <= '9'
}

pub open spec fn is_sign(c: char) -> bool {
    c == '+' || c == '-'
}

pub open spec fn is_exp_mark(c: char) -> bool {
    c == 'e' || c == 'E'
}

pub open spec fn all_digits(s: Seq<char>) -> bool {
    forall|i: int| 0 <= i < s.len() ==> is_digit(#[trigger] s[i])
}

/// Digits and points only, at most one point, at least one digit.
pub open spec fn mantissa_ok(m: Seq<char>) -> bool {
    &&& forall|i: int| 0 <= i < m.len() ==> is_digit(#[trigger] m[i]) || m[i] == '.'
    &&& forall|i: int, j: int| 0 <= i < j < m.len() && #[trigger] m[i] == '.' ==> #[trigger] m[j] != '.'
    &&& exists|i: int| 0 <= i < m.len() && is_digit(#[trigger] m[i])
}

/// `e` or `E`, an optional sign, then at least one digit.
pub open spec fn exponent_ok(e: Seq<char>) -> bool {
    &&& e.len() >= 2
    &&& is_exp_mark(e[0])
    &&& if is_sign(e[1]) {
        e.len() >= 3 && all_digits(e.subrange(2, e.len() as int))
    } else {
        all_digits(e.subrange(1, e.len() as int))
    }
}

/// A mantissa, optionally followed by an exponent.
pub open spec fn number_ok(b: Seq<char>) -> bool {
    exists|p: int|
        0 <= p <= b.len() && #[trigger] mantissa_ok(b.subrange(0, p)) && (p == b.len()
            || exponent_ok(b.subrange(p, b.len() as int)))
}

/// `c` is the lower case ASCII letter `w` in either case.
pub open spec fn same_letter(c: char, w: char) -> bool {
    c == w || (c as u32) == (w as u32) - 32
}

/// `b` spells the lower case word `w`, ignoring ASCII case.
pub open spec fn spells(b: Seq<char>, w: Seq<char>) -> bool {
    b.len() == w.len() && forall|i: int| 0 <= i < b.len() ==> same_letter(#[trigger] b[i], w[i])
}

pub open spec fn special_ok(b: Seq<char>) -> bool {
    spells(b, seq!['i', 'n', 'f']) || spells(b, seq!['i', 'n', 'f', 'i', 'n', 'i', 't', 'y'])
        || spells(b, seq!['n', 'a', 'n'])
}

/// What follows an optional leading sign.
pub open spec fn unsigned_part(s: Seq<char>) -> Seq<char> {
    if s.len() > 0 && is_sign(s[0]) {
        s.subrange(1, s.len() as int)
    } else {
        s
    }
}

/// `s` is a text that `str::parse::<f64>` reads as a number.
pub open spec fn float_literal(s: Seq<char>) -> bool {
    special_ok(unsigned_part(s)) || number_ok(unsigned_part(s))
}

pub(crate) fn chars_of(s: &str) -> (r: Vec<char>)
    ensures
        r@ == s@,
{
    let n = s.unicode_len();
    let mut r: Vec<char> = Vec::new();
    let mut i: usize = 0;
    while i < n
        invariant
            n == s@.len(),
            i <= n,
            r@ == s@.subrange(0, i as int),
        decreases n - i,
    {
        r.push(s.get_char(i));
        i = i + 1;
        assert(r@ =~= s@.subrange(0, i as int));
    }
    assert(r@ =~= s@);
    r
}

fn spells_word(v: &Vec<char>, lo: usize, w: &Vec<char>) -> (r: bool)
    requires
        lo <= v@.len(),
    ensures
        r == spells(v@.subrange(lo as int, v@.len() as int), w@),
{
    let b = Ghost(v@.subrange(lo as int, v@.len() as int));
    if v.len() - lo != w.len() {
        return false;
    }
    let mut i: usize = 0;
    while i < w.len()
        invariant
            b@ == v@.subrange(lo as int, v@.len() as int),
            b@.len() == w@.len(),
            lo + w@.len() == v@.len(),
            v@.len() == v.len(),
            i <= w@.len(),
            forall|k: int| 0 <= k < i ==> same_letter(#[trigger] b@[k], w@[k]),
        decreases w@.len() - i,
    {
        let c = v[lo + i];
        let d = w[i];
        if !(c == d || ((d as u32) >= 32 && (c as u32) == (d as u32) - 32)) {
            assert(!same_letter(b@[i as int], w@[i as int]));
            return false;
        }
        i = i + 1;
    }
    true
}

fn check_mantissa(v: &Vec<char>, lo: usize, hi: usize) -> (r: bool)
    requires
        lo <= hi <= v@.len(),
    ensures
        r == mantissa_ok(v@.subrange(lo as int, hi as int)),
{
    let ghost m = v@.subrange(lo as int, hi as int);
    let mut i: usize = lo;
    let mut seen_point = false;
    let mut seen_digit = false;
    let mut point_at: usize = 0;
    while i < hi
        invariant
            m == v@.subrange(lo as int, hi as int),
            lo <= i <= hi <= v@.len(),
            forall|k: int| 0 <= k < i - lo ==> is_digit(#[trigger] m[k]) || m[k] == '.',
            seen_point ==> lo <= point_at < i && m[point_at - lo] == '.',
            seen_point ==> forall|k: int| 0 <= k < i - lo && #[trigger] m[k] == '.' ==> k == point_at - lo,
            !seen_point ==> forall|k: int| 0 <= k < i - lo ==> #[trigger] m[k] != '.',
            seen_digit <==> exists|k: int| 0 <= k < i - lo && is_digit(#[trigger] m[k]),
        decreases hi - i,
    {
        let c = v[i];
        if c == '.' {
            if seen_point {
                assert(m[point_at - lo] == '.' && m[i - lo] == '.');
                return false;
            }
            seen_point = true;
            point_at = i;
        } else if '0' <= c && c <= '9' {
            seen_digit = true;
            assert(is_digit(m[i - lo]));
        } else {
            assert(!(is_digit(m[i - lo]) || m[i - lo] == '.'));
            return false;
        }
        i = i + 1;
    }
    seen_digit
}

fn check_digits(v: &Vec<char>, lo: usize, hi: usize) -> (r: bool)
    requires
        lo <= hi <= v@.len(),
    ensures
        r == all_digits(v@.subrange(lo as int, hi as int)),
{
    let ghost d = v@.subrange(lo as int, hi as int);
    let mut i: usize = lo;
    while i < hi
        invariant
            d == v@.subrange(lo as int, hi as int),
            lo <= i <= hi <= v@.len(),
            forall|k: int| 0 <= k < i - lo ==> is_digit(#[trigger] d[k]),
        decreases hi - i,
    {
        let c = v[i];
        if !('0' <= c && c <= '9') {
            assert(!is_digit(d[i - lo]));
            return false;
        }
        i = i + 1;
    }
    true
}

fn check_exponent(v: &Vec<char>, lo: usize) -> (r: bool)
    requires
        lo <= v@.len(),
    ensures
        r == exponent_ok(v@.subrange(lo as int, v@.len() as int)),
{
    let ghost e = v@.subrange(lo as int, v@.len() as int);
    let n = v.len();
    if n - lo < 2 {
        return false;
    }
    let c0 = v[lo];
    if !(c0 == 'e' || c0 == 'E') {
        return false;
    }
    let c1 = v[lo + 1];
    if c1 == '+' || c1 == '-' {
        if n - lo < 3 {
            return false;
        }
        let r = check_digits(v, lo + 2, n);
        assert(e.subrange(2, e.len() as int) =~= v@.subrange(lo + 2, n as int));
        r
    } else {
        let r = check_digits(v, lo + 1, n);
        assert(e.subrange(1, e.len() as int) =~= v@.subrange(lo + 1, n as int));
        r
    }
}

fn check_number(v: &Vec<char>, lo: usize) -> (r: bool)
    requires
        lo <= v@.len(),
    ensures
        r == number_ok(v@.subrange(lo as int, v@.len() as int)),
{
    let ghost b = v@.subrange(lo as int, v@.len() as int);
    let n = v.len();
    let mut p: usize = lo;
    while p < n && !(v[p] == 'e' || v[p] == 'E')
        invariant
            lo <= p <= n == v@.len(),
            forall|k: int| lo <= k < p ==> !is_exp_mark(#[trigger] v@[k]),
        decreases n - p,
    {
        p = p + 1;
    }
    let m_ok = check_mantissa(v, lo, p);
    let e_ok = p == n || check_exponent(v, p);
    let ghost q = p - lo;
    assert(b.subrange(0, q) =~= v@.subrange(lo as int, p as int));
    assert(b.subrange(q, b.len() as int) =~= v@.subrange(p as int, n as int));
    if m_ok && e_ok {
        assert(mantissa_ok(b.subrange(0, q)));
        return true;
    }
    assert forall|p2: int|
        0 <= p2 <= b.len() && #[trigger] mantissa_ok(b.subrange(0, p2)) implies !(p2 == b.len()
            || exponent_ok(b.subrange(p2, b.len() as int))) by {
        if p2 > q {
            let m2 = b.subrange(0, p2);
            assert(m2[q] == v@[p as int]);
            assert(is_exp_mark(m2[q]));
            assert(!(is_digit(m2[q]) || m2[q] == '.'));
        } else if p2 < q {
            if p2 < b.len() && exponent_ok(b.subrange(p2, b.len() as int)) {
                assert(b.subrange(p2, b.len() as int)[0] == v@[lo + p2]);
                assert(!is_exp_mark(v@[lo + p2]));
            }
        }
    }
    false
}

/// Whether `str::parse::<f64>` reads `s` as a number, decided by std's documented grammar.
pub fn is_float_literal(s: &str) -> (r: bool)
    ensures
        r == float_literal(s@),
{
    let v = chars_of(s);
    let n = v.len();
    let lo: usize = if n > 0 && (v[0] == '+' || v[0] == '-') {
        1
    } else {
        0
    };
    assert(unsigned_part(s@) =~= v@.subrange(lo as int, n as int));
    let inf = vec!['i', 'n', 'f'];
    let infinity = vec!['i', 'n', 'f', 'i', 'n', 'i', 't', 'y'];
    let nan = vec!['n', 'a', 'n'];
    assert(inf@ =~= seq!['i', 'n', 'f']);
    assert(infinity@ =~= seq!['i', 'n', 'f', 'i', 'n', 'i', 't', 'y']);
    assert(nan@ =~= seq!['n', 'a', 'n']);
    if spells_word(&v, lo, &inf) || spells_word(&v, lo, &infinity) || spells_word(&v, lo, &nan) {
        return true;
    }
    check_number(&v, lo)
}

} // verus!
