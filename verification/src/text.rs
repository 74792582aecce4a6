//! Strings as sequences of characters: equality, lexicographic order and
//! decimal numbers.
use vstd::prelude::*;
use vstd::std_specs::iter::IteratorSpec;

verus! {

/// Whether two strings hold the same characters.
pub fn str_eq(a: &str, b: &str) -> (r: bool)
    ensures
        r == (a@ == b@),
{
    let mut ia = a.chars();
    let mut ib = b.chars();
    let ghost mut done: Seq<char> = Seq::empty();
    loop
        invariant
            a@ =~= done + ia.remaining(),
            b@ =~= done + ib.remaining(),
        decreases a@.len() - done.len(),
    {
        let ghost ra = ia.remaining();
        let ghost rb = ib.remaining();
        match (ia.next(), ib.next()) {
            (None, None) => {
                return true;
            },
            (Some(x), Some(y)) => {
                if x != y {
                    assert(a@[done.len() as int] == x);
                    assert(b@[done.len() as int] == y);
                    return false;
                }
                proof {
                    assert(ra == seq![x] + ia.remaining());
                    assert(rb == seq![y] + ib.remaining());
                    done = done.push(x);
                }
            },
            _ => {
                assert(a@.len() != b@.len());
                return false;
            },
        }
    }
}

/// Strict lexicographic order on character sequences, by code point; a proper
/// prefix comes before what it is a prefix of.
pub open spec fn lex_lt(a: Seq<char>, b: Seq<char>) -> bool
    decreases a.len(),
{
    if b.len() == 0 {
        false
    } else if a.len() == 0 {
        true
    } else if a[0] != b[0] {
        (a[0] as int) < (b[0] as int)
    } else {
        lex_lt(a.drop_first(), b.drop_first())
    }
}

/// No sequence comes before itself.
pub proof fn lemma_lex_irreflexive(a: Seq<char>)
    ensures
        !lex_lt(a, a),
    decreases a.len(),
{
    if a.len() > 0 {
        lemma_lex_irreflexive(a.drop_first());
    }
}

/// Of two different sequences one comes before the other.
pub proof fn lemma_lex_total(a: Seq<char>, b: Seq<char>)
    ensures
        lex_lt(a, b) || lex_lt(b, a) || a == b,
    decreases a.len(),
{
    if a.len() == 0 || b.len() == 0 {
        assert(a.len() == 0 && b.len() == 0 ==> a =~= b);
    } else if a[0] != b[0] {
        assert(a[0] as int != b[0] as int);
    } else {
        lemma_lex_total(a.drop_first(), b.drop_first());
        if a.drop_first() == b.drop_first() {
            assert(a =~= seq![a[0]] + a.drop_first());
            assert(b =~= seq![b[0]] + b.drop_first());
        }
    }
}

/// The order is transitive.
pub proof fn lemma_lex_transitive(a: Seq<char>, b: Seq<char>, c: Seq<char>)
    requires
        lex_lt(a, b),
        lex_lt(b, c),
    ensures
        lex_lt(a, c),
    decreases a.len(),
{
    if a.len() > 0 && a[0] == b[0] && b[0] == c[0] {
        lemma_lex_transitive(a.drop_first(), b.drop_first(), c.drop_first());
    }
}

/// A common prefix does not change the order of two sequences.
pub proof fn lemma_lex_common_prefix(p: Seq<char>, a: Seq<char>, b: Seq<char>)
    ensures
        lex_lt(p + a, p + b) == lex_lt(a, b),
    decreases p.len(),
{
    if p.len() == 0 {
        assert(p + a =~= a);
        assert(p + b =~= b);
    } else {
        assert((p + a).drop_first() =~= p.drop_first() + a);
        assert((p + b).drop_first() =~= p.drop_first() + b);
        lemma_lex_common_prefix(p.drop_first(), a, b);
    }
}

/// Whether `a` comes before `b` in lexicographic order.
pub fn str_lt(a: &str, b: &str) -> (r: bool)
    ensures
        r == lex_lt(a@, b@),
{
    let mut ia = a.chars();
    let mut ib = b.chars();
    let ghost mut done: Seq<char> = Seq::empty();
    loop
        invariant
            a@ =~= done + ia.remaining(),
            b@ =~= done + ib.remaining(),
        decreases a@.len() - done.len(),
    {
        let ghost ra = ia.remaining();
        let ghost rb = ib.remaining();
        proof {
            lemma_lex_common_prefix(done, ra, rb);
        }
        match (ia.next(), ib.next()) {
            (_, None) => {
                return false;
            },
            (None, Some(_)) => {
                return true;
            },
            (Some(x), Some(y)) => {
                if x != y {
                    assert(ra[0] == x && rb[0] == y);
                    return x < y;
                }
                proof {
                    assert(ra == seq![x] + ia.remaining());
                    assert(rb == seq![y] + ib.remaining());
                    done = done.push(x);
                }
            },
        }
    }
}

/// Whether `c` is one of the ten ASCII digits.
pub open spec fn is_digit(c: char) -> bool {
    '0' <= c <= '9'
}

/// The number that a sequence of digits denotes in base ten.
pub open spec fn digits_value(s: Seq<char>) -> nat
    decreases s.len(),
{
    if s.len() == 0 {
        0
    } else {
        (digits_value(s.drop_last()) * 10 + (s.last() as int - '0' as int)) as nat
    }
}

/// The digits of a decimal number: the text without one leading `+`.
pub open spec fn decimal_digits(s: Seq<char>) -> Seq<char> {
    if s.len() > 0 && s[0] == '+' {
        s.drop_first()
    } else {
        s
    }
}

/// The unsigned number that `s` denotes, if it is at most `max`: an optional
/// `+`, then one or more ASCII digits and nothing else.
pub open spec fn bounded_decimal(s: Seq<char>, max: nat) -> Option<nat> {
    let d = decimal_digits(s);
    if d.len() > 0 && (forall|i: int| 0 <= i < d.len() ==> is_digit(#[trigger] d[i]))
        && digits_value(d) <= max {
        Some(digits_value(d))
    } else {
        None
    }
}

/// A number is at least the number that any prefix of its digits denotes.
pub proof fn lemma_digits_prefix(s: Seq<char>, k: int)
    requires
        0 <= k <= s.len(),
        forall|i: int| 0 <= i < s.len() ==> is_digit(#[trigger] s[i]),
    ensures
        digits_value(s.take(k)) <= digits_value(s),
    decreases s.len() - k,
{
    if k == s.len() {
        assert(s.take(k) =~= s);
    } else {
        assert(s.take(k + 1).drop_last() =~= s.take(k));
        assert(is_digit(s[k]));
        lemma_digits_prefix(s, k + 1);
    }
}

/// Reads an unsigned decimal number that is at most `max`.
pub fn parse_decimal(text: &str, max: u64) -> (r: Option<u64>)
    ensures
        r == match bounded_decimal(text@, max as nat) {
            Some(n) => Some(n as u64),
            None => None,
        },
{
    let ghost start: int = if text@.len() > 0 && text@[0] == '+' { 1 } else { 0 };
    let ghost d = decimal_digits(text@);
    let mut acc: u64 = 0;
    let mut at_start = true;
    let mut seen = false;
    for c in it: text.chars()
        invariant
            it.seq() == text@,
            d == text@.skip(start),
            d == decimal_digits(text@),
            start == (if text@.len() > 0 && text@[0] == '+' { 1int } else { 0 }),
            at_start == (it.index() == 0),
            seen == (it.index() > start),
            !at_start ==> start <= it.index(),
            forall|i: int| 0 <= i < it.index() - start ==> is_digit(#[trigger] d[i]),
            acc == digits_value(d.take(if at_start { 0 } else { it.index() - start })),
            acc <= max,
    {
        let ghost i = it.index() as int;
        if at_start && c == '+' {
            at_start = false;
            assert(d.take(0) =~= Seq::<char>::empty());
        } else {
            at_start = false;
            assert(d[i - start] == c);
            if c < '0' || c > '9' {
                return None;
            }
            let digit: u64 = (c as u64) - ('0' as u64);
            proof {
                assert(d.take(i - start + 1).drop_last() =~= d.take(i - start));
                assert(d.take(i - start + 1).last() == c);
                assert(digits_value(d.take(i - start + 1)) == acc * 10 + digit);
            }
            if digit > max || acc > (max - digit) / 10 {
                proof {
                    if forall|j: int| 0 <= j < d.len() ==> is_digit(#[trigger] d[j]) {
                        lemma_digits_prefix(d, i - start + 1);
                    }
                }
                return None;
            }
            acc = acc * 10 + digit;
            seen = true;
        }
    }
    proof {
        assert(d.take(d.len() as int) =~= d);
    }
    if seen {
        Some(acc)
    } else {
        None
    }
}

/// Reads a `u32` as `str::parse` does: an optional `+`, then decimal digits.
pub fn parse_u32(text: &str) -> (r: Option<u32>)
    ensures
        r == match bounded_decimal(text@, u32::MAX as nat) {
            Some(n) => Some(n as u32),
            None => None,
        },
{
    match parse_decimal(text, 0xffff_ffff) {
        Some(n) => Some(n as u32),
        None => None,
    }
}

/// Reads a `u64` as `str::parse` does: an optional `+`, then decimal digits.
pub fn parse_u64(text: &str) -> (r: Option<u64>)
    ensures
        r == match bounded_decimal(text@, u64::MAX as nat) {
            Some(n) => Some(n as u64),
            None => None,
        },
{
    parse_decimal(text, 0xffff_ffff_ffff_ffff)
}

/// `String::push`: puts one character after those of the string.
#[verifier::external_body]
pub(crate) fn push_char(s: &mut String, c: char)
    ensures
        final(s)@ == old(s)@.push(c),
{
    s.push(c)
}

} // verus!
