//! Dotted-decimal text of an IPv4 address, and the proof that the text
//! determines the four octets.

use vstd::prelude::*;

verus! {

/// The character of a decimal digit `d` (`0 <= d < 10`).
pub open spec fn digit_char(d: u8) -> char {
    if d == 0 {
        '0'
    } else if d == 1 {
        '1'
    } else if d == 2 {
        '2'
    } else if d == 3 {
        '3'
    } else if d == 4 {
        '4'
    } else if d == 5 {
        '5'
    } else if d == 6 {
        '6'
    } else if d == 7 {
        '7'
    } else if d == 8 {
        '8'
    } else {
        '9'
    }
}

/// Decimal text of an octet, without leading zeros.
pub open spec fn decimal(n: u8) -> Seq<char> {
    if n < 10 {
        seq![digit_char(n)]
    } else if n < 100 {
        seq![digit_char(n / 10), digit_char(n % 10)]
    } else {
        seq![digit_char(n / 100), digit_char((n / 10) % 10), digit_char(n % 10)]
    }
}

/// The decimal text of `n`, a dot, then `rest`.
pub open spec fn dot_joined(n: u8, rest: Seq<char>) -> Seq<char> {
    decimal(n) + seq!['.'] + rest
}

/// The dotted-decimal text of four octets, such as `203.0.113.5`.
pub open spec fn dotted_quad(o: Seq<u8>) -> Seq<char>
    recommends
        o.len() == 4,
{
    dot_joined(o[0], dot_joined(o[1], dot_joined(o[2], decimal(o[3]))))
}

/// The four octets that a dotted-decimal text stands for.
pub open spec fn octets_of(s: Seq<char>) -> Seq<u8> {
    choose|o: Seq<u8>| o.len() == 4 && dotted_quad(o) == s
}

proof fn lemma_digit_char_injective(x: u8, y: u8)
    requires
        0 <= x < 10,
        0 <= y < 10,
        digit_char(x) == digit_char(y),
    ensures
        x == y,
{
}

proof fn lemma_decimal_has_no_dot(n: u8, i: int)
    requires
        0 <= i < decimal(n).len(),
    ensures
        decimal(n)[i] != '.',
{
}

/// Different octets have different decimal texts.
pub proof fn lemma_decimal_injective(a: u8, b: u8)
    requires
        decimal(a) == decimal(b),
    ensures
        a == b,
{
    let da = decimal(a);
    let db = decimal(b);
    assert(da.len() == db.len());
    assert(da[0] == db[0]);
    if a < 10 {
        lemma_digit_char_injective(a, b);
    } else if a < 100 {
        assert(da[1] == db[1]);
        lemma_digit_char_injective(a / 10, b / 10);
        lemma_digit_char_injective(a % 10, b % 10);
    } else {
        assert(da[1] == db[1]);
        assert(da[2] == db[2]);
        lemma_digit_char_injective(a / 100, b / 100);
        lemma_digit_char_injective((a / 10) % 10, (b / 10) % 10);
        lemma_digit_char_injective(a % 10, b % 10);
    }
}

/// The first dot of `dot_joined(n, rest)` ends the octet's text, so equal
/// texts have equal octets and equal remainders.
pub proof fn lemma_dot_joined_injective(a: u8, x: Seq<char>, b: u8, y: Seq<char>)
    requires
        dot_joined(a, x) == dot_joined(b, y),
    ensures
        a == b,
        x == y,
{
    let s = dot_joined(a, x);
    let la = decimal(a).len() as int;
    let lb = decimal(b).len() as int;
    if la < lb {
        assert(s[la] == '.');
        assert(s[la] == decimal(b)[la]);
        lemma_decimal_has_no_dot(b, la);
    } else if lb < la {
        assert(s[lb] == '.');
        assert(s[lb] == decimal(a)[lb]);
        lemma_decimal_has_no_dot(a, lb);
    }
    assert(decimal(a) =~= s.subrange(0, la));
    assert(decimal(b) =~= s.subrange(0, lb));
    lemma_decimal_injective(a, b);
    assert(x =~= s.subrange(la + 1, s.len() as int));
    assert(y =~= s.subrange(lb + 1, s.len() as int));
}

/// Different quadruples of octets have different dotted-decimal texts.
pub proof fn lemma_dotted_quad_injective(o: Seq<u8>, p: Seq<u8>)
    requires
        o.len() == 4,
        p.len() == 4,
        dotted_quad(o) == dotted_quad(p),
    ensures
        o == p,
{
    lemma_dot_joined_injective(
        o[0],
        dot_joined(o[1], dot_joined(o[2], decimal(o[3]))),
        p[0],
        dot_joined(p[1], dot_joined(p[2], decimal(p[3]))),
    );
    lemma_dot_joined_injective(
        o[1],
        dot_joined(o[2], decimal(o[3])),
        p[1],
        dot_joined(p[2], decimal(p[3])),
    );
    lemma_dot_joined_injective(o[2], decimal(o[3]), p[2], decimal(p[3]));
    lemma_decimal_injective(o[3], p[3]);
    assert(o =~= p);
}

/// Reading the octets back from the dotted-decimal text of `o` gives `o`.
pub proof fn lemma_octets_of_dotted_quad(o: Seq<u8>)
    requires
        o.len() == 4,
    ensures
        octets_of(dotted_quad(o)) == o,
{
    let p = octets_of(dotted_quad(o));
    assert(p.len() == 4 && dotted_quad(p) == dotted_quad(o));
    lemma_dotted_quad_injective(p, o);
}

fn digit_text(d: u8) -> (r: &'static str)
    requires
        d < 10,
    ensures
        r@ == seq![digit_char(d)],
{
    proof {
        reveal_strlit("0");
        reveal_strlit("1");
        reveal_strlit("2");
        reveal_strlit("3");
        reveal_strlit("4");
        reveal_strlit("5");
        reveal_strlit("6");
        reveal_strlit("7");
        reveal_strlit("8");
        reveal_strlit("9");
    }
    if d == 0 {
        "0"
    } else if d == 1 {
        "1"
    } else if d == 2 {
        "2"
    } else if d == 3 {
        "3"
    } else if d == 4 {
        "4"
    } else if d == 5 {
        "5"
    } else if d == 6 {
        "6"
    } else if d == 7 {
        "7"
    } else if d == 8 {
        "8"
    } else {
        "9"
    }
}

fn push_decimal(s: &mut String, n: u8)
    ensures
        final(s)@ == old(s)@ + decimal(n),
{
    let ghost start = s@;
    if n >= 100 {
        s.append(digit_text(n / 100));
    }
    if n >= 10 {
        s.append(digit_text((n / 10) % 10));
    }
    s.append(digit_text(n % 10));
    assert(s@ =~= start + decimal(n));
}

fn push_dot(s: &mut String)
    ensures
        final(s)@ == old(s)@ + seq!['.'],
{
    proof {
        reveal_strlit(".");
    }
    s.append(".");
}

/// The dotted-decimal text of the octets `a`, `b`, `c`, `d`.
pub fn dotted_quad_string(a: u8, b: u8, c: u8, d: u8) -> (r: String)
    ensures
        r@ == dotted_quad(seq![a, b, c, d]),
{
    let mut s = String::new();
    push_decimal(&mut s, a);
    push_dot(&mut s);
    push_decimal(&mut s, b);
    push_dot(&mut s);
    push_decimal(&mut s, c);
    push_dot(&mut s);
    push_decimal(&mut s, d);
    let ghost o = seq![a, b, c, d];
    assert(s@ =~= dotted_quad(o));
    s
}

} // verus!
