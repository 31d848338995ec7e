//! IPv4 addresses in dot-decimal notation.

use vstd::prelude::*;
use vstd::string::*;

use crate::text;

verus! {

/// Four octets in decimal, divided by dots.
pub open spec fn dotted(a: nat, b: nat, c: nat, d: nat) -> Seq<char> {
    octet_then(a, octet_then(b, octet_then(c, text::dec(d))))
}

pub open spec fn octet_then(v: nat, tail: Seq<char>) -> Seq<char> {
    text::dec(v) + seq!['.'] + tail
}

/// Is `s` an IPv4 address: four octets in decimal without leading zeros,
/// divided by dots, and nothing else?
pub open spec fn is_ipv4(s: Seq<char>) -> bool {
    exists|a: u8, b: u8, c: u8, d: u8| s == #[trigger] dotted(a as nat, b as nat, c as nat, d as nat)
}

/// Is `s` an octet, a dot and then `tail`?
spec fn follows_octet(s: Seq<char>, tail: Seq<char>) -> bool {
    exists|v: u8| s == #[trigger] octet_then(v as nat, tail)
}

proof fn lemma_no_dot(v: nat)
    ensures
        !text::dec(v).contains('.'),
{
    text::lemma_dec(v);
    let s = text::dec(v);
    if s.contains('.') {
        let i = choose|i: int| 0 <= i < s.len() && s[i] == '.';
        assert(text::is_digit(s[i]));
    }
}

/// An octet and what follows its dot can be told apart.
pub proof fn lemma_octet_then(v: nat, tail: Seq<char>, w: nat, other: Seq<char>)
    requires
        octet_then(v, tail) == octet_then(w, other),
    ensures
        v == w,
        tail == other,
{
    lemma_no_dot(v);
    lemma_no_dot(w);
    text::lemma_before(text::dec(v), '.', tail);
    text::lemma_before(text::dec(w), '.', other);
    text::lemma_dec_injective(v, w);
    let n = text::dec(v).len() as int + 1;
    assert(octet_then(v, tail).skip(n) =~= tail);
    assert(octet_then(w, other).skip(n) =~= other);
}

/// Is `s` the decimal text of a number up to 255?
fn is_octet(s: &str) -> (r: bool)
    ensures
        r <==> exists|v: u8| s@ == #[trigger] text::dec(v as nat),
{
    let cs = text::chars_of(s);
    proof {
        assert forall|v: u8| s@ == #[trigger] text::dec(v as nat) implies s@.len() > 0
            && text::unsigned_value(s@) == Some(v as nat) && (s@.len() == 1 || s@[0] != '0') by {
            text::lemma_dec(v as nat);
            assert(text::is_digit(s@[0]));
        }
    }
    if cs.len() == 0 || cs[0] == '+' || (cs.len() > 1 && cs[0] == '0') {
        proof {
            assert forall|v: u8| s@ != #[trigger] text::dec(v as nat) by {
                text::lemma_dec(v as nat);
                if s@ == text::dec(v as nat) {
                    assert(text::is_digit(s@[0]));
                }
            }
        }
        return false;
    }
    match text::parse_unsigned(s, 255) {
        Some(v) => {
            proof {
                text::lemma_dec_of_digits(s@);
                assert(s@ == text::dec((v as u8) as nat));
            }
            true
        },
        None => false,
    }
}

/// Takes an octet and its dot off the front of `s`.
fn take_octet<'a>(s: &'a str) -> (r: Option<&'a str>)
    ensures
        match r {
            Some(rest) => follows_octet(s@, rest@),
            None => forall|tail: Seq<char>| !follows_octet(s@, tail),
        },
{
    let head = text::cut_before(s, '.');
    let n = s.unicode_len();
    let k = head.unicode_len();
    proof {
        text::lemma_before_splits(s@, '.');
        assert forall|tail: Seq<char>| #[trigger] follows_octet(s@, tail) implies k < n && exists|
            v: u8,
        | head@ == #[trigger] text::dec(v as nat) by {
            let v = choose|v: u8| s@ == #[trigger] octet_then(v as nat, tail);
            lemma_no_dot(v as nat);
            text::lemma_before(text::dec(v as nat), '.', tail);
        }
    }
    if k < n && is_octet(head) {
        let rest = s.substring_char(k + 1, n);
        proof {
            let v = choose|v: u8| head@ == #[trigger] text::dec(v as nat);
            assert(s@ =~= head@ + seq!['.'] + rest@);
            assert(s@ == octet_then(v as nat, rest@));
        }
        Some(rest)
    } else {
        None
    }
}

/// Is `s` an IPv4 address in dot-decimal notation?
pub fn is_address(s: &str) -> (r: bool)
    ensures
        r == is_ipv4(s@),
{
    let s1 = match take_octet(s) {
        Some(rest) => rest,
        None => {
            proof {
                assert forall|w: u8, x: u8, y: u8, z: u8|
                    s@ != #[trigger] dotted(w as nat, x as nat, y as nat, z as nat) by {
                    let t1 = octet_then(x as nat, octet_then(y as nat, text::dec(z as nat)));
                    assert(!follows_octet(s@, t1));
                }
            }
            return false;
        },
    };
    let s2 = match take_octet(s1) {
        Some(rest) => rest,
        None => {
            proof {
                lemma_not_address(s@, s1@);
            }
            return false;
        },
    };
    let s3 = match take_octet(s2) {
        Some(rest) => rest,
        None => {
            proof {
                lemma_not_address2(s@, s1@, s2@);
            }
            return false;
        },
    };
    let last = is_octet(s3);
    proof {
        let a = choose|v: u8| s@ == #[trigger] octet_then(v as nat, s1@);
        let b = choose|v: u8| s1@ == #[trigger] octet_then(v as nat, s2@);
        let c = choose|v: u8| s2@ == #[trigger] octet_then(v as nat, s3@);
        if last {
            let d = choose|v: u8| s3@ == #[trigger] text::dec(v as nat);
            assert(s@ == dotted(a as nat, b as nat, c as nat, d as nat));
        } else {
            assert forall|w: u8, x: u8, y: u8, z: u8|
                s@ != #[trigger] dotted(w as nat, x as nat, y as nat, z as nat) by {
                if s@ == dotted(w as nat, x as nat, y as nat, z as nat) {
                    let t3 = text::dec(z as nat);
                    let t2 = octet_then(y as nat, t3);
                    let t1 = octet_then(x as nat, t2);
                    lemma_octet_then(a as nat, s1@, w as nat, t1);
                    lemma_octet_then(b as nat, s2@, x as nat, t2);
                    lemma_octet_then(c as nat, s3@, y as nat, t3);
                }
            }
        }
    }
    last
}

proof fn lemma_not_address(s: Seq<char>, s1: Seq<char>)
    requires
        follows_octet(s, s1),
        forall|tail: Seq<char>| !follows_octet(s1, tail),
    ensures
        !is_ipv4(s),
{
    let a = choose|v: u8| s == #[trigger] octet_then(v as nat, s1);
    assert forall|w: u8, x: u8, y: u8, z: u8|
        s != #[trigger] dotted(w as nat, x as nat, y as nat, z as nat) by {
        if s == dotted(w as nat, x as nat, y as nat, z as nat) {
            let t1 = octet_then(x as nat, octet_then(y as nat, text::dec(z as nat)));
            lemma_octet_then(a as nat, s1, w as nat, t1);
            assert(follows_octet(s1, octet_then(y as nat, text::dec(z as nat))));
        }
    }
}

proof fn lemma_not_address2(s: Seq<char>, s1: Seq<char>, s2: Seq<char>)
    requires
        follows_octet(s, s1),
        follows_octet(s1, s2),
        forall|tail: Seq<char>| !follows_octet(s2, tail),
    ensures
        !is_ipv4(s),
{
    let a = choose|v: u8| s == #[trigger] octet_then(v as nat, s1);
    let b = choose|v: u8| s1 == #[trigger] octet_then(v as nat, s2);
    assert forall|w: u8, x: u8, y: u8, z: u8|
        s != #[trigger] dotted(w as nat, x as nat, y as nat, z as nat) by {
        if s == dotted(w as nat, x as nat, y as nat, z as nat) {
            let t2 = octet_then(y as nat, text::dec(z as nat));
            lemma_octet_then(a as nat, s1, w as nat, octet_then(x as nat, t2));
            lemma_octet_then(b as nat, s2, x as nat, t2);
            assert(follows_octet(s2, text::dec(z as nat)));
        }
    }
}

/// An IPv4 address is four numbers up to 255 in decimal, divided by dots.
pub proof fn law_ipv4_is_four_octets(s: Seq<char>)
    ensures
        is_ipv4(s) <==> exists|a: u8, b: u8, c: u8, d: u8|
            s == #[trigger] (text::dec(a as nat) + seq!['.'] + (text::dec(b as nat) + seq!['.'] + (
            text::dec(c as nat) + seq!['.'] + text::dec(d as nat)))),
{
    if is_ipv4(s) {
        let (a, b, c, d) = choose|a: u8, b: u8, c: u8, d: u8|
            s == #[trigger] dotted(a as nat, b as nat, c as nat, d as nat);
        assert(s == text::dec(a as nat) + seq!['.'] + (text::dec(b as nat) + seq!['.'] + (text::dec(
            c as nat,
        ) + seq!['.'] + text::dec(d as nat))));
    }
    if exists|a: u8, b: u8, c: u8, d: u8|
        s == #[trigger] (text::dec(a as nat) + seq!['.'] + (text::dec(b as nat) + seq!['.'] + (
        text::dec(c as nat) + seq!['.'] + text::dec(d as nat)))) {
        let (a, b, c, d) = choose|a: u8, b: u8, c: u8, d: u8|
            s == #[trigger] (text::dec(a as nat) + seq!['.'] + (text::dec(b as nat) + seq!['.'] + (
            text::dec(c as nat) + seq!['.'] + text::dec(d as nat))));
        assert(s == dotted(a as nat, b as nat, c as nat, d as nat));
    }
}

} // verus!
