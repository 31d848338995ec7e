//! Text that the manager writes and reads: numbers in decimal and hexadecimal,
//! and pieces of a string.

use vstd::prelude::*;
use vstd::string::*;

verus! {

// ---------------------------------------------------------------------------
// Numbers as text
// ---------------------------------------------------------------------------
/// The character of a decimal digit.
pub open spec fn digit(d: int) -> char {
    (48 + d) as char
}

/// The character of an upper-case hexadecimal digit.
pub open spec fn hex_digit(d: int) -> char {
    if d < 10 {
        (48 + d) as char
    } else {
        (55 + d) as char
    }
}

/// `n` in decimal, without leading zeros.
pub open spec fn dec(n: nat) -> Seq<char>
    decreases n,
{
    if n < 10 {
        seq![digit(n as int)]
    } else {
        dec(n / 10).push(digit((n % 10) as int))
    }
}

/// `n` in upper-case hexadecimal, without leading zeros.
pub open spec fn hex(n: nat) -> Seq<char>
    decreases n,
{
    if n < 16 {
        seq![hex_digit(n as int)]
    } else {
        hex(n / 16).push(hex_digit((n % 16) as int))
    }
}

/// `n` in upper-case hexadecimal, with at least two digits.
pub open spec fn hex2(n: nat) -> Seq<char> {
    if n < 16 {
        seq!['0', hex_digit(n as int)]
    } else {
        hex(n)
    }
}

pub open spec fn is_digit(c: char) -> bool {
    '0' <= c <= '9'
}

pub open spec fn all_digits(s: Seq<char>) -> bool {
    forall|i: int| 0 <= i < s.len() ==> is_digit(#[trigger] s[i])
}

/// The number that a row of decimal digits stands for.
pub open spec fn digits_value(s: Seq<char>) -> nat
    decreases s.len(),
{
    if s.len() == 0 {
        0
    } else {
        (10 * digits_value(s.drop_last()) + (s.last() as int - 48)) as nat
    }
}

/// The number that `s` stands for: an optional `+` and at least one digit.
pub open spec fn unsigned_value(s: Seq<char>) -> Option<nat> {
    let digits = if s.len() > 0 && s[0] == '+' {
        s.skip(1)
    } else {
        s
    };
    if digits.len() > 0 && all_digits(digits) {
        Some(digits_value(digits))
    } else {
        None
    }
}

fn digit_text(d: u64) -> (r: &'static str)
    requires
        d < 10,
    ensures
        r@ == seq![digit(d as int)],
{
    proof {
        reveal_strlit("0");
        reveal_strlit("1");
        reveal_strlit("2");
        reveal_strlit("3");
        reveal_strlit("4");
        reveal_strlit("5");
        reveal_strlit("6");
        reveal_strlit("7");
        reveal_strlit("8");
        reveal_strlit("9");
    }
    match d {
        0 => "0",
        1 => "1",
        2 => "2",
        3 => "3",
        4 => "4",
        5 => "5",
        6 => "6",
        7 => "7",
        8 => "8",
        _ => "9",
    }
}

fn hex_digit_text(d: u64) -> (r: &'static str)
    requires
        d < 16,
    ensures
        r@ == seq![hex_digit(d as int)],
{
    proof {
        reveal_strlit("A");
        reveal_strlit("B");
        reveal_strlit("C");
        reveal_strlit("D");
        reveal_strlit("E");
        reveal_strlit("F");
    }
    match d {
        10 => "A",
        11 => "B",
        12 => "C",
        13 => "D",
        14 => "E",
        15 => "F",
        _ => digit_text(d),
    }
}

/// Writes `n` in decimal.
pub fn decimal(n: u64) -> (r: String)
    ensures
        r@ == dec(n as nat),
    decreases n,
{
    if n < 10 {
        digit_text(n).to_string()
    } else {
        let mut s = decimal(n / 10);
        s.append(digit_text(n % 10));
        s
    }
}

fn hexadecimal(n: u64) -> (r: String)
    ensures
        r@ == hex(n as nat),
    decreases n,
{
    if n < 16 {
        hex_digit_text(n).to_string()
    } else {
        let mut s = hexadecimal(n / 16);
        s.append(hex_digit_text(n % 16));
        s
    }
}

/// Writes `n` in upper-case hexadecimal, with at least two digits.
pub fn hexadecimal2(n: u64) -> (r: String)
    ensures
        r@ == hex2(n as nat),
{
    if n < 16 {
        let mut s = digit_text(0).to_string();
        s.append(hex_digit_text(n));
        s
    } else {
        hexadecimal(n)
    }
}

/// Decimal text holds digits only, stands for its number, and has no leading zero.
pub proof fn lemma_dec(n: nat)
    ensures
        dec(n).len() > 0,
        all_digits(dec(n)),
        digits_value(dec(n)) == n,
        n > 0 ==> dec(n)[0] != '0',
        dec(n).len() > 1 ==> dec(n)[0] != '0',
    decreases n,
{
    if n < 10 {
        let s = dec(n);
        assert(s.drop_last() =~= seq![]);
        reveal_with_fuel(digits_value, 2);
    } else {
        lemma_dec(n / 10);
        let s = dec(n);
        assert(s.drop_last() =~= dec(n / 10));
        assert(s.last() == digit((n % 10) as int));
    }
}

/// Different numbers have different decimal texts.
pub proof fn lemma_dec_injective(m: nat, n: nat)
    requires
        dec(m) == dec(n),
    ensures
        m == n,
{
    lemma_dec(m);
    lemma_dec(n);
}

/// A row of digits without a leading zero is the decimal text of its value.
pub proof fn lemma_dec_of_digits(s: Seq<char>)
    requires
        s.len() > 0,
        all_digits(s),
        s.len() == 1 || s[0] != '0',
    ensures
        dec(digits_value(s)) == s,
    decreases s.len(),
{
    let head = s.drop_last();
    let d = s.last() as int - 48;
    assert(is_digit(s[s.len() - 1]));
    assert(digit(d) == s.last());
    if s.len() == 1 {
        assert(head.len() == 0);
        assert(digits_value(head) == 0);
        assert(dec(digits_value(s)) =~= s);
    } else {
        assert(head[0] == s[0]);
        assert forall|i: int| 0 <= i < head.len() implies is_digit(#[trigger] head[i]) by {
            assert(head[i] == s[i]);
        }
        lemma_dec_of_digits(head);
        lemma_value_positive(head);
        let v = digits_value(head);
        assert(digits_value(s) == 10 * v + d);
        assert((10 * v + d) as nat / 10 == v);
        assert((10 * v + d) as nat % 10 == d);
        assert(dec(digits_value(s)) =~= s);
    }
}

proof fn lemma_value_positive(s: Seq<char>)
    requires
        s.len() > 0,
        all_digits(s),
        s[0] != '0',
    ensures
        digits_value(s) > 0,
    decreases s.len(),
{
    assert(is_digit(s[s.len() - 1]));
    if s.len() > 1 {
        let head = s.drop_last();
        assert(head[0] == s[0]);
        assert forall|i: int| 0 <= i < head.len() implies is_digit(#[trigger] head[i]) by {
            assert(head[i] == s[i]);
        }
        lemma_value_positive(head);
    }
}

proof fn lemma_hex(n: nat)
    ensures
        hex(n).len() > 0,
        hex(n).len() == 1 <==> n < 16,
        n > 0 ==> hex(n)[0] != '0',
        !hex(n).contains(':'),
    decreases n,
{
    let s = hex(n);
    if n >= 16 {
        lemma_hex(n / 16);
        let head = hex(n / 16);
        assert(s[0] == head[0]);
        assert forall|i: int| 0 <= i < s.len() implies s[i] != ':' by {
            if i < head.len() {
                assert(s[i] == head[i]);
                assert(head.contains(head[i]));
            }
        }
    }
}

proof fn lemma_hex_injective(m: nat, n: nat)
    requires
        hex(m) == hex(n),
    ensures
        m == n,
    decreases m,
{
    lemma_hex(m);
    lemma_hex(n);
    assert(hex(m).last() == hex(n).last());
    if m >= 16 {
        assert(hex(m).drop_last() =~= hex(m / 16));
        assert(hex(n).drop_last() =~= hex(n / 16));
        lemma_hex_injective(m / 16, n / 16);
        assert(hex(m).last() == hex_digit((m % 16) as int));
        assert(hex(n).last() == hex_digit((n % 16) as int));
    } else {
        assert(hex(m)[0] == hex_digit(m as int));
        assert(hex(n)[0] == hex_digit(n as int));
    }
}

/// Hexadecimal text holds no colon.
pub proof fn lemma_hex2_no_colon(n: nat)
    ensures
        !hex2(n).contains(':'),
{
    lemma_hex(n);
}

/// Different numbers have different hexadecimal texts.
pub proof fn lemma_hex2_injective(m: nat, n: nat)
    requires
        hex2(m) == hex2(n),
    ensures
        m == n,
{
    lemma_hex(m);
    lemma_hex(n);
    if m < 16 && n < 16 {
        assert(hex2(m)[1] == hex2(n)[1]);
    } else if m >= 16 && n >= 16 {
        lemma_hex_injective(m, n);
    } else {
        assert(hex2(m)[0] == hex2(n)[0]);
    }
}

// ---------------------------------------------------------------------------
// Pieces of a text
// ---------------------------------------------------------------------------
/// The characters of `s`.
pub fn chars_of(s: &str) -> (r: Vec<char>)
    ensures
        r@ == s@,
{
    let mut r: Vec<char> = Vec::new();
    for c in it: s.chars()
        invariant
            it.seq() == s@,
            r@ == s@.take(it.index()),
    {
        r.push(c);
    }
    assert(s@.take(s@.len() as int) =~= s@);
    r
}

/// Are all characters of `s` decimal digits?
pub fn holds_digits_only(s: &str) -> (r: bool)
    ensures
        r == all_digits(s@),
{
    let cs = chars_of(s);
    let mut i: usize = 0;
    while i < cs.len()
        invariant
            i <= cs.len(),
            cs@ == s@,
            forall|j: int| 0 <= j < i ==> is_digit(#[trigger] s@[j]),
        decreases cs.len() - i,
    {
        if cs[i] < '0' || cs[i] > '9' {
            assert(!is_digit(s@[i as int]));
            return false;
        }
        i += 1;
    }
    true
}

/// What follows `prefix` in `s`, where `s` begins with it.
pub open spec fn stripped(s: Seq<char>, prefix: Seq<char>) -> Option<Seq<char>> {
    if prefix.is_prefix_of(s) {
        Some(s.skip(prefix.len() as int))
    } else {
        None
    }
}

/// Takes `prefix` off the front of `s`.
pub fn strip_prefix<'a>(s: &'a str, prefix: &str) -> (r: Option<&'a str>)
    ensures
        match r {
            Some(rest) => stripped(s@, prefix@) == Some(rest@),
            None => stripped(s@, prefix@) is None,
        },
{
    let n = s.unicode_len();
    let k = prefix.unicode_len();
    if n < k {
        return None;
    }
    let head = s.substring_char(0, k);
    if same_text(head, prefix) {
        assert(s@.subrange(0, k as int) =~= prefix@);
        Some(s.substring_char(k, n))
    } else {
        assert(!(prefix@ =~= s@.subrange(0, k as int)));
        None
    }
}

/// Do `a` and `b` hold the same characters?
pub fn same_text(a: &str, b: &str) -> (r: bool)
    ensures
        r == (a@ == b@),
{
    let xs = chars_of(a);
    let ys = chars_of(b);
    if xs.len() != ys.len() {
        return false;
    }
    let mut i: usize = 0;
    while i < xs.len()
        invariant
            i <= xs.len(),
            xs.len() == ys.len(),
            xs@ == a@,
            ys@ == b@,
            forall|j: int| 0 <= j < i ==> xs@[j] == ys@[j],
        decreases xs.len() - i,
    {
        if xs[i] != ys[i] {
            return false;
        }
        i += 1;
    }
    assert(xs@ =~= ys@);
    true
}

/// The part of `s` before the first `c`, or all of `s` where there is none.
pub open spec fn before(s: Seq<char>, c: char) -> Seq<char>
    decreases s.len(),
{
    if s.len() == 0 || s[0] == c {
        seq![]
    } else {
        seq![s[0]] + before(s.skip(1), c)
    }
}

/// Where `head` holds no `c`, it is what stands before the first `c` of `head + c + tail`.
pub proof fn lemma_before(head: Seq<char>, c: char, tail: Seq<char>)
    requires
        !head.contains(c),
    ensures
        before(head, c) == head,
        before(head + seq![c] + tail, c) == head,
    decreases head.len(),
{
    let s = head + seq![c] + tail;
    if head.len() > 0 {
        assert(head[0] != c);
        assert(s[0] == head[0]);
        let rest = head.skip(1);
        assert(!rest.contains(c)) by {
            if rest.contains(c) {
                let i = choose|i: int| 0 <= i < rest.len() && rest[i] == c;
                assert(head[i + 1] == c);
            }
        }
        lemma_before(rest, c, tail);
        assert(s.skip(1) =~= rest + seq![c] + tail);
        assert(seq![head[0]] + rest =~= head);
    } else {
        assert(before(head, c) =~= head);
        assert(before(s, c) =~= head);
    }
}

/// `before(s, c)` is a prefix of `s` without `c`, and ends at a `c` or at the end of `s`.
pub proof fn lemma_before_splits(s: Seq<char>, c: char)
    ensures
        before(s, c).is_prefix_of(s),
        !before(s, c).contains(c),
        before(s, c).len() < s.len() ==> s[before(s, c).len() as int] == c,
    decreases s.len(),
{
    let b = before(s, c);
    if s.len() > 0 && s[0] != c {
        let rest = s.skip(1);
        lemma_before_splits(rest, c);
        let rb = before(rest, c);
        assert(b =~= seq![s[0]] + rb);
        assert forall|i: int| 0 <= i < b.len() implies b[i] == s[i] && b[i] != c by {
            if i > 0 {
                assert(b[i] == rb[i - 1]);
                assert(rb[i - 1] == rest[i - 1]);
                assert(rb.contains(rb[i - 1]));
            }
        }
        if b.len() < s.len() {
            assert(s[b.len() as int] == rest[rb.len() as int]);
        }
        assert(b =~= s.subrange(0, b.len() as int));
    } else {
        assert(b =~= s.subrange(0, 0));
    }
}

/// Cuts `s` before its first `c`.
pub fn cut_before<'a>(s: &'a str, c: char) -> (r: &'a str)
    ensures
        r@ == before(s@, c),
{
    let cs = chars_of(s);
    let mut i: usize = 0;
    while i < cs.len() && cs[i] != c
        invariant
            i <= cs.len(),
            cs@ == s@,
            forall|j: int| 0 <= j < i ==> s@[j] != c,
        decreases cs.len() - i,
    {
        i += 1;
    }
    proof {
        let head = s@.take(i as int);
        assert(!head.contains(c));
        if i < s@.len() {
            assert(s@ =~= head + seq![c] + s@.skip(i + 1));
            lemma_before(head, c, s@.skip(i + 1));
        } else {
            assert(s@ =~= head);
            lemma_before(head, c, seq![]);
        }
    }
    s.substring_char(0, i)
}

/// Does `part` occur in `s`?
pub open spec fn occurs(part: Seq<char>, s: Seq<char>) -> bool {
    exists|i: int|
        0 <= i <= s.len() - part.len() && #[trigger] s.subrange(i, i + part.len()) == part
}

/// Looks for `part` in `s`.
pub fn holds_text(s: &str, part: &str) -> (r: bool)
    ensures
        r == occurs(part@, s@),
{
    let n = s.unicode_len();
    let k = part.unicode_len();
    let text = chars_of(s);
    let pattern = chars_of(part);
    if n < k {
        return false;
    }
    let mut i: usize = 0;
    while i <= n - k
        invariant
            n == text.len(),
            k == pattern.len(),
            k <= n,
            i <= n - k + 1,
            text@ == s@,
            pattern@ == part@,
            forall|j: int| 0 <= j < i ==> #[trigger] s@.subrange(j, j + k) != part@,
        decreases n - k + 1 - i,
    {
        let mut j: usize = 0;
        while j < k && text[i + j] == pattern[j]
            invariant
                n == text.len(),
                k == pattern.len(),
                i + k <= n,
                j <= k,
                forall|l: int| 0 <= l < j ==> text@[i + l] == pattern@[l],
            decreases k - j,
        {
            j += 1;
        }
        if j == k {
            assert(s@.subrange(i as int, i + k) =~= part@);
            return true;
        }
        assert(s@.subrange(i as int, i + k)[j as int] != part@[j as int]);
        if i == n - k {
            return false;
        }
        i += 1;
    }
    false
}

/// Reads an optional `+` and a row of decimal digits, up to `max`.
pub fn parse_unsigned(s: &str, max: u64) -> (r: Option<u64>)
    ensures
        match r {
            Some(v) => unsigned_value(s@) == Some(v as nat) && v <= max,
            None => unsigned_value(s@) is None || unsigned_value(s@)->0 > max,
        },
{
    let cs = chars_of(s);
    let mut i: usize = 0;
    if cs.len() > 0 && cs[0] == '+' {
        i = 1;
    }
    let ghost start = i as int;
    let ghost digits = s@.skip(start);
    proof {
        assert(s@.skip(0) =~= s@);
    }
    if i == cs.len() {
        return None;
    }
    let mut v: u64 = 0;
    let mut over: bool = false;
    proof {
        assert(digits.take(0) =~= seq![]);
    }
    while i < cs.len()
        invariant
            0 <= start <= i <= cs.len(),
            cs@ == s@,
            digits == s@.skip(start),
            digits.len() > 0,
            unsigned_value(s@) == (if all_digits(digits) {
                Some(digits_value(digits))
            } else {
                None
            }),
            all_digits(digits.take(i - start)),
            !over ==> v == digits_value(digits.take(i - start)),
            over ==> digits_value(digits.take(i - start)) > max,
            !over ==> v <= max,
        decreases cs.len() - i,
    {
        let c = cs[i];
        let ghost so_far = digits.take(i - start);
        let ghost next = digits.take(i + 1 - start);
        proof {
            assert(next.drop_last() =~= so_far);
            assert(next.last() == c);
            assert(digits[i - start] == c);
        }
        if c < '0' || c > '9' {
            assert(!is_digit(digits[i - start]));
            return None;
        }
        let d: u64 = c as u64 - 48;
        if !over {
            if v > (u64::MAX - d) / 10 || 10 * v + d > max {
                over = true;
            } else {
                v = 10 * v + d;
            }
        }
        proof {
            assert forall|j: int| 0 <= j < next.len() implies is_digit(#[trigger] next[j]) by {
                if j < so_far.len() {
                    assert(next[j] == so_far[j]);
                }
            }
        }
        i += 1;
    }
    proof {
        assert(digits.take(digits.len() as int) =~= digits);
    }
    if over {
        None
    } else {
        Some(v)
    }
}

// ---------------------------------------------------------------------------
// Laws
// ---------------------------------------------------------------------------
/// The text of a number reads as that number, with or without a sign before it,
/// and each digit counts ten times what the next one counts.
pub proof fn law_decimal_text_reads_back(n: nat)
    ensures
        unsigned_value(dec(n)) == Some(n),
        unsigned_value(seq!['+'] + dec(n)) == Some(n),
        n < 10 ==> dec(n) == seq![('0' as nat + n) as char],
        n >= 10 ==> dec(n) == dec(n / 10).push(('0' as nat + n % 10) as char),
        n >= 10 ==> dec(n).len() == dec(n / 10).len() + 1,
{
    lemma_dec(n);
    assert(is_digit(dec(n)[0]));
    assert((seq!['+'] + dec(n)).skip(1) =~= dec(n));
}

/// Two upper-case hexadecimal digits stand for a number below 256.
pub proof fn law_two_hexadecimal_digits(n: nat)
    requires
        n < 256,
    ensures
        hex2(n).len() == 2,
        forall|i: int|
            0 <= i < 2 ==> {
                let d = if i == 0 {
                    n / 16
                } else {
                    n % 16
                };
                #[trigger] hex2(n)[i] == if d < 10 {
                    ('0' as nat + d) as char
                } else {
                    ('A' as nat + d - 10) as char
                }
            },
{
    reveal_with_fuel(hex, 3);
    if n >= 16 {
        assert(hex(n) =~= seq![hex_digit((n / 16) as int), hex_digit((n % 16) as int)]);
    }
}

/// What stands before a character is the part up to its first occurrence.
pub proof fn law_before_is_the_part_up_to_the_first(head: Seq<char>, c: char, tail: Seq<char>)
    requires
        forall|i: int| 0 <= i < head.len() ==> head[i] != c,
    ensures
        before(head + seq![c] + tail, c) == head,
        before(head, c) == head,
{
    lemma_before(head, c, tail);
}

/// A text occurs in every text that it is part of, and in no shorter one. What
/// follows on a prefix is what is left when the prefix is taken off.
pub proof fn law_parts_of_texts(head: Seq<char>, part: Seq<char>, tail: Seq<char>, s: Seq<char>)
    ensures
        occurs(part, head + part + tail),
        s.len() < part.len() ==> !occurs(part, s),
        occurs(part, s) ==> exists|i: int|
            0 <= i <= s.len() - part.len() && #[trigger] s.subrange(i, i + part.len()) == part,
        stripped(head + tail, head) == Some(tail),
        stripped(s, head) matches Some(rest) ==> s == head + rest,
{
    let all = head + part + tail;
    let i = head.len() as int;
    assert(all.subrange(i, i + part.len()) =~= part);
    assert((head + tail).skip(i) =~= tail);
    assert((head + tail).subrange(0, i) =~= head);
    assert(head.is_prefix_of(head + tail));
    if let Some(rest) = stripped(s, head) {
        assert(s =~= s.subrange(0, i) + s.skip(i));
        assert(s =~= head + rest);
    }
}

} // verus!
