//! Reading the names of scene nodes.
use vstd::prelude::*;

verus! {

/// What follows `prefix` in `s`, where `s` starts with it.
pub open spec fn after_prefix(s: Seq<char>, prefix: Seq<char>) -> Option<Seq<char>> {
    if prefix.is_prefix_of(s) {
        Some(s.subrange(prefix.len() as int, s.len() as int))
    } else {
        None
    }
}

/// The decimal digits.
pub open spec fn is_digit(c: char) -> bool {
    '0' <= c <= '9'
}

/// Nothing but decimal digits.
pub open spec fn all_digits(s: Seq<char>) -> bool {
    forall|i: int| 0 <= i < s.len() ==> is_digit(#[trigger] s[i])
}

/// The number that digits write.
pub open spec fn decimal(s: Seq<char>) -> nat
    decreases s.len(),
{
    if s.len() == 0 {
        0
    } else {
        10 * decimal(s.drop_last()) + (s.last() as int - '0' as int) as nat
    }
}

/// The digits of a written number: all but a plus sign in front.
pub open spec fn digits_of(s: Seq<char>) -> Seq<char> {
    if s.len() > 0 && s[0] == '+' {
        s.subrange(1, s.len() as int)
    } else {
        s
    }
}

/// The number that `s` writes: digits, at least one, with or without a plus sign in front, and not
/// too large for a `usize`.
pub open spec fn number(s: Seq<char>) -> Option<int> {
    let digits = digits_of(s);
    if digits.len() > 0 && all_digits(digits) && decimal(digits) <= usize::MAX {
        Some(decimal(digits) as int)
    } else {
        None
    }
}

/// The characters of a string.
pub fn chars_of(s: &str) -> (r: Vec<char>)
    ensures
        r@ == s@,
{
    let mut r: Vec<char> = Vec::new();
    let len: usize = s.unicode_len();
    let mut i: usize = 0;
    while i < len
        invariant
            i <= len,
            len == s@.len(),
            r@ == s@.subrange(0, i as int),
        decreases len - i,
    {
        r.push(s.get_char(i));
        i += 1;
        assert(r@ =~= s@.subrange(0, i as int));
    }
    assert(s@.subrange(0, len as int) =~= s@);
    r
}

/// Whether the characters from `from` up to `to` are those of `other`.
pub fn reads(s: &Vec<char>, from: usize, to: usize, other: &Vec<char>) -> (r: bool)
    requires
        from <= to <= s@.len(),
    ensures
        r == (s@.subrange(from as int, to as int) == other@),
{
    let ghost part = s@.subrange(from as int, to as int);
    if to - from != other.len() {
        return false;
    }
    let mut i: usize = 0;
    while i < other.len()
        invariant
            i <= other@.len(),
            from <= to <= s@.len(),
            to - from == other@.len(),
            part == s@.subrange(from as int, to as int),
            forall|j: int| 0 <= j < i ==> part[j] == #[trigger] other@[j],
        decreases other@.len() - i,
    {
        if s[from + i] != other[i] {
            assert(part[i as int] != other@[i as int]);
            return false;
        }
        i += 1;
    }
    assert(part =~= other@);
    true
}

/// Where the first underscore from `from` on stands; the length where there is none.
pub fn next_underscore(s: &Vec<char>, from: usize) -> (r: usize)
    requires
        from <= s@.len(),
    ensures
        from <= r <= s@.len(),
        r < s@.len() ==> s@[r as int] == '_',
        forall|j: int| from <= j < r ==> #[trigger] s@[j] != '_',
{
    let mut i: usize = from;
    while i < s.len()
        invariant
            from <= i <= s@.len(),
            forall|j: int| from <= j < i ==> #[trigger] s@[j] != '_',
        decreases s@.len() - i,
    {
        if s[i] == '_' {
            return i;
        }
        i += 1;
    }
    i
}

/// The number that the characters from `from` up to `to` write.
pub fn read_number(s: &Vec<char>, from: usize, to: usize) -> (r: Option<usize>)
    requires
        from <= to <= s@.len(),
    ensures
        r matches Some(n) ==> number(s@.subrange(from as int, to as int)) == Some(n as int),
        r is None ==> number(s@.subrange(from as int, to as int)) is None,
{
    let ghost part = s@.subrange(from as int, to as int);
    let mut at: usize = from;
    if from < to && s[from] == '+' {
        at = from + 1;
    }
    let ghost digits = digits_of(part);
    assert(digits =~= s@.subrange(at as int, to as int));
    if at == to {
        return None;
    }
    let start: usize = at;
    let mut value: usize = 0;
    while at < to
        invariant
            start <= at <= to <= s@.len(),
            start < to,
            digits == s@.subrange(start as int, to as int),
            digits == digits_of(part),
            part == s@.subrange(from as int, to as int),
            all_digits(digits.subrange(0, at - start)),
            value == decimal(digits.subrange(0, at - start)),
        decreases to - at,
    {
        let c: char = s[at];
        let ghost before = digits.subrange(0, at - start);
        let ghost with = digits.subrange(0, at - start + 1);
        proof {
            assert(with.drop_last() =~= before);
            assert(with.last() == c);
            assert(digits[at - start] == c);
        }
        if c < '0' || c > '9' {
            assert(!is_digit(digits[at - start]));
            return None;
        }
        let digit: usize = (c as u32 - '0' as u32) as usize;
        assert(all_digits(with)) by {
            assert forall|i: int| 0 <= i < with.len() implies is_digit(#[trigger] with[i]) by {
                if i < before.len() {
                    assert(with[i] == before[i]);
                }
            }
        }
        if value > (usize::MAX - digit) / 10 {
            proof {
                assert(decimal(with) == 10 * value + digit);
                assert(decimal(with) > usize::MAX) by {
                    assert(10 * value + digit > usize::MAX) by (nonlinear_arith)
                        requires
                            value > (usize::MAX - digit) / 10,
                            digit <= 9,
                    ;
                }
                lemma_longer_is_not_smaller(digits, at - start + 1);
            }
            return None;
        }
        assert(10 * value + digit <= usize::MAX) by (nonlinear_arith)
            requires
                value <= (usize::MAX - digit) / 10,
                digit <= 9,
        ;
        value = 10 * value + digit;
        at += 1;
    }
    assert(digits.subrange(0, to - start) =~= digits);
    Some(value)
}

/// Each digit more makes a number at least as large.
proof fn lemma_longer_is_not_smaller(s: Seq<char>, n: int)
    requires
        0 <= n <= s.len(),
    ensures
        decimal(s.subrange(0, n)) <= decimal(s),
    decreases s.len(),
{
    if n == s.len() {
        assert(s.subrange(0, n) =~= s);
    } else {
        lemma_longer_is_not_smaller(s.drop_last(), n);
        assert(s.drop_last().subrange(0, n) =~= s.subrange(0, n));
    }
}

/// How numbers are written: a digit behind a number counts ten times the number and the digit; a
/// plus sign in front changes nothing; nothing at all, or anything but digits, is no number; and a
/// number that a `usize` does not hold is none either.
pub proof fn law_numbers_are_decimal(digits: Seq<char>, digit: char, other: Seq<char>, at: int)
    requires
        all_digits(digits),
        is_digit(digit),
        0 <= at < other.len(),
        !('0' <= other[at] <= '9'),
        at > 0 || other[at] != '+',
    ensures
        number(seq![digit]) == Some(digit as int - '0' as int),
        digits.len() > 0 && number(digits.push(digit)) is Some ==> number(digits) is Some && number(
            digits.push(digit),
        )->0 == 10 * number(digits)->0 + (digit as int - '0' as int),
        digits.len() > 0 && number(digits) is Some && 10 * number(digits)->0 + (digit as int
            - '0' as int) <= usize::MAX ==> number(digits.push(digit)) is Some,
        digits.len() > 0 ==> number(seq!['+'] + digits) == number(digits),
        number(Seq::<char>::empty()) is None,
        number(seq!['+']) is None,
        number(other) is None,
        number(digits) is Some ==> 0 <= number(digits)->0 <= usize::MAX,
{
    let more = digits.push(digit);
    assert(more.drop_last() =~= digits);
    assert(all_digits(more));
    if digits.len() > 0 {
        assert(digits[0] != '+') by {
            assert(is_digit(digits[0]));
        }
        assert(more[0] == digits[0]);
        let signed = seq!['+'] + digits;
        assert(signed.subrange(1, signed.len() as int) =~= digits);
    }
    let one = seq![digit];
    assert(one.drop_last() =~= Seq::<char>::empty());
    reveal_with_fuel(decimal, 2);
    assert(all_digits(one));
    let sign = seq!['+'];
    assert(sign.subrange(1, 1) =~= Seq::<char>::empty());
    if other[0] == '+' {
        let rest = other.subrange(1, other.len() as int);
        assert(rest[at - 1] == other[at]);
        assert(!is_digit(rest[at - 1]));
    } else {
        assert(!is_digit(other[at]));
    }
}

/// What follows a prefix is what was put behind it.
pub proof fn law_prefixes_come_off(prefix: Seq<char>, rest: Seq<char>, name: Seq<char>)
    ensures
        after_prefix(prefix + rest, prefix) == Some(rest),
        after_prefix(name, prefix) matches Some(tail) ==> name == prefix + tail,
{
    let whole = prefix + rest;
    assert(prefix =~= whole.subrange(0, prefix.len() as int));
    assert(whole.subrange(prefix.len() as int, whole.len() as int) =~= rest);
    if after_prefix(name, prefix) is Some {
        assert(name =~= prefix + after_prefix(name, prefix)->0);
    }
}

/// Two pieces of text are found alike exactly where they are, character by character; the next
/// underscore is the first one from there; and what is read as a number is one.
pub proof fn law_calls_of_the_readers(
    s: Vec<char>,
    from: usize,
    to: usize,
    other: Vec<char>,
    same: bool,
    at: usize,
    n: Option<usize>,
)
    requires
        from <= to <= s@.len(),
        call_ensures(reads, (&s, from, to, &other), same),
        call_ensures(next_underscore, (&s, from), at),
        call_ensures(read_number, (&s, from, to), n),
    ensures
        same <==> other@.len() == to - from && forall|i: int|
            0 <= i < other@.len() ==> s@[from + i] == #[trigger] other@[i],
        from <= at <= s@.len(),
        at < s@.len() ==> s@[at as int] == '_',
        forall|j: int| from <= j < at ==> #[trigger] s@[j] != '_',
        n is Some <==> number(s@.subrange(from as int, to as int)) is Some,
        n is Some ==> number(s@.subrange(from as int, to as int)) == Some(n->0 as int),
{
    let part = s@.subrange(from as int, to as int);
    if other@.len() == to - from && forall|i: int|
        0 <= i < other@.len() ==> s@[from + i] == #[trigger] other@[i] {
        assert(part =~= other@);
    }
    if same {
        assert forall|i: int| 0 <= i < other@.len() implies s@[from + i] == #[trigger] other@[i] by {
            assert(part[i] == s@[from + i]);
        }
    }
}

} // verus!
