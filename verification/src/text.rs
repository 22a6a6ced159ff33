//! Small text utilities shared by the modules that build keys, labels and
//! markup.

use vstd::prelude::*;

verus! {

/// `String::push` of the standard library appends one character to the end of
/// the string.
pub assume_specification[ std::string::String::push ](s: &mut std::string::String, c: char)
    ensures
        final(s)@ == old(s)@.push(c),
;

/// The decimal digit that stands for `d`, for `0 <= d < 10`.
pub open spec fn digit_char(d: int) -> char {
    if d == 0 {
        '0'
    } else if d == 1 {
        '1'
    } else if d == 2 {
        '2'
    } else if d == 3 {
        '3'
    } else if d == 4 {
        '4'
    } else if d == 5 {
        '5'
    } else if d == 6 {
        '6'
    } else if d == 7 {
        '7'
    } else if d == 8 {
        '8'
    } else {
        '9'
    }
}

/// Whether `c` is one of the ten decimal digits.
pub open spec fn is_digit(c: char) -> bool {
    c == '0' || c == '1' || c == '2' || c == '3' || c == '4' || c == '5' || c == '6' || c == '7'
        || c == '8' || c == '9'
}

/// The decimal notation of a natural number, without leading zeros.
pub open spec fn decimal_nat(n: nat) -> Seq<char>
    decreases n,
{
    if n < 10 {
        seq![digit_char(n as int)]
    } else {
        decimal_nat(n / 10).push(digit_char((n % 10) as int))
    }
}

/// The decimal notation of an integer: a minus sign in front of the digits of
/// a negative number.
pub open spec fn decimal(n: int) -> Seq<char> {
    if n < 0 {
        seq!['-'] + decimal_nat((-n) as nat)
    } else {
        decimal_nat(n as nat)
    }
}

fn digit_of(d: u64) -> (c: char)
    requires
        d < 10,
    ensures
        c == digit_char(d as int),
{
    if d == 0 {
        '0'
    } else if d == 1 {
        '1'
    } else if d == 2 {
        '2'
    } else if d == 3 {
        '3'
    } else if d == 4 {
        '4'
    } else if d == 5 {
        '5'
    } else if d == 6 {
        '6'
    } else if d == 7 {
        '7'
    } else if d == 8 {
        '8'
    } else {
        '9'
    }
}

/// Appends the decimal notation of `n` to `out`.
pub fn push_decimal_u64(out: &mut String, n: u64)
    ensures
        final(out)@ == old(out)@ + decimal_nat(n as nat),
    decreases n,
{
    if n >= 10 {
        push_decimal_u64(out, n / 10);
    }
    out.push(digit_of(n % 10));
    assert(out@ =~= old(out)@ + decimal_nat(n as nat));
}

/// Appends the decimal notation of `n` to `out`.
pub fn push_decimal_i64(out: &mut String, n: i64)
    ensures
        final(out)@ == old(out)@ + decimal(n as int),
{
    if n < 0 {
        out.push('-');
        let magnitude: u64 = (-(n + 1)) as u64 + 1;
        push_decimal_u64(out, magnitude);
        assert(out@ =~= old(out)@ + decimal(n as int));
    } else {
        push_decimal_u64(out, n as u64);
    }
}

/// The decimal notation of `n` as a string of its own.
pub fn i64_to_string(n: i64) -> (text: String)
    ensures
        text@ == decimal(n as int),
{
    let mut out = String::new();
    push_decimal_i64(&mut out, n);
    assert(out@ =~= decimal(n as int));
    out
}


/// Appends `piece` to `out`.
pub fn push_text(out: &mut String, piece: &str)
    ensures
        final(out)@ == old(out)@ + piece@,
{
    out.append(piece);
}

/// A new string that holds the characters of `s`.
pub fn text_of(s: &str) -> (text: String)
    ensures
        text@ == s@,
{
    s.to_owned()
}

/// Whether two string slices hold the same characters.
pub fn same_text(a: &str, b: &str) -> (same: bool)
    ensures
        same == (a@ == b@),
{
    let left = a.to_owned();
    let right = b.to_owned();
    left == right
}

/// A copy of an optional string.
pub fn copy_optional_text(value: &Option<String>) -> (copy: Option<String>)
    ensures
        copy == *value,
{
    match value {
        Some(text) => Some(text.clone()),
        None => None,
    }
}

/// Every character of a decimal notation of a natural number is a digit.
pub proof fn lemma_decimal_nat_digits(n: nat)
    ensures
        decimal_nat(n).len() >= 1,
        forall|i: int| 0 <= i < decimal_nat(n).len() ==> is_digit(#[trigger] decimal_nat(n)[i]),
    decreases n,
{
    if n >= 10 {
        lemma_decimal_nat_digits(n / 10);
    }
}

/// The first digit of a number of two or more digits is not zero.
pub proof fn lemma_decimal_nat_leading(n: nat)
    ensures
        n >= 10 ==> decimal_nat(n).len() >= 2 && decimal_nat(n)[0] != '0',
        n < 10 ==> decimal_nat(n).len() == 1,
    decreases n,
{
    if n >= 10 {
        lemma_decimal_nat_leading(n / 10);
        lemma_decimal_nat_digits(n / 10);
        let head = decimal_nat(n / 10);
        assert(decimal_nat(n)[0] == head[0]);
        if n / 10 < 10 {
            assert(head[0] == digit_char((n / 10) as int));
        }
    }
}

/// Two natural numbers with the same decimal notation are equal.
pub proof fn lemma_decimal_nat_injective(a: nat, b: nat)
    requires
        decimal_nat(a) == decimal_nat(b),
    ensures
        a == b,
    decreases a,
{
    lemma_decimal_nat_leading(a);
    lemma_decimal_nat_leading(b);
    if a < 10 && b < 10 {
        assert(decimal_nat(a)[0] == digit_char(a as int));
        assert(decimal_nat(b)[0] == digit_char(b as int));
    } else if a >= 10 && b >= 10 {
        let da = decimal_nat(a / 10);
        let db = decimal_nat(b / 10);
        let ca = digit_char((a % 10) as int);
        let cb = digit_char((b % 10) as int);
        assert(da.push(ca) == db.push(cb));
        assert(da.push(ca).last() == ca);
        assert(db.push(cb).last() == cb);
        assert(da.push(ca).drop_last() =~= da);
        assert(db.push(cb).drop_last() =~= db);
        lemma_decimal_nat_injective(a / 10, b / 10);
    }
}

/// Two integers with the same decimal notation are equal.
pub proof fn lemma_decimal_injective(a: int, b: int)
    requires
        decimal(a) == decimal(b),
    ensures
        a == b,
{
    lemma_decimal_nat_digits(if a < 0 { (-a) as nat } else { a as nat });
    lemma_decimal_nat_digits(if b < 0 { (-b) as nat } else { b as nat });
    if a < 0 && b < 0 {
        let da = decimal_nat((-a) as nat);
        let db = decimal_nat((-b) as nat);
        assert(decimal(a) == seq!['-'] + da);
        assert(decimal(b) == seq!['-'] + db);
        assert((seq!['-'] + da).subrange(1, 1 + da.len() as int) =~= da);
        assert((seq!['-'] + db).subrange(1, 1 + db.len() as int) =~= db);
        assert(da.len() == db.len()) by {
            assert((seq!['-'] + da).len() == 1 + da.len());
            assert((seq!['-'] + db).len() == 1 + db.len());
        }
        assert(da == db);
        lemma_decimal_nat_injective((-a) as nat, (-b) as nat);
    } else if a >= 0 && b >= 0 {
        lemma_decimal_nat_injective(a as nat, b as nat);
    } else if a < 0 {
        assert(decimal(a)[0] == '-');
        assert(is_digit(decimal_nat(b as nat)[0]));
    } else {
        assert(decimal(b)[0] == '-');
        assert(is_digit(decimal_nat(a as nat)[0]));
    }
}

/// No decimal notation holds the character `c`, unless `c` is a digit or the
/// minus sign.
pub proof fn lemma_decimal_alphabet(n: int, c: char)
    requires
        !is_digit(c),
        c != '-',
    ensures
        decimal(n).len() >= 1,
        forall|i: int| 0 <= i < decimal(n).len() ==> #[trigger] decimal(n)[i] != c,
{
    lemma_decimal_nat_digits(if n < 0 { (-n) as nat } else { n as nat });
    if n < 0 {
        let digits = decimal_nat((-n) as nat);
        assert forall|i: int| 0 <= i < decimal(n).len() implies #[trigger] decimal(n)[i] != c by {
            if i > 0 {
                assert(decimal(n)[i] == digits[i - 1]);
                assert(is_digit(digits[i - 1]));
            }
        }
    }
}

/// Two texts made of a part, a separator and a second part are equal only if
/// their parts are, provided the separator occurs in neither first part.
pub proof fn lemma_separated_injective(
    a1: Seq<char>,
    b1: Seq<char>,
    a2: Seq<char>,
    b2: Seq<char>,
    sep: char,
)
    requires
        forall|i: int| 0 <= i < a1.len() ==> #[trigger] a1[i] != sep,
        forall|i: int| 0 <= i < a2.len() ==> #[trigger] a2[i] != sep,
        a1 + seq![sep] + b1 == a2 + seq![sep] + b2,
    ensures
        a1 == a2,
        b1 == b2,
{
    let left = a1 + seq![sep] + b1;
    let right = a2 + seq![sep] + b2;
    if a1.len() < a2.len() {
        assert(left[a1.len() as int] == sep);
        assert(right[a1.len() as int] == a2[a1.len() as int]);
    } else if a2.len() < a1.len() {
        assert(right[a2.len() as int] == sep);
        assert(left[a2.len() as int] == a1[a2.len() as int]);
    } else {
        assert(left.subrange(0, a1.len() as int) =~= a1);
        assert(right.subrange(0, a2.len() as int) =~= a2);
        assert(left.subrange(a1.len() as int + 1, left.len() as int) =~= b1);
        assert(right.subrange(a2.len() as int + 1, right.len() as int) =~= b2);
    }
}


/// The characters of `s`, one by one.
pub fn chars_of(s: &str) -> (chars: Vec<char>)
    ensures
        chars@ == s@,
{
    let mut chars: Vec<char> = Vec::new();
    for c in it: s.chars()
        invariant
            it.seq() == s@,
            chars@ == s@.subrange(0, it.index()),
    {
        chars.push(c);
        assert(chars@ =~= s@.subrange(0, it.index() + 1));
    }
    assert(chars@ =~= s@);
    chars
}


/// Appends the characters of `chars` from position `from` up to `to`.
pub(crate) fn push_chars(out: &mut String, chars: &Vec<char>, from: usize, to: usize)
    requires
        from <= to <= chars.len(),
    ensures
        final(out)@ == old(out)@ + chars@.subrange(from as int, to as int),
{
    let mut i: usize = from;
    while i < to
        invariant
            from <= i <= to <= chars.len(),
            out@ == old(out)@ + chars@.subrange(from as int, i as int),
        decreases to - i,
    {
        out.push(chars[i]);
        i = i + 1;
        assert(out@ =~= old(out)@ + chars@.subrange(from as int, i as int));
    }
}

/// Whether `text` begins with `prefix`.
pub open spec fn has_prefix(text: Seq<char>, prefix: Seq<char>) -> bool {
    prefix.len() <= text.len() && text.subrange(0, prefix.len() as int) == prefix
}

/// Whether `text` begins with `prefix`.
pub fn starts_with(text: &Vec<char>, prefix: &Vec<char>) -> (found: bool)
    ensures
        found == has_prefix(text@, prefix@),
{
    if prefix.len() > text.len() {
        return false;
    }
    let mut i: usize = 0;
    while i < prefix.len()
        invariant
            0 <= i <= prefix.len() <= text.len(),
            text@.subrange(0, i as int) == prefix@.subrange(0, i as int),
        decreases prefix.len() - i,
    {
        if text[i] != prefix[i] {
            assert(text@.subrange(0, prefix.len() as int)[i as int] != prefix@[i as int]);
            return false;
        }
        i = i + 1;
        assert(text@.subrange(0, i as int) =~= text@.subrange(0, i - 1).push(text@[i - 1]));
        assert(prefix@.subrange(0, i as int) =~= prefix@.subrange(0, i - 1).push(prefix@[i - 1]));
    }
    assert(prefix@.subrange(0, i as int) =~= prefix@);
    true
}

/// The position of the first `sep` in `text`, or the length of `text` where
/// it holds none.
pub open spec fn index_of(text: Seq<char>, sep: char) -> int
    decreases text.len(),
{
    if text.len() == 0 {
        0
    } else if text[0] == sep {
        0
    } else {
        1 + index_of(text.drop_first(), sep)
    }
}

/// The first `sep` of a text is within it or at its end, and nothing before
/// it is a `sep`.
pub proof fn lemma_index_of(text: Seq<char>, sep: char)
    ensures
        0 <= index_of(text, sep) <= text.len(),
        index_of(text, sep) < text.len() ==> text[index_of(text, sep)] == sep,
        forall|j: int| 0 <= j < index_of(text, sep) ==> #[trigger] text[j] != sep,
    decreases text.len(),
{
    if text.len() > 0 && text[0] != sep {
        let rest = text.drop_first();
        lemma_index_of(rest, sep);
        assert forall|j: int| 0 <= j < index_of(text, sep) implies #[trigger] text[j] != sep by {
            if j > 0 {
                assert(text[j] == rest[j - 1]);
            }
        }
    }
}

proof fn lemma_index_of_is(text: Seq<char>, sep: char, at: int)
    requires
        0 <= at <= text.len(),
        at < text.len() ==> text[at] == sep,
        forall|j: int| 0 <= j < at ==> #[trigger] text[j] != sep,
    ensures
        index_of(text, sep) == at,
{
    lemma_index_of(text, sep);
    let found = index_of(text, sep);
    if found < at {
        assert(text[found] != sep);
    } else if found > at {
        assert(text[at] != sep);
    }
}

/// The position of the first `sep` in `text` at or after `from`, or the
/// length of `text` where there is none.
pub(crate) fn find_from(text: &Vec<char>, from: usize, sep: char) -> (at: usize)
    requires
        from <= text.len(),
    ensures
        from <= at <= text.len(),
        at == from + index_of(text@.subrange(from as int, text.len() as int), sep),
{
    let mut i: usize = from;
    while i < text.len() && text[i] != sep
        invariant
            from <= i <= text.len(),
            forall|j: int| from <= j < i ==> #[trigger] text@[j] != sep,
        decreases text.len() - i,
    {
        i = i + 1;
    }
    proof {
        let rest = text@.subrange(from as int, text.len() as int);
        assert forall|j: int| 0 <= j < i - from implies #[trigger] rest[j] != sep by {
            assert(rest[j] == text@[from + j]);
        }
        if i < text.len() {
            assert(rest[i - from] == text@[i as int]);
        }
        lemma_index_of_is(rest, sep, i - from);
    }
    i
}

/// The part of `text` with the number `k`, counted from zero, where `text`
/// is cut at every `sep`; `None` where `text` has fewer parts.
pub open spec fn segment(text: Seq<char>, sep: char, k: nat) -> Option<Seq<char>>
    decreases k,
{
    let cut = index_of(text, sep);
    if k == 0 {
        Some(text.subrange(0, cut))
    } else if cut >= text.len() {
        None
    } else {
        segment(text.subrange(cut + 1, text.len() as int), sep, (k - 1) as nat)
    }
}

/// The part of `text` with the number `k`, counted from zero, where `text`
/// is cut at every `sep`.
pub fn segment_of(text: &Vec<char>, sep: char, k: usize) -> (part: Option<Vec<char>>)
    ensures
        match segment(text@, sep, k as nat) {
            Some(expected) => part is Some && part->0@ == expected,
            None => part is None,
        },
{
    let mut start: usize = 0;
    let mut skipped: usize = 0;
    assert(text@.subrange(0, text.len() as int) =~= text@);
    while skipped < k
        invariant
            0 <= skipped <= k,
            0 <= start <= text.len(),
            segment(text@, sep, k as nat) == segment(
                text@.subrange(start as int, text.len() as int),
                sep,
                (k - skipped) as nat,
            ),
        decreases k - skipped,
    {
        let cut = find_from(text, start, sep);
        proof {
            lemma_index_of(text@.subrange(start as int, text.len() as int), sep);
        }
        if cut >= text.len() {
            return None;
        }
        proof {
            let rest = text@.subrange(start as int, text.len() as int);
            assert(rest.subrange(cut - start + 1, rest.len() as int) =~= text@.subrange(
                cut + 1,
                text.len() as int,
            ));
        }
        start = cut + 1;
        skipped = skipped + 1;
    }
    let cut = find_from(text, start, sep);
    let mut part: Vec<char> = Vec::new();
    let mut i: usize = start;
    while i < cut
        invariant
            start <= i <= cut <= text.len(),
            part@ == text@.subrange(start as int, i as int),
        decreases cut - i,
    {
        part.push(text[i]);
        i = i + 1;
        assert(part@ =~= text@.subrange(start as int, i as int));
    }
    proof {
        let rest = text@.subrange(start as int, text.len() as int);
        assert(rest.subrange(0, cut - start) =~= text@.subrange(start as int, cut as int));
    }
    Some(part)
}

/// The value of a decimal digit; -1 for any other character.
pub open spec fn digit_value(c: char) -> int {
    if c == '0' {
        0
    } else if c == '1' {
        1
    } else if c == '2' {
        2
    } else if c == '3' {
        3
    } else if c == '4' {
        4
    } else if c == '5' {
        5
    } else if c == '6' {
        6
    } else if c == '7' {
        7
    } else if c == '8' {
        8
    } else if c == '9' {
        9
    } else {
        -1
    }
}

/// Whether every character of `text` is a decimal digit.
pub open spec fn all_digits(text: Seq<char>) -> bool {
    forall|i: int| 0 <= i < text.len() ==> is_digit(#[trigger] text[i])
}

/// The number that a sequence of decimal digits denotes.
pub open spec fn digits_value(text: Seq<char>) -> int
    decreases text.len(),
{
    if text.len() == 0 {
        0
    } else {
        digits_value(text.drop_last()) * 10 + digit_value(text.last())
    }
}

/// The 64-bit integer that `text` denotes: an optional sign, then one or more
/// decimal digits whose value fits; `None` for any other text.
pub open spec fn parsed_i64(text: Seq<char>) -> Option<i64> {
    if text.len() == 0 {
        None
    } else {
        let negative = text[0] == '-';
        let digits = if negative || text[0] == '+' {
            text.subrange(1, text.len() as int)
        } else {
            text
        };
        let value = if negative {
            -digits_value(digits)
        } else {
            digits_value(digits)
        };
        if digits.len() == 0 || !all_digits(digits) || value < i64::MIN || value > i64::MAX {
            None
        } else {
            Some(value as i64)
        }
    }
}

fn value_of_digit(c: char) -> (value: Option<u8>)
    ensures
        value is Some <==> is_digit(c),
        value is Some ==> value->0 as int == digit_value(c),
{
    if c == '0' {
        Some(0)
    } else if c == '1' {
        Some(1)
    } else if c == '2' {
        Some(2)
    } else if c == '3' {
        Some(3)
    } else if c == '4' {
        Some(4)
    } else if c == '5' {
        Some(5)
    } else if c == '6' {
        Some(6)
    } else if c == '7' {
        Some(7)
    } else if c == '8' {
        Some(8)
    } else if c == '9' {
        Some(9)
    } else {
        None
    }
}

/// Reads a 64-bit integer from its decimal notation.
pub fn parse_i64(text: &Vec<char>) -> (value: Option<i64>)
    ensures
        value == parsed_i64(text@),
{
    if text.len() == 0 {
        return None;
    }
    let negative = text[0] == '-';
    let start: usize = if negative || text[0] == '+' {
        1
    } else {
        0
    };
    let ghost digits = text@.subrange(start as int, text.len() as int);
    assert(start == 0 ==> digits =~= text@);
    if start == text.len() {
        return None;
    }
    let limit: i128 = 0x8000_0000_0000_0000;
    let mut total: i128 = 0;
    let mut too_big = false;
    let mut i: usize = start;
    while i < text.len()
        invariant
            start <= i <= text.len(),
            text@.len() > 0,
            negative == (text@[0] == '-'),
            start == if negative || text@[0] == '+' {
                1int
            } else {
                0int
            },
            digits == text@.subrange(start as int, text.len() as int),
            start == 0 ==> digits == text@,
            limit == 0x8000_0000_0000_0000,
            all_digits(digits.subrange(0, i - start)),
            0 <= total <= limit,
            !too_big ==> total == digits_value(digits.subrange(0, i - start)),
            too_big ==> digits_value(digits.subrange(0, i - start)) > limit,
        decreases text.len() - i,
    {
        let ghost before = digits.subrange(0, i - start);
        let ghost after = digits.subrange(0, i - start + 1);
        proof {
            assert(after.drop_last() =~= before);
            assert(after.last() == text@[i as int]);
        }
        match value_of_digit(text[i]) {
            None => {
                assert(!is_digit(digits[i - start]));
                return None;
            },
            Some(digit) => {
                proof {
                    assert forall|j: int| 0 <= j < after.len() implies is_digit(
                        #[trigger] after[j],
                    ) by {
                        if j < before.len() {
                            assert(after[j] == before[j]);
                        }
                    }
                }
                if !too_big {
                    total = total * 10 + digit as i128;
                    if total > limit {
                        too_big = true;
                        total = limit;
                    }
                }
            },
        }
        i = i + 1;
    }
    assert(digits.subrange(0, i - start) =~= digits);
    if too_big {
        None
    } else if negative {
        Some((-total) as i64)
    } else if total == limit {
        None
    } else {
        Some(total as i64)
    }
}

/// A text with a comma after every character that has a multiple of three
/// characters to its right, as thousands are grouped.
pub open spec fn grouped(text: Seq<char>) -> Seq<char>
    decreases text.len(),
{
    if text.len() == 0 {
        Seq::empty()
    } else if text.len() > 1 && (text.len() - 1) % 3 == 0 {
        seq![text[0], ','] + grouped(text.drop_first())
    } else {
        seq![text[0]] + grouped(text.drop_first())
    }
}

/// Groups the digits of an integer in threes, with commas between the
/// groups.
pub fn group_thousands(digits: &str) -> (text: String)
    ensures
        text@ == grouped(digits@),
{
    let chars = chars_of(digits);
    let mut out = String::new();
    let mut i: usize = 0;
    assert(chars@.subrange(0, chars.len() as int) =~= chars@);
    assert(out@ + grouped(chars@) =~= grouped(chars@));
    while i < chars.len()
        invariant
            0 <= i <= chars.len(),
            chars@ == digits@,
            grouped(digits@) == out@ + grouped(chars@.subrange(i as int, chars.len() as int)),
        decreases chars.len() - i,
    {
        let ghost rest = chars@.subrange(i as int, chars.len() as int);
        proof {
            assert(rest.drop_first() =~= chars@.subrange(i + 1, chars.len() as int));
            assert(rest[0] == chars@[i as int]);
        }
        let ghost before = out@;
        out.push(chars[i]);
        let remaining: usize = chars.len() - i - 1;
        if remaining > 0 && remaining % 3 == 0 {
            out.push(',');
            assert(out@ =~= before + seq![rest[0], ',']);
        } else {
            assert(out@ =~= before + seq![rest[0]]);
        }
        i = i + 1;
        assert(grouped(digits@) =~= out@ + grouped(
            chars@.subrange(i as int, chars.len() as int),
        ));
    }
    assert(chars@.subrange(chars.len() as int, chars.len() as int).len() == 0);
    assert(out@ =~= grouped(digits@));
    out
}

} // verus!
