//! Decimal numbers, as the environment of a job writes them.
use crate::text::chars_of;
use vstd::prelude::*;

verus! {

/// Why a text is not a number.
#[derive(Debug, Clone, Copy, PartialEq, Eq, Structural)]
pub enum IntError {
    /// There is no character at all.
    Empty,
    /// A character that is not a digit, or a sign with nothing behind it.
    InvalidDigit,
    /// The number is larger than its type holds.
    PosOverflow,
    /// The number is smaller than its type holds.
    NegOverflow,
}

impl IntError {
    /// What went wrong, in words.
    pub open spec fn text(self) -> Seq<char> {
        match self {
            IntError::Empty => "cannot parse integer from empty string"@,
            IntError::InvalidDigit => "invalid digit found in string"@,
            IntError::PosOverflow => "number too large to fit in target type"@,
            IntError::NegOverflow => "number too small to fit in target type"@,
        }
    }

    /// What went wrong, in words.
    pub fn message(&self) -> (message: String)
        ensures
            message@ == self.text(),
    {
        match self {
            IntError::Empty => "cannot parse integer from empty string".to_owned(),
            IntError::InvalidDigit => "invalid digit found in string".to_owned(),
            IntError::PosOverflow => "number too large to fit in target type".to_owned(),
            IntError::NegOverflow => "number too small to fit in target type".to_owned(),
        }
    }
}

pub open spec fn is_digit(c: char) -> bool {
    '0' <= c <= '9'
}

pub open spec fn all_digits(s: Seq<char>) -> bool {
    forall|i: int| 0 <= i < s.len() ==> is_digit(#[trigger] s[i])
}

/// The number that a sequence of decimal digits writes.
pub open spec fn decimal(s: Seq<char>) -> int
    decreases s.len(),
{
    if s.len() == 0 {
        0
    } else {
        decimal(s.drop_last()) * 10 + (s.last() as int - '0' as int)
    }
}

/// Whether the digits at the start of `s` already write a number above `max`.
pub open spec fn overflows(s: Seq<char>, max: int) -> bool {
    exists|k: int|
        0 <= k <= s.len() && all_digits(s.take(k)) && decimal(#[trigger] s.take(k)) > max
}

/// What `s` writes where only digits up to `max` are allowed: of an overflow and
/// of a character that is not a digit, the one that comes first is the fault.
pub open spec fn magnitude(s: Seq<char>, max: int, overflow: IntError) -> Result<int, IntError> {
    if overflows(s, max) {
        Err(overflow)
    } else if !all_digits(s) {
        Err(IntError::InvalidDigit)
    } else {
        Ok(decimal(s))
    }
}

/// What `s` writes as an unsigned 64-bit number: digits, after an optional `+`.
pub open spec fn u64_in(s: Seq<char>) -> Result<int, IntError> {
    if s.len() == 0 {
        Err(IntError::Empty)
    } else if s == seq!['+'] {
        Err(IntError::InvalidDigit)
    } else if s[0] == '+' {
        magnitude(s.skip(1), u64::MAX as int, IntError::PosOverflow)
    } else {
        magnitude(s, u64::MAX as int, IntError::PosOverflow)
    }
}

/// What `s` writes as a signed 32-bit number: digits, after an optional `+` or `-`.
pub open spec fn i32_in(s: Seq<char>) -> Result<int, IntError> {
    if s.len() == 0 {
        Err(IntError::Empty)
    } else if s == seq!['+'] || s == seq!['-'] {
        Err(IntError::InvalidDigit)
    } else if s[0] == '+' {
        magnitude(s.skip(1), i32::MAX as int, IntError::PosOverflow)
    } else if s[0] == '-' {
        match magnitude(s.skip(1), -(i32::MIN as int), IntError::NegOverflow) {
            Ok(n) => Ok(-n),
            Err(e) => Err(e),
        }
    } else {
        magnitude(s, i32::MAX as int, IntError::PosOverflow)
    }
}

proof fn lemma_decimal_nonnegative(s: Seq<char>)
    requires
        all_digits(s),
    ensures
        0 <= decimal(s),
    decreases s.len(),
{
    if s.len() > 0 {
        assert(is_digit(s[s.len() - 1]));
        assert forall|i: int| 0 <= i < s.drop_last().len() implies is_digit(
            #[trigger] s.drop_last()[i],
        ) by {
            assert(is_digit(s[i]));
        }
        lemma_decimal_nonnegative(s.drop_last());
    }
}

/// A number only grows as digits are written behind it.
proof fn lemma_decimal_monotonic(s: Seq<char>, i: int, j: int)
    requires
        0 <= i <= j <= s.len(),
        all_digits(s.take(j)),
    ensures
        decimal(s.take(i)) <= decimal(s.take(j)),
    decreases j - i,
{
    if i < j {
        assert(s.take(j).drop_last() =~= s.take(j - 1));
        assert(is_digit(s.take(j)[j - 1]));
        assert forall|k: int| 0 <= k < j - 1 implies is_digit(#[trigger] s.take(j - 1)[k]) by {
            assert(is_digit(s.take(j)[k]));
        }
        lemma_decimal_nonnegative(s.take(j - 1));
        lemma_decimal_monotonic(s, i, j - 1);
    }
}

fn read_magnitude(chars: &Vec<char>, from: usize, max: u64, overflow: IntError) -> (read: Result<
    u64,
    IntError,
>)
    requires
        from <= chars.len(),
    ensures
        match read {
            Ok(n) => n <= max && magnitude(chars@.skip(from as int), max as int, overflow) == Ok::<
                int,
                IntError,
            >(n as int),
            Err(e) => magnitude(chars@.skip(from as int), max as int, overflow) == Err::<
                int,
                IntError,
            >(e),
        },
{
    let ghost s = chars@.skip(from as int);
    let mut value: u64 = 0;
    let mut at: usize = from;
    assert(s.take(0) =~= Seq::<char>::empty());
    while at < chars.len()
        invariant
            from <= at <= chars.len(),
            s == chars@.skip(from as int),
            all_digits(s.take(at - from)),
            value == decimal(s.take(at - from)),
            value <= max,
        decreases chars.len() - at,
    {
        let ghost k = at - from;
        let c: char = chars[at];
        assert(s[k] == c);
        if c < '0' || '9' < c {
            proof {
                assert forall|j: int|
                    0 <= j <= s.len() && all_digits(s.take(j)) implies decimal(
                    #[trigger] s.take(j),
                ) <= max by {
                    if j > k {
                        assert(is_digit(s.take(j)[k]));
                    }
                    assert forall|i: int| 0 <= i < k implies is_digit(#[trigger] s.take(k)[i]) by {}
                    lemma_decimal_monotonic(s, j, k);
                }
            }
            return Err(IntError::InvalidDigit);
        }
        let digit: u64 = c as u64 - '0' as u64;
        assert(s.take(k + 1).drop_last() =~= s.take(k));
        assert forall|i: int| 0 <= i < k + 1 implies is_digit(#[trigger] s.take(k + 1)[i]) by {
            if i < k {
                assert(is_digit(s.take(k)[i]));
            }
        }
        let next: u128 = value as u128 * 10 + digit as u128;
        assert(next == decimal(s.take(k + 1)));
        if next > max as u128 {
            return Err(overflow);
        }
        value = next as u64;
        at = at + 1;
    }
    assert(s.take(s.len() as int) =~= s);
    proof {
        assert forall|j: int| 0 <= j <= s.len() && all_digits(s.take(j)) implies decimal(
            #[trigger] s.take(j),
        ) <= max by {
            lemma_decimal_monotonic(s, j, s.len() as int);
        }
    }
    Ok(value)
}

/// Reads an unsigned 64-bit number.
pub fn parse_u64(text: &str) -> (parsed: Result<u64, IntError>)
    ensures
        match parsed {
            Ok(n) => u64_in(text@) == Ok::<int, IntError>(n as int),
            Err(e) => u64_in(text@) == Err::<int, IntError>(e),
        },
{
    let chars = chars_of(text);
    if chars.len() == 0 {
        return Err(IntError::Empty);
    }
    if chars[0] == '+' {
        if chars.len() == 1 {
            assert(text@ =~= seq!['+']);
            return Err(IntError::InvalidDigit);
        }
        read_magnitude(&chars, 1, u64::MAX, IntError::PosOverflow)
    } else {
        assert(chars@.skip(0) =~= chars@);
        read_magnitude(&chars, 0, u64::MAX, IntError::PosOverflow)
    }
}

/// Reads a signed 32-bit number.
pub fn parse_i32(text: &str) -> (parsed: Result<i32, IntError>)
    ensures
        match parsed {
            Ok(n) => i32_in(text@) == Ok::<int, IntError>(n as int),
            Err(e) => i32_in(text@) == Err::<int, IntError>(e),
        },
{
    let chars = chars_of(text);
    if chars.len() == 0 {
        return Err(IntError::Empty);
    }
    let first: char = chars[0];
    if chars.len() == 1 && (first == '+' || first == '-') {
        assert(text@ =~= seq![first]);
        return Err(IntError::InvalidDigit);
    }
    if first == '-' {
        match read_magnitude(&chars, 1, 2147483648, IntError::NegOverflow) {
            Ok(n) => Ok((-(n as i64)) as i32),
            Err(e) => Err(e),
        }
    } else {
        let from: usize = if first == '+' { 1 } else { 0 };
        assert(chars@.skip(0) =~= chars@);
        match read_magnitude(&chars, from, 2147483647, IntError::PosOverflow) {
            Ok(n) => Ok(n as i32),
            Err(e) => Err(e),
        }
    }
}

/// What one more character does to a magnitude.
proof fn lemma_magnitude_push(s: Seq<char>, c: char, max: int, overflow: IntError)
    requires
        0 <= max,
    ensures
        magnitude(s.push(c), max, overflow) == (match magnitude(s, max, overflow) {
            Err(e) => Err::<int, IntError>(e),
            Ok(n) => if !is_digit(c) {
                Err(IntError::InvalidDigit)
            } else if n * 10 + (c as int - '0' as int) > max {
                Err(overflow)
            } else {
                Ok(n * 10 + (c as int - '0' as int))
            },
        }),
{
    let t = s.push(c);
    let len = s.len() as int;
    assert(t.drop_last() =~= s);
    assert(t.take(len + 1) =~= t);
    assert(s.take(len) =~= s);
    assert forall|k: int| 0 <= k <= len implies #[trigger] t.take(k) == s.take(k) by {
        assert(t.take(k) =~= s.take(k));
    }
    if overflows(s, max) {
        let k = choose|k: int|
            0 <= k <= s.len() && all_digits(s.take(k)) && decimal(#[trigger] s.take(k)) > max;
        assert(t.take(k) == s.take(k));
    } else {
        assert forall|k: int| 0 <= k <= len && all_digits(t.take(k)) implies decimal(
            #[trigger] t.take(k),
        ) <= max by {
            assert(t.take(k) == s.take(k));
        }
        if all_digits(t) {
            assert forall|i: int| 0 <= i < s.len() implies is_digit(#[trigger] s[i]) by {
                assert(is_digit(t[i]));
            }
        }
        if !is_digit(c) {
            assert(!is_digit(t[len]));
        } else if all_digits(s) {
            assert forall|i: int| 0 <= i < t.len() implies is_digit(#[trigger] t[i]) by {
                if i < s.len() {
                    assert(is_digit(s[i]));
                }
            }
            if decimal(t) > max {
                assert(all_digits(t.take(len + 1)) && decimal(t.take(len + 1)) > max);
            }
        }
    }
}

/// The magnitude of nothing is zero.
proof fn lemma_magnitude_empty(max: int, overflow: IntError)
    requires
        0 <= max,
    ensures
        magnitude(Seq::<char>::empty(), max, overflow) == Ok::<int, IntError>(0),
{
    let s = Seq::<char>::empty();
    assert forall|k: int| 0 <= k <= s.len() && all_digits(s.take(k)) implies decimal(
        #[trigger] s.take(k),
    ) <= max by {
        assert(s.take(k) =~= s);
    }
}

/// An unsigned number starts with a digit, or with a `+` and a digit: the first digit
/// is the number so far. Nothing, a sign alone and any other start are faults.
pub proof fn law_unsigned_number_starts_with_a_digit(c: char)
    ensures
        u64_in(Seq::<char>::empty()) == Err::<int, IntError>(IntError::Empty),
        '0' <= c <= '9' ==> u64_in(seq![c]) == Ok::<int, IntError>(c as int - '0' as int),
        !('0' <= c <= '9') ==> u64_in(seq![c]) == Err::<int, IntError>(IntError::InvalidDigit),
        '0' <= c <= '9' ==> u64_in(seq!['+', c]) == Ok::<int, IntError>(c as int - '0' as int),
        !('0' <= c <= '9') ==> u64_in(seq!['+', c]) == Err::<int, IntError>(
            IntError::InvalidDigit,
        ),
{
    let none = Seq::<char>::empty();
    lemma_magnitude_empty(u64::MAX as int, IntError::PosOverflow);
    lemma_magnitude_push(none, c, u64::MAX as int, IntError::PosOverflow);
    assert(none.push(c) =~= seq![c]);
    assert(seq!['+', c].skip(1) =~= seq![c]);
    assert(seq!['+', c].len() != seq!['+'].len());
    assert(seq![c][0] == c);
}

/// One more digit behind an unsigned number makes it ten times as large, plus that
/// digit, as long as that fits in 64 bits. Any other character is a fault, and a fault
/// stays the fault that it is, whatever follows.
pub proof fn law_unsigned_number_grows_by_a_digit(s: Seq<char>, c: char)
    requires
        s.len() > 0,
        s != seq!['+'],
    ensures
        u64_in(s) matches Err(e) ==> u64_in(s.push(c)) == Err::<int, IntError>(e),
        u64_in(s) matches Ok(n) ==> (if !('0' <= c <= '9') {
            u64_in(s.push(c)) == Err::<int, IntError>(IntError::InvalidDigit)
        } else if 10 * n + (c as int - '0' as int) > 0xffff_ffff_ffff_ffff {
            u64_in(s.push(c)) == Err::<int, IntError>(IntError::PosOverflow)
        } else {
            u64_in(s.push(c)) == Ok::<int, IntError>(10 * n + (c as int - '0' as int))
        }),
{
    assert(s.push(c).len() > 1);
    assert(s.push(c).len() != seq!['+'].len());
    assert(s.push(c)[0] == s[0]);
    if s[0] == '+' {
        assert(s.push(c).skip(1) =~= s.skip(1).push(c));
        lemma_magnitude_push(s.skip(1), c, u64::MAX as int, IntError::PosOverflow);
    } else {
        lemma_magnitude_push(s, c, u64::MAX as int, IntError::PosOverflow);
    }
}

/// A signed number starts with a digit, or with a sign and a digit: the first digit,
/// with the sign, is the number so far. Nothing, a sign alone and any other start are
/// faults.
pub proof fn law_signed_number_starts_with_a_digit(c: char)
    ensures
        i32_in(Seq::<char>::empty()) == Err::<int, IntError>(IntError::Empty),
        '0' <= c <= '9' ==> i32_in(seq![c]) == Ok::<int, IntError>(c as int - '0' as int),
        !('0' <= c <= '9') ==> i32_in(seq![c]) == Err::<int, IntError>(IntError::InvalidDigit),
        '0' <= c <= '9' ==> i32_in(seq!['+', c]) == Ok::<int, IntError>(c as int - '0' as int),
        !('0' <= c <= '9') ==> i32_in(seq!['+', c]) == Err::<int, IntError>(
            IntError::InvalidDigit,
        ),
        '0' <= c <= '9' ==> i32_in(seq!['-', c]) == Ok::<int, IntError>('0' as int - c as int),
        !('0' <= c <= '9') ==> i32_in(seq!['-', c]) == Err::<int, IntError>(
            IntError::InvalidDigit,
        ),
{
    let none = Seq::<char>::empty();
    lemma_magnitude_empty(i32::MAX as int, IntError::PosOverflow);
    lemma_magnitude_empty(-(i32::MIN as int), IntError::NegOverflow);
    lemma_magnitude_push(none, c, i32::MAX as int, IntError::PosOverflow);
    lemma_magnitude_push(none, c, -(i32::MIN as int), IntError::NegOverflow);
    assert(none.push(c) =~= seq![c]);
    assert(seq!['+', c].skip(1) =~= seq![c]);
    assert(seq!['-', c].skip(1) =~= seq![c]);
    assert(seq!['+', c].len() != seq!['+'].len());
    assert(seq!['-', c].len() != seq!['+'].len());
    assert(seq![c][0] == c);
    assert(seq!['+'][0] == '+' && seq!['-'][0] == '-');
}

/// One more digit behind a signed number makes it ten times as large and takes it
/// further from zero by that digit, as long as that fits in 32 bits. Any other
/// character is a fault, and a fault stays the fault that it is, whatever follows.
pub proof fn law_signed_number_grows_by_a_digit(s: Seq<char>, c: char)
    requires
        s.len() > 0,
        s != seq!['+'],
        s != seq!['-'],
    ensures
        i32_in(s) matches Err(e) ==> i32_in(s.push(c)) == Err::<int, IntError>(e),
        i32_in(s) matches Ok(n) ==> {
            let digit = c as int - '0' as int;
            if !('0' <= c <= '9') {
                i32_in(s.push(c)) == Err::<int, IntError>(IntError::InvalidDigit)
            } else if s[0] == '-' && 10 * n - digit < -0x8000_0000 {
                i32_in(s.push(c)) == Err::<int, IntError>(IntError::NegOverflow)
            } else if s[0] == '-' {
                i32_in(s.push(c)) == Ok::<int, IntError>(10 * n - digit)
            } else if 10 * n + digit > 0x7fff_ffff {
                i32_in(s.push(c)) == Err::<int, IntError>(IntError::PosOverflow)
            } else {
                i32_in(s.push(c)) == Ok::<int, IntError>(10 * n + digit)
            }
        },
{
    assert(s.push(c).len() > 1);
    assert(s.push(c).len() != seq!['+'].len());
    assert(s.push(c)[0] == s[0]);
    if s[0] == '+' {
        assert(s.push(c).skip(1) =~= s.skip(1).push(c));
        lemma_magnitude_push(s.skip(1), c, i32::MAX as int, IntError::PosOverflow);
    } else if s[0] == '-' {
        assert(s.push(c).skip(1) =~= s.skip(1).push(c));
        lemma_magnitude_push(s.skip(1), c, -(i32::MIN as int), IntError::NegOverflow);
    } else {
        lemma_magnitude_push(s, c, i32::MAX as int, IntError::PosOverflow);
    }
}

/// The faults of a number have words of their own.
pub proof fn law_faults_of_numbers_in_words(error: IntError)
    ensures
        error is Empty ==> error.text() == "cannot parse integer from empty string"@,
        error is InvalidDigit ==> error.text() == "invalid digit found in string"@,
        error is PosOverflow ==> error.text() == "number too large to fit in target type"@,
        error is NegOverflow ==> error.text() == "number too small to fit in target type"@,
{
}

} // verus!
