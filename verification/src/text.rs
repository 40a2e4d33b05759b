use vstd::prelude::*;

verus! {

/// The character that stands for a digit.
pub open spec fn spec_digit(digit: int) -> char {
    if digit == 0 {
        '0'
    } else if digit == 1 {
        '1'
    } else if digit == 2 {
        '2'
    } else if digit == 3 {
        '3'
    } else if digit == 4 {
        '4'
    } else if digit == 5 {
        '5'
    } else if digit == 6 {
        '6'
    } else if digit == 7 {
        '7'
    } else if digit == 8 {
        '8'
    } else {
        '9'
    }
}

/// The decimal digits of a natural number, without leading zeros.
pub open spec fn spec_digits(number: nat) -> Seq<char>
    decreases number,
{
    if number < 10 {
        seq![spec_digit(number as int)]
    } else {
        spec_digits(number / 10).push(spec_digit((number % 10) as int))
    }
}

/// The decimal form of an integer: its digits, after a minus sign where it
/// is negative.
pub open spec fn spec_decimal(number: int) -> Seq<char> {
    if number < 0 {
        seq!['-'] + spec_digits((-number) as nat)
    } else {
        spec_digits(number as nat)
    }
}

/// The numbers in decimal form, with `", "` between each two.
pub open spec fn spec_join_numbers(numbers: Seq<i32>) -> Seq<char>
    decreases numbers.len(),
{
    if numbers.len() == 0 {
        Seq::empty()
    } else if numbers.len() == 1 {
        spec_decimal(numbers[0] as int)
    } else {
        spec_join_numbers(numbers.drop_last()) + ", "@ + spec_decimal(numbers.last() as int)
    }
}

/// Whether a character is white space, as `char::is_whitespace` tells and as
/// `str::trim` reads it: whether it has the Unicode property `White_Space`.
pub uninterp spec fn spec_is_white_space(c: char) -> bool;

/// How many characters of white space a text begins with.
pub open spec fn spec_leading_white(text: Seq<char>) -> nat
    decreases text.len(),
{
    if text.len() > 0 && spec_is_white_space(text.first()) {
        1 + spec_leading_white(text.drop_first())
    } else {
        0
    }
}

/// How many characters of white space a text ends with.
pub open spec fn spec_trailing_white(text: Seq<char>) -> nat
    decreases text.len(),
{
    if text.len() > 0 && spec_is_white_space(text.last()) {
        1 + spec_trailing_white(text.drop_last())
    } else {
        0
    }
}

/// A text without the white space at its two ends: first the white space it
/// begins with is cut, then the white space that what is left ends with.
pub open spec fn spec_trimmed(text: Seq<char>) -> Seq<char> {
    let rest = text.skip(spec_leading_white(text) as int);
    rest.take(rest.len() - spec_trailing_white(rest))
}

/// Calls `str::trim` of the standard library and copies the slice it
/// returns.
///
/// Trusted: the result is the text without its leading and its trailing
/// white space, where white space is what `char::is_whitespace` tells. Which
/// characters that are is left to the name.
#[verifier::external_body]
pub(crate) fn trim_text(text: &str) -> (trimmed: String)
    ensures
        trimmed@ == spec_trimmed(text@),
        trimmed@.len() > 0 ==> !spec_is_white_space(trimmed@.first()) && !spec_is_white_space(
            trimmed@.last(),
        ),
{
    String::from(text.trim())
}

/// A text without the white space at its two ends.
pub fn trimmed(text: &String) -> (trimmed: String)
    ensures
        trimmed@ == spec_trimmed(text@),
{
    trim_text(text.as_str())
}

/// The white space that a text begins with is white space, is followed by
/// something else or by nothing, and is no longer than the text.
pub proof fn lemma_leading_white(text: Seq<char>)
    ensures
        spec_leading_white(text) <= text.len(),
        forall|i: int| 0 <= i < spec_leading_white(text) ==> spec_is_white_space(#[trigger] text[i]),
        spec_leading_white(text) < text.len() ==> !spec_is_white_space(
            text[spec_leading_white(text) as int],
        ),
    decreases text.len(),
{
    if text.len() > 0 && spec_is_white_space(text.first()) {
        let rest = text.drop_first();
        lemma_leading_white(rest);
        assert forall|i: int| 0 <= i < spec_leading_white(text) implies spec_is_white_space(
            #[trigger] text[i],
        ) by {
            if i > 0 {
                assert(text[i] == rest[i - 1]);
            }
        }
        if spec_leading_white(text) < text.len() {
            assert(text[spec_leading_white(text) as int] == rest[spec_leading_white(rest) as int]);
        }
    }
}

/// The white space that a text ends with is white space, is preceded by
/// something else or by nothing, and is no longer than the text.
pub proof fn lemma_trailing_white(text: Seq<char>)
    ensures
        spec_trailing_white(text) <= text.len(),
        forall|i: int|
            text.len() - spec_trailing_white(text) <= i < text.len() ==> spec_is_white_space(
                #[trigger] text[i],
            ),
        spec_trailing_white(text) < text.len() ==> !spec_is_white_space(
            text[text.len() - spec_trailing_white(text) - 1],
        ),
    decreases text.len(),
{
    if text.len() > 0 && spec_is_white_space(text.last()) {
        let rest = text.drop_last();
        lemma_trailing_white(rest);
        assert forall|i: int|
            text.len() - spec_trailing_white(text) <= i < text.len() implies spec_is_white_space(
            #[trigger] text[i],
        ) by {
            if i < text.len() - 1 {
                assert(text[i] == rest[i]);
            }
        }
        if spec_trailing_white(text) < text.len() {
            assert(text[text.len() - spec_trailing_white(text) - 1] == rest[rest.len()
                - spec_trailing_white(rest) - 1]);
        }
    }
}

/// What trimming gives is a part of the text in one piece; what is cut
/// before and after it is white space only; and what is left neither begins
/// nor ends with white space.
pub proof fn lemma_trimmed(text: Seq<char>)
    ensures
        ({
            let start = spec_leading_white(text) as int;
            let end = start + spec_trimmed(text).len();
            &&& 0 <= start <= end <= text.len()
            &&& spec_trimmed(text) == text.subrange(start, end)
            &&& forall|i: int| 0 <= i < start ==> spec_is_white_space(#[trigger] text[i])
            &&& forall|i: int| end <= i < text.len() ==> spec_is_white_space(#[trigger] text[i])
            &&& spec_trimmed(text).len() > 0 ==> !spec_is_white_space(spec_trimmed(text).first())
                && !spec_is_white_space(spec_trimmed(text).last())
        }),
{
    let start = spec_leading_white(text) as int;
    lemma_leading_white(text);
    let rest = text.skip(start);
    lemma_trailing_white(rest);
    let kept = spec_trimmed(text);
    let end = start + kept.len();
    assert(kept =~= text.subrange(start, end));
    assert forall|i: int| end <= i < text.len() implies spec_is_white_space(#[trigger] text[i]) by {
        assert(text[i] == rest[i - start]);
    }
    if kept.len() > 0 {
        assert(kept.first() == text[start]);
        assert(kept.last() == rest[rest.len() - spec_trailing_white(rest) - 1]);
        if spec_trailing_white(rest) == rest.len() {
            assert(kept.len() == 0);
        }
    }
}

/// A text that neither begins nor ends with white space is left as it is.
pub proof fn lemma_trimmed_of_clean(text: Seq<char>)
    requires
        text.len() > 0 ==> !spec_is_white_space(text.first()) && !spec_is_white_space(text.last()),
    ensures
        spec_trimmed(text) == text,
{
    if text.len() > 0 {
        assert(spec_leading_white(text) == 0);
        assert(text.skip(0) =~= text);
        assert(spec_trailing_white(text) == 0);
        assert(text.take(text.len() as int) =~= text);
    } else {
        assert(spec_trimmed(text) =~= text);
    }
}

fn digit_text(digit: u64) -> (text: &'static str)
    requires
        digit < 10,
    ensures
        text@ == seq![spec_digit(digit as int)],
{
    proof {
        reveal_strlit("0");
        reveal_strlit("1");
        reveal_strlit("2");
        reveal_strlit("3");
        reveal_strlit("4");
        reveal_strlit("5");
        reveal_strlit("6");
        reveal_strlit("7");
        reveal_strlit("8");
        reveal_strlit("9");
    }
    let text = if digit == 0 {
        "0"
    } else if digit == 1 {
        "1"
    } else if digit == 2 {
        "2"
    } else if digit == 3 {
        "3"
    } else if digit == 4 {
        "4"
    } else if digit == 5 {
        "5"
    } else if digit == 6 {
        "6"
    } else if digit == 7 {
        "7"
    } else if digit == 8 {
        "8"
    } else {
        "9"
    };
    assert(text@ =~= seq![spec_digit(digit as int)]);
    text
}

/// Writes the decimal digits of a natural number.
pub fn digits(number: u64) -> (text: String)
    ensures
        text@ == spec_digits(number as nat),
    decreases number,
{
    if number < 10 {
        String::from_str(digit_text(number))
    } else {
        let mut text = digits(number / 10);
        text.append(digit_text(number % 10));
        text
    }
}

/// Writes an integer in decimal form.
pub fn decimal(number: i32) -> (text: String)
    ensures
        text@ == spec_decimal(number as int),
{
    let wide: i64 = number as i64;
    if wide < 0 {
        proof {
            reveal_strlit("-");
        }
        let mut text = String::from_str("-");
        let magnitude: u64 = (0 - wide) as u64;
        let tail = digits(magnitude);
        text.append(tail.as_str());
        assert(text@ =~= spec_decimal(number as int));
        text
    } else {
        digits(wide as u64)
    }
}

/// Writes the numbers in decimal form, with `", "` between each two.
pub fn join_numbers(numbers: &Vec<i32>) -> (text: String)
    ensures
        text@ == spec_join_numbers(numbers@),
{
    let mut text = String::new();
    let mut i: usize = 0;
    while i < numbers.len()
        invariant
            i <= numbers.len(),
            text@ == spec_join_numbers(numbers@.take(i as int)),
        decreases numbers.len() - i,
    {
        proof {
            let grown = numbers@.take(i as int + 1);
            assert(grown.drop_last() =~= numbers@.take(i as int));
            assert(grown.last() == numbers@[i as int]);
            if i == 0 {
                assert(grown[0] == numbers@[0]);
                assert(spec_join_numbers(numbers@.take(0)) =~= Seq::<char>::empty());
            }
        }
        let ghost before = text@;
        if i > 0 {
            text.append(", ");
        }
        let number = decimal(numbers[i]);
        text.append(number.as_str());
        proof {
            if i == 0 {
                assert(text@ =~= spec_decimal(numbers@[0] as int));
            } else {
                assert(text@ =~= before + ", "@ + spec_decimal(numbers@[i as int] as int));
            }
        }
        i += 1;
    }
    proof {
        assert(numbers@.take(numbers.len() as int) =~= numbers@);
    }
    text
}

} // verus!
