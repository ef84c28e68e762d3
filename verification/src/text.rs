//! Text building and comparison.

use vstd::prelude::*;

verus! {

/// The view of an optional string.
pub open spec fn text_of(text: Option<String>) -> Option<Seq<char>> {
    match text {
        Some(value) => Some(value@),
        None => None,
    }
}

/// The decimal digit of a number below ten.
pub open spec fn digit_text(digit: nat) -> Seq<char> {
    if digit == 0 {
        "0"@
    } else if digit == 1 {
        "1"@
    } else if digit == 2 {
        "2"@
    } else if digit == 3 {
        "3"@
    } else if digit == 4 {
        "4"@
    } else if digit == 5 {
        "5"@
    } else if digit == 6 {
        "6"@
    } else if digit == 7 {
        "7"@
    } else if digit == 8 {
        "8"@
    } else {
        "9"@
    }
}

/// A number in decimal, without leading zeros.
pub open spec fn decimal_text(number: nat) -> Seq<char>
    decreases number,
{
    if number < 10 {
        digit_text(number)
    } else {
        decimal_text(number / 10) + digit_text(number % 10)
    }
}

/// Writes a number in decimal.
pub fn decimal(number: usize) -> (text: String)
    ensures
        text@ == decimal_text(number as nat),
    decreases number,
{
    let digit: &str = match number % 10 {
        0 => "0",
        1 => "1",
        2 => "2",
        3 => "3",
        4 => "4",
        5 => "5",
        6 => "6",
        7 => "7",
        8 => "8",
        _ => "9",
    };
    if number < 10 {
        digit.to_string()
    } else {
        decimal(number / 10).concat(digit)
    }
}

/// What a speaker said, with the speaker's name in brackets before it.
pub open spec fn attributed_text(speaker: Seq<char>, content: Seq<char>) -> Seq<char> {
    "["@ + speaker + "] "@ + content
}

/// Puts a speaker's name in brackets before what was said.
pub fn attributed(speaker: &str, content: &str) -> (text: String)
    ensures
        text@ == attributed_text(speaker@, content@),
{
    "[".to_string().concat(speaker).concat("] ").concat(content)
}

/// The code of a character, with the letters `A` to `Z` taken as `a` to `z`.
pub open spec fn ascii_folded(c: char) -> int {
    if 'A' as int <= c as int <= 'Z' as int {
        c as int + 32
    } else {
        c as int
    }
}

/// Whether two texts are the same up to the case of ASCII letters.
pub open spec fn same_ignoring_ascii_case(a: Seq<char>, b: Seq<char>) -> bool {
    &&& a.len() == b.len()
    &&& forall|i: int| 0 <= i < a.len() ==> ascii_folded(#[trigger] a[i]) == ascii_folded(b[i])
}

fn folded(c: char) -> (code: u32)
    ensures
        code == ascii_folded(c),
{
    let code: u32 = c as u32;
    if 'A' as u32 <= code && code <= 'Z' as u32 {
        code + 32
    } else {
        code
    }
}

/// The characters of a text.
pub fn characters(text: &str) -> (chars: Vec<char>)
    ensures
        chars@ == text@,
{
    let mut chars: Vec<char> = Vec::new();
    for c in it: text.chars()
        invariant
            chars@ == it.seq().take(it.index()),
            it.seq() == text@,
    {
        chars.push(c);
    }
    chars
}

/// Compares two texts up to the case of ASCII letters.
pub fn eq_ignore_ascii_case(a: &str, b: &str) -> (same: bool)
    ensures
        same == same_ignoring_ascii_case(a@, b@),
{
    let left = characters(a);
    let right = characters(b);
    if left.len() != right.len() {
        return false;
    }
    for i in 0..left.len()
        invariant
            left@ == a@,
            right@ == b@,
            left.len() == right.len(),
            forall|j: int| 0 <= j < i ==> ascii_folded(#[trigger] a@[j]) == ascii_folded(b@[j]),
    {
        if folded(left[i]) != folded(right[i]) {
            assert(ascii_folded(a@[i as int]) != ascii_folded(b@[i as int]));
            return false;
        }
    }
    true
}

/// The number that a text of decimal digits stands for.
pub open spec fn number_written(text: Seq<char>) -> int
    decreases text.len(),
{
    if text.len() == 0 {
        0
    } else {
        10 * number_written(text.drop_last()) + (text.last() as int - '0' as int)
    }
}

/// A number in decimal is made of digits only, starts with nought only if it is nought, and read
/// back gives the number.
pub proof fn law_decimal_text_reads_back(number: nat)
    ensures
        decimal_text(number).len() > 0,
        forall|i: int|
            0 <= i < decimal_text(number).len() ==> '0' as int <= #[trigger] decimal_text(
                number,
            )[i] as int <= '9' as int,
        number > 0 ==> decimal_text(number)[0] != '0',
        number_written(decimal_text(number)) == number,
        number < 10 ==> decimal_text(number).len() == 1 && decimal_text(number)[0] as int
            == '0' as int + number,
        number >= 10 ==> decimal_text(number) == decimal_text(number / 10) + decimal_text(
            number % 10,
        ),
    decreases number,
{
    reveal_strlit("0");
    reveal_strlit("1");
    reveal_strlit("2");
    reveal_strlit("3");
    reveal_strlit("4");
    reveal_strlit("5");
    reveal_strlit("6");
    reveal_strlit("7");
    reveal_strlit("8");
    reveal_strlit("9");
    let text = decimal_text(number);
    if number >= 10 {
        law_decimal_text_reads_back(number / 10);
        assert(text.drop_last() =~= decimal_text(number / 10));
    } else {
        assert(text.drop_last() =~= Seq::empty());
        assert(number_written(text.drop_last()) == 0);
    }
}

/// Attribution puts the whole name between brackets, a space, and the whole content after it.
pub proof fn law_attribution_keeps_name_and_content(speaker: Seq<char>, content: Seq<char>)
    ensures
        ({
            let text = attributed_text(speaker, content);
            let n = speaker.len() as int;
            &&& text.len() == n + 3 + content.len()
            &&& text[0] == '['
            &&& text.subrange(1, n + 1) == speaker
            &&& text[n + 1] == ']'
            &&& text[n + 2] == ' '
            &&& text.skip(n + 3) == content
        }),
{
    reveal_strlit("[");
    reveal_strlit("] ");
    let text = attributed_text(speaker, content);
    let n = speaker.len() as int;
    assert(text.subrange(1, n + 1) =~= speaker);
    assert(text.skip(n + 3) =~= content);
}

/// Texts are the same up to ASCII case exactly if they are as long as each other and differ at no
/// place but where one has a letter from `A` to `Z` and the other its lower-case form.
pub proof fn law_same_ignoring_case_means(a: Seq<char>, b: Seq<char>)
    ensures
        same_ignoring_ascii_case(a, b) <==> a.len() == b.len() && forall|i: int|
            #![trigger a[i]]
            #![trigger b[i]]
            0 <= i < a.len() ==> {
                ||| a[i] == b[i]
                ||| 'A' as int <= a[i] as int <= 'Z' as int && b[i] as int == a[i] as int + 32
                ||| 'A' as int <= b[i] as int <= 'Z' as int && a[i] as int == b[i] as int + 32
            },
{
    if same_ignoring_ascii_case(a, b) {
        assert forall|i: int|
            #![trigger a[i]]
            #![trigger b[i]]
            0 <= i < a.len() implies {
            ||| a[i] == b[i]
            ||| 'A' as int <= a[i] as int <= 'Z' as int && b[i] as int == a[i] as int + 32
            ||| 'A' as int <= b[i] as int <= 'Z' as int && a[i] as int == b[i] as int + 32
        } by {
            assert(ascii_folded(a[i]) == ascii_folded(b[i]));
        }
    }
}

} // verus!
