//! Decimal text for the numbers that the player shows.

use vstd::prelude::*;

verus! {

/// The character of the decimal digit `d`.
pub open spec fn digit_char(d: int) -> char {
    if d == 0 {
        '0'
    } else if d == 1 {
        '1'
    } else if d == 2 {
        '2'
    } else if d == 3 {
        '3'
    } else if d == 4 {
        '4'
    } else if d == 5 {
        '5'
    } else if d == 6 {
        '6'
    } else if d == 7 {
        '7'
    } else if d == 8 {
        '8'
    } else {
        '9'
    }
}

/// `n` in decimal, without leading zeros.
pub open spec fn decimal(n: nat) -> Seq<char>
    decreases n,
{
    if n < 10 {
        seq![digit_char(n as int)]
    } else {
        decimal(n / 10).push(digit_char((n % 10) as int))
    }
}

/// `n` in decimal, with a leading zero where it has a single digit.
pub open spec fn two_digits(n: nat) -> Seq<char> {
    if n < 10 {
        seq!['0'] + decimal(n)
    } else {
        decimal(n)
    }
}

/// Minutes and seconds of a span of `seconds`, both at least two digits wide.
pub open spec fn padded_clock_text(seconds: nat) -> Seq<char> {
    two_digits(seconds / 60) + seq![':'] + two_digits(seconds % 60)
}

/// Minutes and seconds of a span of `seconds`; only the seconds are padded.
pub open spec fn clock_text(seconds: nat) -> Seq<char> {
    decimal(seconds / 60) + seq![':'] + two_digits(seconds % 60)
}

fn digit_text(d: u64) -> (text: &'static str)
    requires
        d < 10,
    ensures
        text@ == seq![digit_char(d as int)],
{
    proof {
        reveal_strlit("0");
        reveal_strlit("1");
        reveal_strlit("2");
        reveal_strlit("3");
        reveal_strlit("4");
        reveal_strlit("5");
        reveal_strlit("6");
        reveal_strlit("7");
        reveal_strlit("8");
        reveal_strlit("9");
    }
    let text = if d == 0 {
        "0"
    } else if d == 1 {
        "1"
    } else if d == 2 {
        "2"
    } else if d == 3 {
        "3"
    } else if d == 4 {
        "4"
    } else if d == 5 {
        "5"
    } else if d == 6 {
        "6"
    } else if d == 7 {
        "7"
    } else if d == 8 {
        "8"
    } else {
        "9"
    };
    assert(text@ =~= seq![digit_char(d as int)]);
    text
}

/// Appends `n` in decimal to `out`.
pub fn push_decimal(out: &mut String, n: u64)
    ensures
        final(out)@ == old(out)@ + decimal(n as nat),
    decreases n,
{
    if n >= 10 {
        push_decimal(out, n / 10);
    }
    out.append(digit_text(n % 10));
    assert(out@ =~= old(out)@ + decimal(n as nat));
}

/// Appends `n` in decimal to `out`, at least two digits wide.
pub fn push_two_digits(out: &mut String, n: u64)
    ensures
        final(out)@ == old(out)@ + two_digits(n as nat),
{
    if n < 10 {
        out.append(digit_text(0));
    }
    push_decimal(out, n);
    assert(out@ =~= old(out)@ + two_digits(n as nat));
}

/// Formats a span of whole seconds as minutes and seconds, `MM:SS`.
pub fn seconds_to_formatted_time(seconds: usize) -> (text: String)
    ensures
        text@ == padded_clock_text(seconds as nat),
{
    let total: u64 = seconds as u64;
    let mut text = String::new();
    push_two_digits(&mut text, total / 60);
    proof {
        reveal_strlit(":");
    }
    text.append(":");
    push_two_digits(&mut text, total % 60);
    assert(text@ =~= padded_clock_text(seconds as nat));
    text
}


/// Index of the first line feed in `text`, or its length where it has none.
pub open spec fn line_end(text: Seq<char>) -> int
    decreases text.len(),
{
    if text.len() == 0 || text[0] == '\n' {
        0
    } else {
        1 + line_end(text.drop_first())
    }
}

/// The first line of `text`, without its line ending: a line feed, or a
/// carriage return and a line feed. A text without any character has no line.
pub open spec fn first_line_of(text: Seq<char>) -> Option<Seq<char>> {
    let end = line_end(text);
    if text.len() == 0 {
        None
    } else if 0 < end < text.len() && text[end - 1] == '\r' {
        Some(text.take(end - 1))
    } else {
        Some(text.take(end))
    }
}

/// `text` without its first and its last character.
pub open spec fn without_ends(text: Seq<char>) -> Seq<char> {
    text.subrange(1, text.len() - 1)
}

/// The line feed that ends the first line is the first one in the text.
pub proof fn lemma_line_end(text: Seq<char>)
    ensures
        0 <= line_end(text) <= text.len(),
        forall|i: int| 0 <= i < line_end(text) ==> text[i] != '\n',
        line_end(text) < text.len() ==> text[line_end(text)] == '\n',
    decreases text.len(),
{
    if text.len() == 0 || text[0] == '\n' {
    } else {
        let rest = text.drop_first();
        lemma_line_end(rest);
        assert forall|i: int| 0 <= i < line_end(text) implies text[i] != '\n' by {
            if i > 0 {
                assert(text[i] == rest[i - 1]);
            }
        }
        if line_end(text) < text.len() {
            assert(text[line_end(text)] == rest[line_end(rest)]);
        }
    }
}

/// Where no character before `end` is a line feed and the text ends there
/// or has a line feed there, `end` is the end of the first line.
proof fn lemma_line_end_found(text: Seq<char>, end: int)
    requires
        0 <= end <= text.len(),
        forall|i: int| 0 <= i < end ==> text[i] != '\n',
        end < text.len() ==> text[end] == '\n',
    ensures
        line_end(text) == end,
{
    lemma_line_end(text);
}

/// The first line of `text`; `None` where the text is empty.
pub fn first_line(text: &str) -> (line: Option<String>)
    ensures
        line is Some <==> text@.len() > 0,
        match (line, first_line_of(text@)) {
            (Some(found), Some(expected)) => found@ == expected,
            (None, None) => true,
            _ => false,
        },
{
    let len = text.unicode_len();
    if len == 0 {
        return None;
    }
    let mut end: usize = 0;
    let mut after_return = false;
    while end < len
        invariant
            end <= len,
            len == text@.len(),
            forall|i: int| 0 <= i < end ==> text@[i] != '\n',
            after_return == (end > 0 && text@[end - 1] == '\r'),
        ensures
            end < len ==> text@[end as int] == '\n',
        decreases len - end,
    {
        let c = text.get_char(end);
        if c == '\n' {
            break ;
        }
        after_return = c == '\r';
        end += 1;
    }
    proof {
        lemma_line_end_found(text@, end as int);
    }
    let stop: usize = if after_return && end < len {
        end - 1
    } else {
        end
    };
    let line = String::from_str(text.substring_char(0, stop));
    assert(line@ =~= text@.take(stop as int));
    Some(line)
}

/// `text` without its first and its last character: for a JSON string as it
/// is rendered, the string between its quotes.
pub fn unquoted(text: &str) -> (inner: Option<String>)
    ensures
        inner is Some <==> text@.len() >= 2,
        inner matches Some(found) ==> found@ == without_ends(text@),
{
    let len = text.unicode_len();
    if len < 2 {
        None
    } else {
        Some(String::from_str(text.substring_char(1, len - 1)))
    }
}

} // verus!
