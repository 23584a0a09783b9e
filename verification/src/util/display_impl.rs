use vstd::prelude::*;

verus! {

/// `String::push`: the character is appended to the string.
#[verifier::external_body]
pub(crate) fn push_char(text: &mut String, c: char)
    ensures
        final(text)@ == old(text)@.push(c),
{
    text.push(c);
}

/// The upper-case hexadecimal digit of a number below sixteen.
pub open spec fn hex_digit_spec(n: u8) -> char {
    if n == 0 {
        '0'
    } else if n == 1 {
        '1'
    } else if n == 2 {
        '2'
    } else if n == 3 {
        '3'
    } else if n == 4 {
        '4'
    } else if n == 5 {
        '5'
    } else if n == 6 {
        '6'
    } else if n == 7 {
        '7'
    } else if n == 8 {
        '8'
    } else if n == 9 {
        '9'
    } else if n == 10 {
        'A'
    } else if n == 11 {
        'B'
    } else if n == 12 {
        'C'
    } else if n == 13 {
        'D'
    } else if n == 14 {
        'E'
    } else {
        'F'
    }
}

/// The text of a block of bytes: two upper-case hexadecimal digits for
/// each byte, with one space between bytes.
pub open spec fn hex_text(bytes: Seq<u8>) -> Seq<char>
    decreases bytes.len(),
{
    if bytes.len() == 0 {
        Seq::empty()
    } else if bytes.len() == 1 {
        seq![hex_digit_spec(bytes[0] / 16), hex_digit_spec(bytes[0] % 16)]
    } else {
        hex_text(bytes.drop_last()) + seq![
            ' ',
            hex_digit_spec(bytes.last() / 16),
            hex_digit_spec(bytes.last() % 16),
        ]
    }
}

/// Whether a byte, read as a character, is white space.
pub open spec fn is_space(byte: u8) -> bool {
    (9 <= byte <= 13) || byte == 32 || byte == 0x85 || byte == 0xA0
}

/// The index of the first byte that is not white space; the length if
/// there is none.
pub open spec fn text_start(bytes: Seq<u8>) -> int
    decreases bytes.len(),
{
    if bytes.len() == 0 || !is_space(bytes[0]) {
        0
    } else {
        1 + text_start(bytes.drop_first())
    }
}

/// The index after the last byte that is not white space; zero if there
/// is none.
pub open spec fn text_end(bytes: Seq<u8>) -> int
    decreases bytes.len(),
{
    if bytes.len() == 0 || !is_space(bytes.last()) {
        bytes.len() as int
    } else {
        text_end(bytes.drop_last())
    }
}

/// The characters of a block of bytes, one for each byte, without the
/// white space at either end.
pub open spec fn char_text(bytes: Seq<u8>) -> Seq<char> {
    if text_start(bytes) >= text_end(bytes) {
        Seq::empty()
    } else {
        Seq::new(
            (text_end(bytes) - text_start(bytes)) as nat,
            |i: int| bytes[text_start(bytes) + i] as char,
        )
    }
}

pub fn hex_digit(n: u8) -> (c: char)
    requires
        n < 16,
    ensures
        c == hex_digit_spec(n),
{
    match n {
        0 => '0',
        1 => '1',
        2 => '2',
        3 => '3',
        4 => '4',
        5 => '5',
        6 => '6',
        7 => '7',
        8 => '8',
        9 => '9',
        10 => 'A',
        11 => 'B',
        12 => 'C',
        13 => 'D',
        14 => 'E',
        _ => 'F',
    }
}

/// The two upper-case hexadecimal digits of a byte.
pub open spec fn hex_byte(byte: u8) -> Seq<char> {
    seq![hex_digit_spec(byte / 16), hex_digit_spec(byte % 16)]
}

/// The four upper-case hexadecimal digits of a word.
pub open spec fn hex_word(word: u16) -> Seq<char> {
    hex_byte((word / 256) as u8) + hex_byte((word % 256) as u8)
}

/// Appends the two hexadecimal digits of a byte to a text.
pub fn push_hex_byte(text: &mut String, byte: u8)
    ensures
        final(text)@ == old(text)@ + hex_byte(byte),
{
    push_char(text, hex_digit(byte / 16));
    push_char(text, hex_digit(byte % 16));
    assert(text@ =~= old(text)@ + hex_byte(byte));
}

/// Appends the four hexadecimal digits of a word to a text.
pub fn push_hex_word(text: &mut String, word: u16)
    ensures
        final(text)@ == old(text)@ + hex_word(word),
{
    push_hex_byte(text, (word / 256) as u8);
    push_hex_byte(text, (word % 256) as u8);
    assert(text@ =~= old(text)@ + hex_word(word));
}

pub fn u8_array_to_string(arr: &[u8]) -> (text: String)
    ensures
        text@ == hex_text(arr@),
{
    let mut hex_string = String::new();
    let mut i: usize = 0;
    while i < arr.len()
        invariant
            i <= arr@.len(),
            hex_string@ == hex_text(arr@.take(i as int)),
        decreases arr@.len() - i,
    {
        if i > 0 {
            push_char(&mut hex_string, ' ');
        }
        push_char(&mut hex_string, hex_digit(arr[i] / 16));
        push_char(&mut hex_string, hex_digit(arr[i] % 16));
        proof {
            let next = arr@.take(i + 1);
            assert(next.drop_last() =~= arr@.take(i as int));
            assert(next.last() == arr@[i as int]);
            if i == 0 {
                assert(hex_string@ =~= hex_text(next));
            } else {
                assert(hex_string@ =~= hex_text(next));
            }
        }
        i += 1;
    }
    assert(arr@.take(arr@.len() as int) =~= arr@);
    hex_string
}

fn first_text_index(arr: &[u8]) -> (start: usize)
    ensures
        start == text_start(arr@),
        start <= arr@.len(),
{
    let mut start: usize = 0;
    assert(arr@.skip(0) =~= arr@);
    while start < arr.len() && is_space_byte(arr[start])
        invariant
            start <= arr@.len(),
            text_start(arr@) == start + text_start(arr@.skip(start as int)),
        decreases arr@.len() - start,
    {
        proof {
            let rest = arr@.skip(start as int);
            assert(rest[0] == arr@[start as int]);
            assert(rest.drop_first() =~= arr@.skip(start + 1));
        }
        start += 1;
    }
    proof {
        let rest = arr@.skip(start as int);
        if start < arr@.len() {
            assert(rest[0] == arr@[start as int]);
        }
    }
    start
}

fn last_text_index(arr: &[u8]) -> (end: usize)
    ensures
        end == text_end(arr@),
        end <= arr@.len(),
{
    let mut end: usize = arr.len();
    assert(arr@.take(end as int) =~= arr@);
    while end > 0 && is_space_byte(arr[end - 1])
        invariant
            end <= arr@.len(),
            text_end(arr@) == text_end(arr@.take(end as int)),
        decreases end,
    {
        proof {
            let front = arr@.take(end as int);
            assert(front.last() == arr@[end - 1]);
            assert(front.drop_last() =~= arr@.take(end - 1));
        }
        end -= 1;
    }
    proof {
        let front = arr@.take(end as int);
        if end > 0 {
            assert(front.last() == arr@[end - 1]);
        }
    }
    end
}

fn is_space_byte(byte: u8) -> (space: bool)
    ensures
        space == is_space(byte),
{
    (9 <= byte && byte <= 13) || byte == 32 || byte == 0x85 || byte == 0xA0
}

pub fn u8_array_to_individual_char(arr: &[u8]) -> (text: String)
    ensures
        text@ == char_text(arr@),
{
    let start = first_text_index(arr);
    let end = last_text_index(arr);
    let mut chars = String::new();
    if start >= end {
        return chars;
    }
    let mut i: usize = start;
    while i < end
        invariant
            start <= i <= end,
            end <= arr@.len(),
            chars@.len() == i - start,
            forall|j: int| 0 <= j < i - start ==> chars@[j] == arr@[start + j] as char,
        decreases end - i,
    {
        push_char(&mut chars, arr[i] as char);
        i += 1;
    }
    assert(chars@ =~= char_text(arr@));
    chars
}

} // verus!
