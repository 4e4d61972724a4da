//! Text helpers: comparison, prefixes, fixed-width cells and decimal numbers.

use vstd::prelude::*;
use vstd::string::*;
use vstd::utf8::*;

verus! {

/// Whether two strings hold the same characters.
pub fn same_text(a: &str, b: &str) -> (same: bool)
    ensures
        same == (a@ == b@),
{
    let x = a.as_bytes();
    let y = b.as_bytes();
    proof {
        encode_utf8_decode_utf8(a@);
        encode_utf8_decode_utf8(b@);
    }
    if x.len() != y.len() {
        return false;
    }
    let mut i: usize = 0;
    while i < x.len()
        invariant
            i <= x.len(),
            x.len() == y.len(),
            x@ == a.spec_bytes(),
            y@ == b.spec_bytes(),
            forall|k: int| 0 <= k < i ==> x@[k] == y@[k],
        decreases x.len() - i,
    {
        if x[i] != y[i] {
            return false;
        }
        i = i + 1;
    }
    assert(x@ =~= y@);
    true
}

/// The encoding of two texts, one behind the other, is the two encodings one
/// behind the other, and the second starts at a character boundary.
proof fn lemma_encoding_of_concatenation(first: Seq<char>, second: Seq<char>)
    ensures
        encode_utf8(first + second) == encode_utf8(first) + encode_utf8(second),
        is_char_boundary(encode_utf8(first + second), encode_utf8(first).len() as int),
    decreases first.len(),
{
    let whole = first + second;
    encode_utf8_valid_utf8(whole);
    if first.len() > 0 {
        assert(whole.drop_first() =~= first.drop_first() + second);
        lemma_encoding_of_concatenation(first.drop_first(), second);
        encode_utf8_first_scalar(whole);
        assert(pop_first_scalar(encode_utf8(whole)) =~= encode_utf8(whole.drop_first()));
    }
}

/// What follows `prefix` in `text`, where `text` starts with it; nothing
/// where it does not.
pub fn strip_prefix<'a>(text: &'a str, prefix: &str) -> (rest: Option<&'a str>)
    ensures
        match rest {
            Some(tail) => text@ == prefix@ + tail@,
            None => !prefix@.is_prefix_of(text@),
        },
{
    let whole = text.as_bytes();
    let start = prefix.as_bytes();
    proof {
        if prefix@.is_prefix_of(text@) {
            assert(text@ =~= prefix@ + text@.skip(prefix@.len() as int));
            lemma_encoding_of_concatenation(prefix@, text@.skip(prefix@.len() as int));
        }
        encode_utf8_valid_utf8(text@);
        encode_utf8_decode_utf8(text@);
        encode_utf8_decode_utf8(prefix@);
    }
    if start.len() > whole.len() {
        return None;
    }
    let mut i: usize = 0;
    while i < start.len()
        invariant
            i <= start.len() <= whole.len(),
            whole@ == text.spec_bytes(),
            start@ == prefix.spec_bytes(),
            prefix@.is_prefix_of(text@) ==> whole@ == start@ + encode_utf8(
                text@.skip(prefix@.len() as int),
            ),
            forall|k: int| 0 <= k < i ==> start@[k] == whole@[k],
        decreases start.len() - i,
    {
        if start[i] != whole[i] {
            return None;
        }
        i = i + 1;
    }
    if !text.is_char_boundary(start.len()) {
        return None;
    }
    let (head, tail) = text.split_at(start.len());
    proof {
        assert(head.spec_bytes() =~= start@);
        encode_utf8_decode_utf8(head@);
        encode_utf8_decode_utf8(tail@);
        decode_utf8_split(whole@, start.len() as int);
    }
    Some(tail)
}

/// `path` without the separators at its end.
pub open spec fn without_trailing_separators(path: Seq<char>) -> Seq<char>
    decreases path.len(),
{
    if path.len() > 0 && path.last() == '/' {
        without_trailing_separators(path.drop_last())
    } else {
        path
    }
}

/// One more separator at the end of a path changes nothing of what is left
/// when the separators at its end are taken off.
pub proof fn lemma_one_more_trailing_separator(path: Seq<char>)
    ensures
        without_trailing_separators(path.push('/')) == without_trailing_separators(path),
{
    assert(path.push('/').drop_last() =~= path);
}

/// Takes the separators off the end of `path`.
pub fn trim_trailing_separators<'a>(path: &'a str) -> (trimmed: &'a str)
    ensures
        trimmed@ == without_trailing_separators(path@),
{
    let mut end: usize = path.unicode_len();
    let mut trimming = true;
    assert(path@.subrange(0, end as int) =~= path@);
    while trimming && end > 0
        invariant
            end <= path@.len(),
            without_trailing_separators(path@) == without_trailing_separators(
                path@.subrange(0, end as int),
            ),
            !trimming ==> end > 0 && path@[end as int - 1] != '/',
        decreases end + if trimming { 1nat } else { 0nat },
    {
        if path.get_char(end - 1) == '/' {
            assert(path@.subrange(0, end as int).drop_last() =~= path@.subrange(
                0,
                end as int - 1,
            ));
            end = end - 1;
        } else {
            trimming = false;
        }
    }
    path.substring_char(0, end)
}

/// The character that writes the decimal digit `d`.
pub open spec fn digit_char(d: nat) -> char {
    if d == 0 {
        '0'
    } else if d == 1 {
        '1'
    } else if d == 2 {
        '2'
    } else if d == 3 {
        '3'
    } else if d == 4 {
        '4'
    } else if d == 5 {
        '5'
    } else if d == 6 {
        '6'
    } else if d == 7 {
        '7'
    } else if d == 8 {
        '8'
    } else {
        '9'
    }
}

/// The decimal digits of `n`, most significant first, without leading zeros.
pub open spec fn decimal(n: nat) -> Seq<char>
    decreases n,
{
    if n < 10 {
        seq![digit_char(n)]
    } else {
        decimal(n / 10).push(digit_char(n % 10))
    }
}

/// `count` copies of `fill`.
pub open spec fn repeated(fill: char, count: nat) -> Seq<char> {
    Seq::new(count, |i: int| fill)
}

/// `text` with `fill` put in front until it is `width` long; longer text is kept whole.
pub open spec fn padded_left(text: Seq<char>, fill: char, width: nat) -> Seq<char> {
    if text.len() >= width {
        text
    } else {
        repeated(fill, (width - text.len()) as nat) + text
    }
}

/// `text` with `fill` put behind until it is `width` long; longer text is kept whole.
pub open spec fn padded_right(text: Seq<char>, fill: char, width: nat) -> Seq<char> {
    if text.len() >= width {
        text
    } else {
        text + repeated(fill, (width - text.len()) as nat)
    }
}

fn digit_text(d: u8) -> (text: &'static str)
    requires
        d < 10,
    ensures
        text@ == seq![digit_char(d as nat)],
{
    proof {
        reveal_strlit("0");
        reveal_strlit("1");
        reveal_strlit("2");
        reveal_strlit("3");
        reveal_strlit("4");
        reveal_strlit("5");
        reveal_strlit("6");
        reveal_strlit("7");
        reveal_strlit("8");
        reveal_strlit("9");
    }
    let text = match d {
        0 => "0",
        1 => "1",
        2 => "2",
        3 => "3",
        4 => "4",
        5 => "5",
        6 => "6",
        7 => "7",
        8 => "8",
        _ => "9",
    };
    text
}

/// Writes `n` in decimal.
pub fn decimal_text(n: u128) -> (text: String)
    ensures
        text@ == decimal(n as nat),
    decreases n,
{
    if n < 10 {
        digit_text(n as u8).to_owned()
    } else {
        let mut text = decimal_text(n / 10);
        text.append(digit_text((n % 10) as u8));
        text
    }
}

/// `count` copies of the ASCII character that `unit` holds.
fn repeat_text(unit: &str, fill: char, count: usize) -> (text: String)
    requires
        unit@ == seq![fill],
    ensures
        text@ == repeated(fill, count as nat),
{
    let mut text = String::new();
    let mut i: usize = 0;
    while i < count
        invariant
            i <= count,
            unit@ == seq![fill],
            text@ == repeated(fill, i as nat),
        decreases count - i,
    {
        text.append(unit);
        i = i + 1;
    }
    text
}

/// `n` in decimal, with zeros in front up to `width` digits.
pub fn zero_padded(n: u128, width: usize) -> (text: String)
    ensures
        text@ == padded_left(decimal(n as nat), '0', width as nat),
{
    let digits = decimal_text(n);
    let len: usize = digits.as_str().unicode_len();
    if len >= width {
        digits
    } else {
        proof {
            reveal_strlit("0");
        }
        assert("0"@ =~= seq!['0']);
        let mut text = repeat_text("0", '0', width - len);
        text.append(digits.as_str());
        text
    }
}

/// `text` with spaces behind it up to `width` characters.
pub fn space_padded(text: &str, width: usize) -> (cell: String)
    ensures
        cell@ == padded_right(text@, ' ', width as nat),
{
    let len: usize = text.unicode_len();
    let mut cell = text.to_owned();
    if len < width {
        proof {
            reveal_strlit(" ");
        }
        assert(" "@ =~= seq![' ']);
        let spaces = repeat_text(" ", ' ', width - len);
        cell.append(spaces.as_str());
    }
    cell
}

} // verus!
