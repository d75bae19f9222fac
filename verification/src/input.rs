//! Reading a move as a player types it: a row and a column, separated by one
//! comma, each a decimal number with optional blanks around it.

use vstd::prelude::*;

verus! {

/// Why a typed move could not be read.
#[derive(Clone, Copy, Debug, PartialEq, Eq, Structural)]
pub enum InputError {
    /// The text does not consist of exactly two fields separated by a comma.
    MalformedInput,
    /// A field is not a decimal number that fits the machine's word.
    NotANumber,
}

impl InputError {
    /// What a player is told when a typed move cannot be read.
    pub open spec fn message_text(self) -> Seq<char> {
        match self {
            InputError::MalformedInput => "Invalid number of inputs"@,
            InputError::NotANumber => "Invalid number"@,
        }
    }

    /// What to tell the player whose typed move could not be read.
    pub fn message(self) -> (text: &'static str)
        ensures
            text@ == self.message_text(),
    {
        match self {
            InputError::MalformedInput => "Invalid number of inputs",
            InputError::NotANumber => "Invalid number",
        }
    }
}

/// Whether `c` is white space: the characters that Unicode gives the property
/// `White_Space`.
pub open spec fn is_space(c: char) -> bool {
    let code = c as u32;
    ||| 0x09 <= code <= 0x0d
    ||| code == 0x20
    ||| code == 0x85
    ||| code == 0xa0
    ||| code == 0x1680
    ||| 0x2000 <= code <= 0x200a
    ||| code == 0x2028
    ||| code == 0x2029
    ||| code == 0x202f
    ||| code == 0x205f
    ||| code == 0x3000
}

/// Whether `c` is one of the decimal digits `0` to `9`.
pub open spec fn is_digit(c: char) -> bool {
    0x30 <= c as u32 <= 0x39
}

/// The value of a decimal digit; 0 for any other character.
pub open spec fn digit_value(c: char) -> nat {
    if is_digit(c) {
        (c as u32 - 0x30) as nat
    } else {
        0
    }
}

/// `s` without the white space at its start.
pub open spec fn trim_start(s: Seq<char>) -> Seq<char>
    decreases s.len(),
{
    if s.len() > 0 && is_space(s[0]) {
        trim_start(s.drop_first())
    } else {
        s
    }
}

/// `s` without the white space at its end.
pub open spec fn trim_end(s: Seq<char>) -> Seq<char>
    decreases s.len(),
{
    if s.len() > 0 && is_space(s.last()) {
        trim_end(s.drop_last())
    } else {
        s
    }
}

/// `s` without the white space at either end.
pub open spec fn trimmed(s: Seq<char>) -> Seq<char> {
    trim_end(trim_start(s))
}

/// Whether `s` holds decimal digits only.
pub open spec fn all_digits(s: Seq<char>) -> bool {
    forall|i: int| 0 <= i < s.len() ==> is_digit(#[trigger] s[i])
}

/// The number that the digits of `s` write in base ten, the first digit
/// being the most significant.
pub open spec fn digits_value(s: Seq<char>) -> nat
    decreases s.len(),
{
    if s.len() == 0 {
        0
    } else {
        digits_value(s.drop_last()) * 10 + digit_value(s.last())
    }
}

/// `s` without a plus sign at its start.
pub open spec fn unsigned_part(s: Seq<char>) -> Seq<char> {
    if s.len() > 0 && s[0] == '+' {
        s.drop_first()
    } else {
        s
    }
}

/// The number that `s` writes: an optional plus sign, then one or more
/// decimal digits whose value fits the machine's word. Leading zeros count
/// for nothing. `None` for any other text.
pub open spec fn number(s: Seq<char>) -> Option<usize> {
    let digits = unsigned_part(s);
    if digits.len() > 0 && all_digits(digits) && digits_value(digits) <= usize::MAX {
        Some(digits_value(digits) as usize)
    } else {
        None
    }
}

/// Whether the only comma of `s` stands at index `at`.
pub open spec fn sole_comma(s: Seq<char>, at: int) -> bool {
    &&& 0 <= at < s.len()
    &&& s[at] == ','
    &&& forall|j: int| 0 <= j < s.len() && s[j] == ',' ==> j == at
}

/// What a typed move means. Text with no comma, or with more than one, is
/// malformed. Otherwise the text before the comma is the row and the text
/// after it the column, each trimmed of white space and read as a number;
/// if either is no number, that is the error.
pub open spec fn coordinates(s: Seq<char>) -> Result<(usize, usize), InputError> {
    if exists|at: int| sole_comma(s, at) {
        let at = choose|at: int| sole_comma(s, at);
        let row = number(trimmed(s.subrange(0, at)));
        let col = number(trimmed(s.subrange(at + 1, s.len() as int)));
        if row is Some && col is Some {
            Ok((row->0, col->0))
        } else {
            Err(InputError::NotANumber)
        }
    } else {
        Err(InputError::MalformedInput)
    }
}

/// A prefix of a digit string never writes a larger number than the whole.
proof fn lemma_prefix_value(s: Seq<char>, len: int)
    requires
        0 <= len <= s.len(),
    ensures
        digits_value(s.subrange(0, len)) <= digits_value(s),
    decreases s.len(),
{
    if len == s.len() {
        assert(s.subrange(0, len) =~= s);
    } else {
        assert(s.drop_last().subrange(0, len) =~= s.subrange(0, len));
        lemma_prefix_value(s.drop_last(), len);
    }
}

/// Tests a character for white space.
fn is_space_char(c: char) -> (space: bool)
    ensures
        space == is_space(c),
{
    let code: u32 = c as u32;
    (0x09 <= code && code <= 0x0d) || code == 0x20 || code == 0x85 || code == 0xa0 || code
        == 0x1680 || (0x2000 <= code && code <= 0x200a) || code == 0x2028 || code == 0x2029
        || code == 0x202f || code == 0x205f || code == 0x3000
}

/// The characters of `text`, in order.
fn chars_of(text: &str) -> (chars: Vec<char>)
    ensures
        chars@ == text@,
{
    let mut chars: Vec<char> = Vec::new();
    for c in iter: text.chars()
        invariant
            iter.seq() == text@,
            chars@ == text@.subrange(0, iter.index() as int),
    {
        chars.push(c);
        assert(chars@ =~= text@.subrange(0, iter.index() + 1));
    }
    assert(text@.subrange(0, text@.len() as int) =~= text@);
    chars
}

/// Reads the number that `chars[from..to]` writes once trimmed.
fn parse_field(chars: &Vec<char>, from: usize, to: usize) -> (value: Option<usize>)
    requires
        from <= to <= chars.len(),
    ensures
        value == number(trimmed(chars@.subrange(from as int, to as int))),
{
    let ghost field = chars@.subrange(from as int, to as int);
    let mut lo: usize = from;
    while lo < to && is_space_char(chars[lo])
        invariant
            from <= lo <= to <= chars.len(),
            trim_start(field) == trim_start(chars@.subrange(lo as int, to as int)),
        decreases to - lo,
    {
        assert(chars@.subrange(lo as int, to as int).drop_first() =~= chars@.subrange(
            lo + 1,
            to as int,
        ));
        lo += 1;
    }
    let ghost tail = chars@.subrange(lo as int, to as int);
    assert(trim_start(field) == tail);
    let mut hi: usize = to;
    while hi > lo && is_space_char(chars[hi - 1])
        invariant
            lo <= hi <= to <= chars.len(),
            trim_end(tail) == trim_end(chars@.subrange(lo as int, hi as int)),
        decreases hi - lo,
    {
        assert(chars@.subrange(lo as int, hi as int).drop_last() =~= chars@.subrange(
            lo as int,
            hi - 1,
        ));
        hi -= 1;
    }
    let ghost word = chars@.subrange(lo as int, hi as int);
    assert(trimmed(field) == word);
    let start: usize = if lo < hi && chars[lo] == '+' {
        lo + 1
    } else {
        lo
    };
    let ghost digits = chars@.subrange(start as int, hi as int);
    assert(unsigned_part(word) =~= digits);
    if start == hi {
        return None;
    }
    let mut value: usize = 0;
    let mut i: usize = start;
    while i < hi
        invariant
            start <= i <= hi <= chars.len(),
            from <= to <= chars.len(),
            field == chars@.subrange(from as int, to as int),
            digits == chars@.subrange(start as int, hi as int),
            digits == unsigned_part(trimmed(field)),
            all_digits(digits.subrange(0, i - start)),
            value == digits_value(digits.subrange(0, i - start)),
        decreases hi - i,
    {
        let code: u32 = chars[i] as u32;
        if code < 0x30 || code > 0x39 {
            assert(!is_digit(digits[i - start]));
            return None;
        }
        let digit: usize = (code - 0x30) as usize;
        assert(digits.subrange(0, i + 1 - start).drop_last() =~= digits.subrange(0, i - start));
        assert(digits.subrange(0, i + 1 - start).last() == chars@[i as int]);
        if value > (usize::MAX - digit) / 10 {
            proof {
                lemma_prefix_value(digits, i + 1 - start);
            }
            return None;
        }
        value = value * 10 + digit;
        i += 1;
    }
    assert(digits.subrange(0, hi - start) =~= digits);
    Some(value)
}

/// Reads a move typed as `row,col`. The numbers are not held against the
/// size of the board.
pub fn parse_input(input_string: &str) -> (res: Result<(usize, usize), InputError>)
    ensures
        res == coordinates(input_string@),
{
    let chars = chars_of(input_string);
    let len: usize = chars.len();
    let mut comma: Option<usize> = None;
    let mut i: usize = 0;
    while i < len
        invariant
            len == chars.len(),
            i <= len,
            chars@ == input_string@,
            match comma {
                Some(at) => at < i && chars@[at as int] == ',' && forall|j: int|
                    0 <= j < i && chars@[j] == ',' ==> j == at,
                None => forall|j: int| 0 <= j < i ==> chars@[j] != ',',
            },
        decreases len - i,
    {
        if chars[i] == ',' {
            if comma.is_some() {
                assert(forall|at: int| !sole_comma(chars@, at));
                return Err(InputError::MalformedInput);
            }
            comma = Some(i);
        }
        i += 1;
    }
    match comma {
        None => {
            assert(forall|at: int| !sole_comma(chars@, at));
            Err(InputError::MalformedInput)
        },
        Some(at) => {
            assert(sole_comma(chars@, at as int));
            let row = parse_field(&chars, 0, at);
            let col = parse_field(&chars, at + 1, len);
            match (row, col) {
                (Some(row), Some(col)) => Ok((row, col)),
                _ => Err(InputError::NotANumber),
            }
        },
    }
}

} // verus!
