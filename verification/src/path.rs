//! The grammar of request paths.
//!
//! Two shapes of path mean something: `/books`, the collection, and
//! `/books/{id}`, one book. Either may end in one extra slash. The identifier
//! is a decimal integer that fits in 32 bits, with an optional sign. Every
//! other path is unknown.
use vstd::prelude::*;
use vstd::string::*;

verus! {

/// What a path points at.
#[derive(Debug, Clone, Copy, PartialEq, Eq, Structural)]
pub enum Target {
    /// The collection of all books.
    Collection,
    /// The book with this identifier.
    Item(i32),
    /// Nothing this service knows of.
    Unknown,
}

/// Whether `c` is one of the ten decimal digits.
pub open spec fn is_digit(c: char) -> bool {
    '0' <= c <= '9'
}

/// The number a decimal digit stands for.
pub open spec fn digit_value(c: char) -> int {
    c as int - '0' as int
}

/// Whether every character is a decimal digit.
pub open spec fn all_digits(s: Seq<char>) -> bool {
    forall|i: int| 0 <= i < s.len() ==> is_digit(#[trigger] s[i])
}

/// The number that a run of decimal digits writes, most significant first.
pub open spec fn decimal(s: Seq<char>) -> int
    decreases s.len(),
{
    if s.len() == 0 {
        0
    } else {
        decimal(s.drop_last()) * 10 + digit_value(s.last())
    }
}

/// The identifier that a path segment writes, if it writes one: an optional
/// `+` or `-`, then at least one digit and nothing but digits, and the number
/// within the range of `i32`. Leading zeros do not matter.
pub open spec fn book_id(segment: Seq<char>) -> Option<i32> {
    let signed = segment.len() > 0 && (segment[0] == '-' || segment[0] == '+');
    let digits = if signed {
        segment.skip(1)
    } else {
        segment
    };
    let number = if signed && segment[0] == '-' {
        -decimal(digits)
    } else {
        decimal(digits)
    };
    if digits.len() > 0 && all_digits(digits) && i32::MIN <= number <= i32::MAX {
        Some(number as i32)
    } else {
        None
    }
}

/// The character that writes a digit.
pub open spec fn digit_char(digit: int) -> char {
    seq!['0', '1', '2', '3', '4', '5', '6', '7', '8', '9'][digit]
}

/// A number written in decimal digits, without leading zeros.
pub open spec fn decimal_text(number: nat) -> Seq<char>
    decreases number,
{
    if number < 10 {
        seq![digit_char(number as int)]
    } else {
        decimal_text(number / 10).push(digit_char(number as int % 10))
    }
}

/// An identifier the way it is usually written: a minus sign if it is
/// negative, then its decimal digits.
pub open spec fn id_text(id: i32) -> Seq<char> {
    if id < 0 {
        seq!['-'] + decimal_text((-id) as nat)
    } else {
        decimal_text(id as nat)
    }
}

impl Target {
    /// The usual path of a target: `/books` for the collection, `/books/`
    /// and the identifier for a book.
    pub open spec fn path(self) -> Seq<char>
        recommends
            self != Target::Unknown,
    {
        match self {
            Target::Item(id) => "/books/"@ + id_text(id),
            _ => "/books"@,
        }
    }

    /// What `path` points at.
    pub open spec fn of(path: Seq<char>) -> Target {
        let prefix = "/books/"@;
        if path == "/books"@ || path == prefix {
            Target::Collection
        } else if path.len() > prefix.len() && path.subrange(0, prefix.len() as int) == prefix {
            let rest = path.skip(prefix.len() as int);
            let segment = if rest.last() == '/' {
                rest.drop_last()
            } else {
                rest
            };
            match book_id(segment) {
                Some(id) => Target::Item(id),
                None => Target::Unknown,
            }
        } else {
            Target::Unknown
        }
    }
}

/// A run of digits is worth at least as much as any of its prefixes.
proof fn lemma_decimal_grows(s: Seq<char>, k: int)
    requires
        all_digits(s),
        0 <= k <= s.len(),
    ensures
        0 <= decimal(s.take(k)) <= decimal(s),
    decreases s.len() - k,
{
    if k == s.len() {
        assert(s.take(k) =~= s);
        lemma_decimal_nonnegative(s);
    } else {
        lemma_decimal_grows(s, k + 1);
        assert(s.take(k + 1).drop_last() =~= s.take(k));
        lemma_decimal_nonnegative(s.take(k));
    }
}

proof fn lemma_decimal_nonnegative(s: Seq<char>)
    requires
        all_digits(s),
    ensures
        0 <= decimal(s),
    decreases s.len(),
{
    if s.len() > 0 {
        lemma_decimal_nonnegative(s.drop_last());
    }
}

/// Decimal digits read back as the number they were written for.
pub proof fn lemma_decimal_text(number: nat)
    ensures
        decimal_text(number).len() > 0,
        all_digits(decimal_text(number)),
        decimal(decimal_text(number)) == number,
    decreases number,
{
    let text = decimal_text(number);
    if number < 10 {
        assert(decimal(text.drop_last()) == 0);
    } else {
        let front = decimal_text(number / 10);
        lemma_decimal_text(number / 10);
        assert(text.drop_last() =~= front);
    }
}

/// An identifier written the usual way reads back as itself.
pub proof fn lemma_id_text(id: i32)
    ensures
        book_id(id_text(id)) == Some(id),
        id_text(id).len() > 0,
        id_text(id).last() != '/',
{
    if id < 0 {
        lemma_decimal_text((-id) as nat);
        assert(id_text(id).skip(1) =~= decimal_text((-id) as nat));
    } else {
        lemma_decimal_text(id as nat);
    }
}

/// A segment that writes an identifier is plain ASCII.
proof fn lemma_book_id_is_ascii(segment: Seq<char>)
    requires
        book_id(segment) is Some,
    ensures
        vstd::utf8::is_ascii_chars(segment),
{
    let signed = segment.len() > 0 && (segment[0] == '-' || segment[0] == '+');
    assert forall|i: int| 0 <= i < segment.len() implies '\0' <= #[trigger] segment[i]
        <= '\u{7f}' by {
        if signed && i > 0 {
            assert(is_digit(segment.skip(1)[i - 1]));
        }
    }
}

/// A path that points at something is plain ASCII.
proof fn lemma_target_is_ascii(path: Seq<char>)
    requires
        Target::of(path) != Target::Unknown,
    ensures
        vstd::utf8::is_ascii_chars(path),
{
    reveal_strlit("/books");
    reveal_strlit("/books/");
    let prefix = "/books/"@;
    if path == "/books"@ || path == prefix {
    } else {
        let rest = path.skip(prefix.len() as int);
        let segment = if rest.last() == '/' {
            rest.drop_last()
        } else {
            rest
        };
        lemma_book_id_is_ascii(segment);
        assert forall|i: int| 0 <= i < path.len() implies '\0' <= #[trigger] path[i]
            <= '\u{7f}' by {
            if i < prefix.len() {
                assert(path[i] == path.subrange(0, prefix.len() as int)[i]);
            } else if i - prefix.len() < segment.len() {
                assert(rest[i - prefix.len()] == segment[i - prefix.len()]);
            }
        }
    }
}

/// The code of `/`.
const SLASH: u8 = 47;

/// The code of `+`.
const PLUS: u8 = 43;

/// The code of `-`.
const MINUS: u8 = 45;

/// The code of `0`.
const ZERO: u8 = 48;

/// The code of `9`.
const NINE: u8 = 57;

/// Whether two strings hold the same characters.
pub(crate) fn same_text(left: &str, right: &str) -> (same: bool)
    ensures
        same == (left@ == right@),
{
    left.to_owned() == right.to_owned()
}

/// The number of characters of a string that holds ASCII only.
fn ascii_len(s: &str) -> (len: usize)
    requires
        s.is_ascii(),
    ensures
        len == s@.len(),
{
    proof {
        vstd::utf8::is_ascii_chars_encode_utf8(s@);
    }
    s.as_bytes().len()
}

/// Reads the identifier that a path segment writes.
pub fn parse_book_id(segment: &str) -> (id: Option<i32>)
    ensures
        id == book_id(segment@),
{
    if !segment.is_ascii() {
        proof {
            if book_id(segment@) is Some {
                lemma_book_id_is_ascii(segment@);
            }
        }
        return None;
    }
    let len: usize = ascii_len(segment);
    if len == 0 {
        return None;
    }
    let first: u8 = segment.get_ascii(0);
    let signed: bool = first == MINUS || first == PLUS;
    let negative: bool = first == MINUS;
    let start: usize = if signed {
        1
    } else {
        0
    };
    let ghost digits: Seq<char> = if signed {
        segment@.skip(1)
    } else {
        segment@
    };
    if start == len {
        return None;
    }
    let mut value: i64 = 0;
    let mut at: usize = start;
    while at < len
        invariant
            segment.is_ascii(),
            len == segment@.len(),
            start <= at <= len,
            signed == (segment@.len() > 0 && (segment@[0] == '-' || segment@[0] == '+')),
            start == if signed { 1usize } else { 0usize },
            digits == if signed { segment@.skip(1) } else { segment@ },
            all_digits(digits.take(at - start)),
            value == decimal(digits.take(at - start)),
            0 <= value <= 0x8000_0000,
        decreases len - at,
    {
        let byte: u8 = segment.get_ascii(at);
        if byte < ZERO || byte > NINE {
            return None;
        }
        assert(digits.take(at - start + 1).drop_last() =~= digits.take(at - start));
        value = value * 10 + (byte - ZERO) as i64;
        at = at + 1;
        assert forall|i: int| 0 <= i < at - start implies is_digit(
            #[trigger] digits.take(at - start)[i],
        ) by {
            if i < at - start - 1 {
                assert(digits.take(at - start)[i] == digits.take(at - start - 1)[i]);
            }
        }
        if value > 0x8000_0000 {
            proof {
                if all_digits(digits) {
                    lemma_decimal_grows(digits, at - start);
                }
            }
            return None;
        }
    }
    assert(digits.take(at - start) =~= digits);
    if negative {
        Some((-value) as i32)
    } else if value > 0x7fff_ffff {
        None
    } else {
        Some(value as i32)
    }
}

impl Target {
    /// Works out what `path` points at.
    pub fn parse(path: &str) -> (target: Target)
        ensures
            target == Target::of(path@),
    {
        if !path.is_ascii() {
            proof {
                if Target::of(path@) != Target::Unknown {
                    lemma_target_is_ascii(path@);
                }
            }
            return Target::Unknown;
        }
        proof {
            reveal_strlit("/books");
            reveal_strlit("/books/");
        }
        let len: usize = ascii_len(path);
        if len <= 7 {
            return if same_text(path, "/books") || same_text(path, "/books/") {
                Target::Collection
            } else {
                Target::Unknown
            };
        }
        if !same_text(path.substring_ascii(0, 7), "/books/") {
            return Target::Unknown;
        }
        let end: usize = if path.get_ascii(len - 1) == SLASH {
            len - 1
        } else {
            len
        };
        let segment = path.substring_ascii(7, end);
        assert(segment@ =~= path@.skip(7).subrange(0, end - 7));
        match parse_book_id(segment) {
            Some(id) => Target::Item(id),
            None => Target::Unknown,
        }
    }
}

} // verus!
