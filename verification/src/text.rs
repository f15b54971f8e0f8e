//! Strings that a plugin hands to the host as C strings, and the checks made on them.

use vstd::prelude::*;

verus! {

/// A C string pointer handed over by a plugin, as the host reads it.
pub enum RawText {
    /// The pointer was null.
    Null,
    /// The pointer was not null, but the bytes it points to are not valid UTF-8.
    InvalidUtf8,
    /// The pointer was not null and points to this (possibly empty) string.
    Text(String),
}

/// Why a string handed over by a plugin was refused.
#[derive(Clone, Copy, PartialEq, Eq, Structural, Debug)]
pub enum TextError {
    /// The string is a null pointer.
    Null,
    /// The string is empty.
    Empty,
    /// The string is not valid UTF-8.
    InvalidUtf8,
}

/// What [`read_string`] gives for a raw string.
pub open spec fn spec_read_string(raw: RawText) -> Result<Option<String>, TextError> {
    match raw {
        RawText::Null => Ok(None),
        RawText::InvalidUtf8 => Err(TextError::InvalidUtf8),
        RawText::Text(s) => Ok(Some(s)),
    }
}

/// What [`mandatory_string`] gives for a raw string.
pub open spec fn spec_mandatory_string(raw: RawText) -> Result<String, TextError> {
    match raw {
        RawText::Null => Err(TextError::Null),
        RawText::InvalidUtf8 => Err(TextError::InvalidUtf8),
        RawText::Text(s) => if s@.len() == 0 {
            Err(TextError::Empty)
        } else {
            Ok(s)
        },
    }
}

/// What [`optional_string`] gives for a raw string.
pub open spec fn spec_optional_string(raw: RawText) -> Result<Option<String>, TextError> {
    match raw {
        RawText::Null => Ok(None),
        RawText::InvalidUtf8 => Err(TextError::InvalidUtf8),
        RawText::Text(s) => if s@.len() == 0 {
            Ok(None)
        } else {
            Ok(Some(s))
        },
    }
}

/// Read a C string. A null pointer gives `None`; invalid UTF-8 is an error.
pub fn read_string(raw: RawText) -> (r: Result<Option<String>, TextError>)
    ensures
        r == spec_read_string(raw),
{
    match raw {
        RawText::Null => Ok(None),
        RawText::InvalidUtf8 => Err(TextError::InvalidUtf8),
        RawText::Text(s) => Ok(Some(s)),
    }
}

/// Read a C string that must be present and non-empty.
pub fn mandatory_string(raw: RawText) -> (r: Result<String, TextError>)
    ensures
        r == spec_mandatory_string(raw),
{
    match raw {
        RawText::Null => Err(TextError::Null),
        RawText::InvalidUtf8 => Err(TextError::InvalidUtf8),
        RawText::Text(s) => if s.as_str().is_empty() {
            Err(TextError::Empty)
        } else {
            Ok(s)
        },
    }
}

/// Read a C string where a null pointer and an empty string both mean that the value is absent.
pub fn optional_string(raw: RawText) -> (r: Result<Option<String>, TextError>)
    ensures
        r == spec_optional_string(raw),
{
    match raw {
        RawText::Null => Ok(None),
        RawText::InvalidUtf8 => Err(TextError::InvalidUtf8),
        RawText::Text(s) => if s.as_str().is_empty() {
            Ok(None)
        } else {
            Ok(Some(s))
        },
    }
}

/// Whether a character has the Unicode `White_Space` property, as `char::is_whitespace`
/// documents it.
pub open spec fn spec_is_whitespace(c: char) -> bool {
    let n = c as u32;
    ||| 0x09 <= n <= 0x0d
    ||| n == 0x20
    ||| n == 0x85
    ||| n == 0xa0
    ||| n == 0x1680
    ||| 0x2000 <= n <= 0x200a
    ||| n == 0x2028
    ||| n == 0x2029
    ||| n == 0x202f
    ||| n == 0x205f
    ||| n == 0x3000
}

/// Whether a character has the Unicode `White_Space` property.
pub fn is_whitespace(c: char) -> (r: bool)
    ensures
        r == spec_is_whitespace(c),
{
    let n = c as u32;
    (0x09 <= n && n <= 0x0d) || n == 0x20 || n == 0x85 || n == 0xa0 || n == 0x1680 || (0x2000 <= n
        && n <= 0x200a) || n == 0x2028 || n == 0x2029 || n == 0x202f || n == 0x205f || n == 0x3000
}

/// The ASCII lower-case form of a character; other characters stay as they are.
pub open spec fn spec_ascii_lower(c: char) -> char {
    if 'A' <= c <= 'Z' {
        ((c as u32) + 32) as char
    } else {
        c
    }
}

/// Whether two character sequences are equal when ASCII letters are compared without case.
pub open spec fn eq_ignore_ascii_case(a: Seq<char>, b: Seq<char>) -> bool {
    a.len() == b.len() && forall|i: int| 0 <= i < a.len() ==> spec_ascii_lower(a[i])
        == spec_ascii_lower(b[i])
}

/// The sequence with leading and trailing white space removed, from `start` to `end`: the first
/// non-white-space position and one past the last one.
pub open spec fn is_trim_bounds(s: Seq<char>, start: int, end: int) -> bool {
    &&& 0 <= start <= end <= s.len()
    &&& forall|i: int| 0 <= i < start ==> spec_is_whitespace(#[trigger] s[i])
    &&& forall|i: int| end <= i < s.len() ==> spec_is_whitespace(#[trigger] s[i])
    &&& start < end ==> !spec_is_whitespace(s[start]) && !spec_is_whitespace(s[end - 1])
}

/// Whether `s`, once leading and trailing white space is removed, equals `target` ignoring ASCII
/// case.
pub open spec fn trimmed_eq_ignore_ascii_case(s: Seq<char>, target: Seq<char>) -> bool {
    exists|start: int, end: int|
        is_trim_bounds(s, start, end) && eq_ignore_ascii_case(
            #[trigger] s.subrange(start, end),
            target,
        )
}

/// Lower-case an ASCII letter.
fn ascii_lower(c: char) -> (r: char)
    ensures
        r == spec_ascii_lower(c),
{
    if 'A' <= c && c <= 'Z' {
        let n = (c as u32) + 32;
        assert(n <= 0x7f);
        char_from_ascii(n)
    } else {
        c
    }
}

/// The character with an ASCII code.
fn char_from_ascii(n: u32) -> (r: char)
    requires
        n <= 0x7f,
    ensures
        r == n as char,
{
    let b = n as u8;
    b as char
}

/// Whether `s`, with leading and trailing white space removed, equals `target` when ASCII
/// letters are compared without case.
pub fn trimmed_eq_ignore_ascii_case_exec(s: &str, target: &str) -> (r: bool)
    ensures
        r == trimmed_eq_ignore_ascii_case(s@, target@),
{
    let n = s.unicode_len();
    let mut start: usize = 0;
    while start < n && is_whitespace(s.get_char(start))
        invariant
            n == s@.len(),
            start <= n,
            forall|i: int| 0 <= i < start ==> spec_is_whitespace(#[trigger] s@[i]),
        decreases n - start,
    {
        start = start + 1;
    }
    let mut end: usize = n;
    while end > start && is_whitespace(s.get_char(end - 1))
        invariant
            n == s@.len(),
            start <= end <= n,
            forall|i: int| end <= i < n ==> spec_is_whitespace(#[trigger] s@[i]),
        decreases end,
    {
        end = end - 1;
    }
    proof {
        if start < end {
            assert(!spec_is_whitespace(s@[start as int]));
        }
        assert(is_trim_bounds(s@, start as int, end as int));
        lemma_trim_bounds_unique(s@, start as int, end as int);
    }
    let m = target.unicode_len();
    if end - start != m {
        proof {
            assert(!eq_ignore_ascii_case(s@.subrange(start as int, end as int), target@));
        }
        return false;
    }
    let mut i: usize = 0;
    while i < m
        invariant
            n == s@.len(),
            m == target@.len(),
            start <= end <= n,
            end - start == m,
            i <= m,
            forall|j: int|
                0 <= j < i ==> spec_ascii_lower(s@[start + j]) == spec_ascii_lower(target@[j]),
            is_trim_bounds(s@, start as int, end as int),
        decreases m - i,
    {
        if ascii_lower(s.get_char(start + i)) != ascii_lower(target.get_char(i)) {
            proof {
                let sub = s@.subrange(start as int, end as int);
                assert(sub[i as int] == s@[start + i]);
                assert(!eq_ignore_ascii_case(sub, target@));
                assert(is_trim_bounds(s@, start as int, end as int));
                lemma_trim_bounds_unique(s@, start as int, end as int);
            }
            return false;
        }
        i = i + 1;
    }
    proof {
        let sub = s@.subrange(start as int, end as int);
        assert forall|j: int| 0 <= j < sub.len() implies spec_ascii_lower(sub[j]) == spec_ascii_lower(
            target@[j],
        ) by {
            assert(sub[j] == s@[start + j]);
        }
        assert(eq_ignore_ascii_case(sub, target@));
    }
    true
}

/// All trimmed ranges of a sequence hold the same characters.
proof fn lemma_trim_bounds_unique(s: Seq<char>, start: int, end: int)
    requires
        is_trim_bounds(s, start, end),
    ensures
        forall|a: int, b: int|
            is_trim_bounds(s, a, b) ==> #[trigger] s.subrange(a, b) == s.subrange(start, end),
{
    assert forall|a: int, b: int| is_trim_bounds(s, a, b) implies #[trigger] s.subrange(a, b)
        == s.subrange(start, end) by {
        if a < b && start < end {
            if a < start {
                assert(spec_is_whitespace(s[a]));
            }
            if start < a {
                assert(spec_is_whitespace(s[start]));
            }
            if b < end {
                assert(spec_is_whitespace(s[end - 1]));
            }
            if end < b {
                assert(spec_is_whitespace(s[b - 1]));
            }
        } else if a == b && start < end {
            if start < a {
                assert(spec_is_whitespace(s[start]));
            } else {
                assert(spec_is_whitespace(s[start]));
            }
        } else if start == end && a < b {
            if a < start {
                assert(spec_is_whitespace(s[a]));
            } else {
                assert(spec_is_whitespace(s[a]));
            }
        } else {
            assert(s.subrange(a, b) =~= s.subrange(start, end));
        }
    }
}

/// The parts joined into one text, with a line break between two parts.
pub open spec fn join_lines(parts: Seq<Seq<char>>) -> Seq<char>
    decreases parts.len(),
{
    if parts.len() == 0 {
        Seq::empty()
    } else if parts.len() == 1 {
        parts[0]
    } else {
        join_lines(parts.drop_last()) + "\n"@ + parts.last()
    }
}

/// Join strings with a line break between two of them, as an error chain is printed.
pub fn join_with_newlines(parts: &Vec<String>) -> (r: String)
    ensures
        r@ == join_lines(parts@.map_values(|s: String| s@)),
{
    let ghost views = parts@.map_values(|s: String| s@);
    let mut r = String::new();
    let mut i: usize = 0;
    while i < parts.len()
        invariant
            i <= parts@.len(),
            views == parts@.map_values(|s: String| s@),
            r@ == join_lines(views.subrange(0, i as int)),
        decreases parts.len() - i,
    {
        proof {
            let next = views.subrange(0, i + 1);
            assert(next.drop_last() =~= views.subrange(0, i as int));
            assert(next.last() == parts@[i as int]@);
        }
        if i > 0 {
            r.append("\n");
        }
        r.append(parts[i].as_str());
        i = i + 1;
    }
    assert(views.subrange(0, i as int) =~= views);
    r
}

/// Whether a character sequence starts with `c`.
pub open spec fn starts_with_char(s: Seq<char>, c: char) -> bool {
    s.len() > 0 && s[0] == c
}

/// Whether a string starts with the character `c`.
pub fn str_starts_with(s: &str, c: char) -> (r: bool)
    ensures
        r == starts_with_char(s@, c),
{
    let n = s.unicode_len();
    n > 0 && s.get_char(0) == c
}

} // verus!
