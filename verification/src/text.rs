//! Character classes and small string helpers shared by the identifier
//! parsers.

use vstd::prelude::*;
use vstd::string::StrSliceExecFns;
use vstd::string::StringExecFns;

verus! {

/// An ASCII decimal digit.
pub open spec fn spec_is_ascii_digit(c: char) -> bool {
    48 <= c as int && c as int <= 57
}

/// An ASCII hexadecimal digit, either case.
pub open spec fn spec_is_ascii_hex_digit(c: char) -> bool {
    ||| spec_is_ascii_digit(c)
    ||| (65 <= c as int && c as int <= 70)
    ||| (97 <= c as int && c as int <= 102)
}

/// An ASCII letter or decimal digit.
pub open spec fn spec_is_ascii_alphanumeric(c: char) -> bool {
    ||| spec_is_ascii_digit(c)
    ||| (65 <= c as int && c as int <= 90)
    ||| (97 <= c as int && c as int <= 122)
}

pub fn is_ascii_hex_digit(c: char) -> (r: bool)
    ensures
        r == spec_is_ascii_hex_digit(c),
{
    let u = c as u32;
    (48 <= u && u <= 57) || (65 <= u && u <= 70) || (97 <= u && u <= 102)
}

pub fn is_ascii_alphanumeric(c: char) -> (r: bool)
    ensures
        r == spec_is_ascii_alphanumeric(c),
{
    let u = c as u32;
    (48 <= u && u <= 57) || (65 <= u && u <= 90) || (97 <= u && u <= 122)
}

/// Whether every character of `s` is an ASCII hexadecimal digit. Vacuously
/// true of the empty string.
pub open spec fn spec_all_hex_digits(s: Seq<char>) -> bool {
    forall|i: int| 0 <= i < s.len() ==> spec_is_ascii_hex_digit(#[trigger] s[i])
}

/// Run-time check for [`spec_all_hex_digits`].
pub fn all_hex_digits(s: &str) -> (r: bool)
    ensures
        r == spec_all_hex_digits(s@),
{
    let len = s.unicode_len();
    let mut i: usize = 0;
    while i < len
        invariant
            0 <= i <= len,
            len == s@.len(),
            forall|j: int| 0 <= j < i ==> spec_is_ascii_hex_digit(#[trigger] s@[j]),
        decreases len - i,
    {
        if !is_ascii_hex_digit(s.get_char(i)) {
            return false;
        }
        i = i + 1;
    }
    true
}

/// A character allowed in a username: ASCII letters and digits,
/// underscore and hyphen.
pub open spec fn spec_is_username_char(c: char) -> bool {
    spec_is_ascii_alphanumeric(c) || c as int == 95 || c as int == 45
}

pub fn is_username_char(c: char) -> (r: bool)
    ensures
        r == spec_is_username_char(c),
{
    let u = c as u32;
    is_ascii_alphanumeric(c) || u == 95 || u == 45
}

/// Whether every character of `s` is allowed in a username.
pub open spec fn spec_all_username_chars(s: Seq<char>) -> bool {
    forall|i: int| 0 <= i < s.len() ==> spec_is_username_char(#[trigger] s[i])
}

/// Run-time check for [`spec_all_username_chars`].
pub fn all_username_chars(s: &str) -> (r: bool)
    ensures
        r == spec_all_username_chars(s@),
{
    let len = s.unicode_len();
    let mut i: usize = 0;
    while i < len
        invariant
            0 <= i <= len,
            len == s@.len(),
            forall|j: int| 0 <= j < i ==> spec_is_username_char(#[trigger] s@[j]),
        decreases len - i,
    {
        if !is_username_char(s.get_char(i)) {
            return false;
        }
        i = i + 1;
    }
    true
}

/// How many characters of `s` equal `c`.
pub open spec fn spec_count_char(s: Seq<char>, c: char) -> int
    decreases s.len(),
{
    if s.len() == 0 {
        0
    } else {
        spec_count_char(s.drop_last(), c) + if s.last() == c {
            1int
        } else {
            0int
        }
    }
}

/// Counts the occurrences of `c` in `s`.
pub fn count_char(s: &str, c: char) -> (r: usize)
    ensures
        r == spec_count_char(s@, c),
        r <= s@.len(),
{
    proof {
        lemma_count_char_le_len(s@, c);
    }
    let len = s.unicode_len();
    let mut i: usize = 0;
    let mut count: usize = 0;
    while i < len
        invariant
            0 <= i <= len,
            len == s@.len(),
            count == spec_count_char(s@.take(i as int), c),
            count <= i,
        decreases len - i,
    {
        proof {
            assert(s@.take(i + 1).drop_last() =~= s@.take(i as int));
            assert(s@.take(i + 1).last() == s@[i as int]);
        }
        if s.get_char(i) == c {
            count = count + 1;
        }
        i = i + 1;
    }
    proof {
        assert(s@.take(len as int) =~= s@);
    }
    count
}

proof fn lemma_count_char_le_len(s: Seq<char>, c: char)
    ensures
        0 <= spec_count_char(s, c) <= s.len(),
    decreases s.len(),
{
    if s.len() > 0 {
        lemma_count_char_le_len(s.drop_last(), c);
    }
}

/// Joins an owner and a name into the `<owner>/<name>` form the service
/// uses for fully qualified resource names.
pub fn join_full_name(owner: &String, name: &String) -> (r: String)
    ensures
        r@ == owner@ + "/"@ + name@,
{
    let mut full = owner.clone();
    full.append("/");
    full.append(name.as_str());
    full
}

} // verus!
