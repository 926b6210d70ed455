//! Strings: the few operations on names and messages that the rest of the
//! library is built on.
use vstd::prelude::*;
use vstd::string::{StrSliceExecFns, StringExecFns};

verus! {

/// The characters of an optional string.
pub open spec fn opt_chars(s: Option<String>) -> Option<Seq<char>> {
    match s {
        Some(s) => Some(s@),
        None => None,
    }
}

/// The characters of each string of a list.
pub open spec fn all_chars(list: Seq<String>) -> Seq<Seq<char>> {
    list.map_values(|s: String| s@)
}

/// The characters of each optional string of a list.
pub open spec fn all_opt_chars(list: Seq<Option<String>>) -> Seq<Option<Seq<char>>> {
    list.map_values(|s: Option<String>| opt_chars(s))
}

/// Position `i` of `s` holds `true` and no earlier one does.
pub open spec fn is_first_true(s: Seq<bool>, i: int) -> bool {
    &&& 0 <= i < s.len()
    &&& s[i]
    &&& forall|j: int| 0 <= j < i ==> !s[j]
}

/// The first position that holds `true`.
pub open spec fn first_true(s: Seq<bool>) -> Option<usize> {
    if exists|i: int| is_first_true(s, i) {
        Some((choose|i: int| is_first_true(s, i)) as usize)
    } else {
        None
    }
}

/// A position with nothing before it is the one that `first_true` names.
pub proof fn lemma_first_true_is(s: Seq<bool>, i: int)
    requires
        is_first_true(s, i),
        s.len() <= usize::MAX,
    ensures
        first_true(s) == Some(i as usize),
{
    let k = choose|k: int| is_first_true(s, k);
    assert(is_first_true(s, k));
    assert(k == i) by {
        if k < i {
            assert(!s[k]);
        }
        if i < k {
            assert(!s[i]);
        }
    }
}

/// Where a position holds `true`, `first_true` names one, and none that comes
/// later.
pub proof fn lemma_first_true_some(s: Seq<bool>, i: int)
    requires
        0 <= i < s.len(),
        s[i],
        s.len() <= usize::MAX,
    ensures
        first_true(s) is Some,
        first_true(s)->0 <= i,
        is_first_true(s, first_true(s)->0 as int),
    decreases i,
{
    if forall|j: int| 0 <= j < i ==> !s[j] {
        assert(is_first_true(s, i));
        lemma_first_true_is(s, i);
    } else {
        let j = choose|j: int| 0 <= j < i && s[j];
        lemma_first_true_some(s, j);
    }
}

/// `needle` occurs in `haystack` from position `at` on.
pub open spec fn occurs_at(haystack: Seq<char>, needle: Seq<char>, at: int) -> bool {
    &&& 0 <= at
    &&& at + needle.len() <= haystack.len()
    &&& haystack.subrange(at, at + needle.len()) == needle
}

/// `needle` occurs somewhere in `haystack`.
pub open spec fn is_substring(haystack: Seq<char>, needle: Seq<char>) -> bool {
    exists|at: int| occurs_at(haystack, needle, at)
}

/// Every string occurs in itself.
pub proof fn lemma_substring_of_itself(s: Seq<char>)
    ensures
        is_substring(s, s),
{
    assert(s.subrange(0, s.len() as int) =~= s);
    assert(occurs_at(s, s, 0));
}

/// What `str::to_lowercase` makes of a string.
pub uninterp spec fn lowercase(s: Seq<char>) -> Seq<char>;

/// Calls `str::to_lowercase`. Claimed of it: its result is a function of the
/// characters it is given. Which characters they become is left to Unicode.
#[verifier::external_body]
pub(crate) fn to_lowercase(s: &str) -> (lower: String)
    ensures
        lower@ == lowercase(s@),
{
    s.to_lowercase()
}

/// Whether `needle` occurs in `haystack` from position `at` on.
fn is_at(haystack: &str, needle: &str, at: usize) -> (found: bool)
    requires
        at + needle@.len() <= haystack@.len() <= usize::MAX,
    ensures
        found == occurs_at(haystack@, needle@, at as int),
{
    let len: usize = needle.unicode_len();
    let mut i: usize = 0;
    while i < len
        invariant
            i <= len,
            len == needle@.len(),
            at + len <= haystack@.len() <= usize::MAX,
            forall|j: int| 0 <= j < i ==> haystack@[at + j] == #[trigger] needle@[j],
        decreases len - i,
    {
        if haystack.get_char(at + i) != needle.get_char(i) {
            assert(haystack@.subrange(at as int, at + needle@.len())[i as int] != needle@[i as int]);
            return false;
        }
        i = i + 1;
    }
    assert(haystack@.subrange(at as int, at + needle@.len()) =~= needle@);
    true
}

/// Whether `needle` occurs somewhere in `haystack`.
pub fn contains(haystack: &str, needle: &str) -> (found: bool)
    ensures
        found == is_substring(haystack@, needle@),
{
    let len: usize = haystack.unicode_len();
    let width: usize = needle.unicode_len();
    if width > len {
        return false;
    }
    let last: usize = len - width;
    let mut at: usize = 0;
    while at < last
        invariant
            len == haystack@.len(),
            width == needle@.len(),
            last == len - width,
            at <= last,
            forall|k: int| 0 <= k < at ==> !occurs_at(haystack@, needle@, k),
        decreases last - at,
    {
        if is_at(haystack, needle, at) {
            return true;
        }
        at = at + 1;
    }
    is_at(haystack, needle, last)
}

/// An ASCII upper-case letter becomes the lower-case one, every other
/// character stays.
pub open spec fn ascii_lower(c: char) -> char {
    if 'A' as u32 <= c as u32 <= 'Z' as u32 {
        (c as u32 + 32) as char
    } else {
        c
    }
}

/// The two strings differ at most in the case of ASCII letters.
pub open spec fn same_ignoring_ascii_case(a: Seq<char>, b: Seq<char>) -> bool {
    &&& a.len() == b.len()
    &&& forall|i: int|
        0 <= i < a.len() ==> ascii_lower(#[trigger] a[i]) == ascii_lower(b[i])
}

/// The number of a character once an ASCII letter is put in lower case.
fn lower_number(c: char) -> (n: u32)
    ensures
        n == ascii_lower(c) as u32,
{
    let n: u32 = c as u32;
    if 65 <= n && n <= 90 {
        n + 32
    } else {
        n
    }
}

/// Whether the two strings differ at most in the case of ASCII letters.
pub fn eq_ignore_ascii_case(a: &str, b: &str) -> (same: bool)
    ensures
        same == same_ignoring_ascii_case(a@, b@),
{
    let len: usize = a.unicode_len();
    if len != b.unicode_len() {
        return false;
    }
    let mut i: usize = 0;
    while i < len
        invariant
            i <= len,
            len == a@.len(),
            len == b@.len(),
            forall|j: int| 0 <= j < i ==> ascii_lower(#[trigger] a@[j]) == ascii_lower(b@[j]),
        decreases len - i,
    {
        if lower_number(a.get_char(i)) != lower_number(b.get_char(i)) {
            assert(ascii_lower(a@[i as int]) != ascii_lower(b@[i as int]));
            return false;
        }
        i = i + 1;
    }
    true
}

/// The code unit is one half of a pair and stands for no character alone.
pub open spec fn is_surrogate(unit: u16) -> bool {
    0xd800 <= unit <= 0xdfff
}

/// The row begins with the two halves of a pair, in order.
pub open spec fn begins_with_pair(units: Seq<u16>) -> bool {
    units.len() >= 2 && 0xd800 <= units[0] <= 0xdbff && 0xdc00 <= units[1] <= 0xdfff
}

/// The text of a row of UTF-16 code units. A pair stands for one character,
/// and half a pair becomes the replacement character.
pub open spec fn utf16_lossy(units: Seq<u16>) -> Seq<char>
    decreases units.len(),
{
    if units.len() == 0 {
        Seq::empty()
    } else if begins_with_pair(units) {
        seq![(0x10000 + (units[0] - 0xd800) * 0x400 + (units[1] - 0xdc00)) as char]
            + utf16_lossy(units.skip(2))
    } else {
        seq![if is_surrogate(units[0]) { '\u{fffd}' } else { units[0] as char }]
            + utf16_lossy(units.skip(1))
    }
}

/// Calls `String::from_utf16_lossy`. Claimed of it: it decodes UTF-16, and puts
/// the replacement character for each half of a pair that stands alone.
#[verifier::external_body]
pub(crate) fn from_utf16_lossy(units: &[u16]) -> (text: String)
    ensures
        text@ == utf16_lossy(units@),
{
    String::from_utf16_lossy(units)
}

/// The character of a decimal digit.
pub open spec fn digit(d: nat) -> char {
    (48 + d) as char
}

/// A number in decimal, without leading zeros.
pub open spec fn decimal(n: nat) -> Seq<char>
    decreases n,
{
    if n < 10 {
        seq![digit(n)]
    } else {
        decimal(n / 10).push(digit(n % 10))
    }
}

fn digit_str(d: u64) -> (s: &'static str)
    requires
        d < 10,
    ensures
        s@ == seq![digit(d as nat)],
{
    proof {
        reveal_strlit("0");
        reveal_strlit("1");
        reveal_strlit("2");
        reveal_strlit("3");
        reveal_strlit("4");
        reveal_strlit("5");
        reveal_strlit("6");
        reveal_strlit("7");
        reveal_strlit("8");
        reveal_strlit("9");
    }
    match d {
        0 => "0",
        1 => "1",
        2 => "2",
        3 => "3",
        4 => "4",
        5 => "5",
        6 => "6",
        7 => "7",
        8 => "8",
        _ => "9",
    }
}

/// A number in decimal.
pub fn to_decimal(n: u64) -> (s: String)
    ensures
        s@ == decimal(n as nat),
    decreases n,
{
    if n < 10 {
        digit_str(n).to_owned()
    } else {
        let mut s: String = to_decimal(n / 10);
        s.append(digit_str(n % 10));
        s
    }
}

/// Whether the two strings are equal.
pub(crate) fn same_text(a: &String, b: &str) -> (same: bool)
    ensures
        same == (a@ == b@),
{
    let b: String = b.to_owned();
    *a == b
}

/// `a` followed by `b`.
pub(crate) fn join2(a: &str, b: &str) -> (s: String)
    ensures
        s@ == a@ + b@,
{
    let mut s: String = a.to_owned();
    s.append(b);
    s
}

/// `a`, `b` and `c` one after the other.
pub(crate) fn join3(a: &str, b: &str, c: &str) -> (s: String)
    ensures
        s@ == a@ + b@ + c@,
{
    let mut s: String = join2(a, b);
    s.append(c);
    s
}

/// A path separator, of Windows or of Unix.
pub open spec fn is_separator(c: char) -> bool {
    c == '\\' || c == '/'
}

/// Where the last component of `path` begins: right after its last separator,
/// at the front where it has none.
pub open spec fn is_file_name_start(path: Seq<char>, start: int) -> bool {
    &&& 0 <= start <= path.len()
    &&& start > 0 ==> is_separator(path[start - 1])
    &&& forall|i: int| start <= i < path.len() ==> !is_separator(#[trigger] path[i])
}

/// The last component of a path.
pub open spec fn file_name(path: Seq<char>) -> Seq<char> {
    path.skip(choose|start: int| is_file_name_start(path, start))
}

/// A path has one last component.
proof fn lemma_file_name_is(path: Seq<char>, start: int)
    requires
        is_file_name_start(path, start),
    ensures
        file_name(path) == path.skip(start),
{
    let k = choose|k: int| is_file_name_start(path, k);
    assert(is_file_name_start(path, k));
    if k < start {
        assert(!is_separator(path[start - 1]));
    }
    if start < k {
        assert(!is_separator(path[k - 1]));
    }
}

/// The last component of a path.
pub fn file_name_of(path: &str) -> (name: String)
    ensures
        name@ == file_name(path@),
{
    let len: usize = path.unicode_len();
    let mut start: usize = len;
    while start > 0 && !(path.get_char(start - 1) == '\\' || path.get_char(start - 1) == '/')
        invariant
            len == path@.len(),
            start <= len,
            forall|i: int| start <= i < len ==> !is_separator(#[trigger] path@[i]),
        decreases start,
    {
        start = start - 1;
    }
    proof {
        lemma_file_name_is(path@, start as int);
        assert(path@.skip(start as int) =~= path@.subrange(start as int, len as int));
    }
    path.substring_char(start, len).to_owned()
}

/// The last component of a path holds no separator, and the path ends with it.
pub proof fn law_file_name(path: Seq<char>)
    ensures
        forall|i: int|
            0 <= i < file_name(path).len() ==> !is_separator(#[trigger] file_name(path)[i]),
        file_name(path).len() <= path.len(),
        path.skip(path.len() - file_name(path).len()) == file_name(path),
        file_name(path).len() < path.len() ==> is_separator(
            path[path.len() - file_name(path).len() - 1],
        ),
{
    lemma_file_name_exists(path, path.len() as int);
    let start = choose|start: int| is_file_name_start(path, start);
    assert(is_file_name_start(path, start));
}

proof fn lemma_file_name_exists(path: Seq<char>, from: int)
    requires
        0 <= from <= path.len(),
        forall|i: int| from <= i < path.len() ==> !is_separator(#[trigger] path[i]),
    ensures
        exists|start: int| is_file_name_start(path, start),
    decreases from,
{
    if from == 0 || is_separator(path[from - 1]) {
        assert(is_file_name_start(path, from));
    } else {
        lemma_file_name_exists(path, from - 1);
    }
}

/// What lists of strings stand for is what they hold, string by string.
pub proof fn law_string_views(s: Option<String>, list: Seq<String>, opts: Seq<Option<String>>)
    ensures
        s matches Some(s1) ==> opt_chars(s) == Some(s1@),
        s is None ==> opt_chars(s) is None,
        all_chars(list).len() == list.len(),
        forall|i: int| 0 <= i < list.len() ==> #[trigger] all_chars(list)[i] == list[i]@,
        all_opt_chars(opts).len() == opts.len(),
        forall|i: int|
            0 <= i < opts.len() ==> #[trigger] all_opt_chars(opts)[i] == (match opts[i] {
                Some(s1) => Some(s1@),
                None => None,
            }),
{
}

/// What is named as the first position is one, and nothing before it is; where
/// none is named there is none.
pub proof fn law_first_position(s: Seq<bool>)
    requires
        s.len() <= usize::MAX,
    ensures
        match first_true(s) {
            Some(i) => i < s.len() && s[i as int] && forall|j: int| 0 <= j < i ==> !#[trigger] s[j],
            None => forall|j: int| 0 <= j < s.len() ==> !#[trigger] s[j],
        },
{
    if exists|j: int| 0 <= j < s.len() && #[trigger] s[j] {
        let j = choose|j: int| 0 <= j < s.len() && #[trigger] s[j];
        lemma_first_true_some(s, j);
    } else if first_true(s) is Some {
        let i = choose|i: int| is_first_true(s, i);
        assert(is_first_true(s, i));
        assert(s[i]);
    }
}

/// A string occurs in another where that one is made of something, the string,
/// and something more; and nowhere else.
pub proof fn law_substring_is_a_part(haystack: Seq<char>, needle: Seq<char>)
    ensures
        is_substring(haystack, needle) <==> exists|front: Seq<char>, back: Seq<char>|
            haystack == #[trigger] (front + needle + back),
{
    if is_substring(haystack, needle) {
        let at = choose|at: int| occurs_at(haystack, needle, at);
        let front = haystack.take(at);
        let back = haystack.skip(at + needle.len());
        assert(haystack =~= front + needle + back);
    }
    if exists|front: Seq<char>, back: Seq<char>| haystack == #[trigger] (front + needle + back) {
        let (front, back) = choose|front: Seq<char>, back: Seq<char>|
            haystack == #[trigger] (front + needle + back);
        let at = front.len() as int;
        assert(haystack.subrange(at, at + needle.len()) =~= needle);
        assert(occurs_at(haystack, needle, at));
    }
}

/// Case is ignored for the letters from A to Z and for nothing else: two strings
/// count as the same where they are equally long and differ at most by 32 in
/// the number of such a letter.
pub proof fn law_ascii_case(a: Seq<char>, b: Seq<char>)
    ensures
        same_ignoring_ascii_case(a, b) <==> a.len() == b.len() && forall|i: int|
            0 <= i < a.len() ==> {
                ||| #[trigger] a[i] == b[i]
                ||| a[i] as u32 + 32 == b[i] as u32 && 65 <= a[i] as u32 <= 90
                ||| b[i] as u32 + 32 == a[i] as u32 && 65 <= b[i] as u32 <= 90
            },
{
    assert forall|i: int| 0 <= i < a.len() && a.len() == b.len() implies (ascii_lower(
        #[trigger] a[i],
    ) == ascii_lower(b[i])) == (a[i] == b[i] || a[i] as u32 + 32 == b[i] as u32 && 65
        <= a[i] as u32 <= 90 || b[i] as u32 + 32 == a[i] as u32 && 65 <= b[i] as u32 <= 90) by {
        lemma_same_letter(a[i], b[i]);
    }
}

proof fn lemma_same_letter(x: char, y: char)
    ensures
        (ascii_lower(x) == ascii_lower(y)) == (x == y || x as u32 + 32 == y as u32 && 65
            <= x as u32 <= 90 || y as u32 + 32 == x as u32 && 65 <= y as u32 <= 90),
{
}

/// UTF-16 that holds no half of a pair is decoded unit by unit.
pub proof fn law_plain_utf16(units: Seq<u16>)
    requires
        forall|i: int| 0 <= i < units.len() ==> #[trigger] units[i] < 0xd800,
    ensures
        utf16_lossy(units).len() == units.len(),
        forall|i: int|
            0 <= i < units.len() ==> #[trigger] utf16_lossy(units)[i] == units[i] as char,
    decreases units.len(),
{
    if units.len() > 0 {
        let rest = units.skip(1);
        law_plain_utf16(rest);
        assert(units[0] < 0xd800);
        assert forall|i: int| 0 <= i < units.len() implies #[trigger] utf16_lossy(units)[i]
            == units[i] as char by {
            if i > 0 {
                assert(utf16_lossy(units)[i] == utf16_lossy(rest)[i - 1]);
                assert(rest[i - 1] == units[i]);
            }
        }
    }
}

/// The number that a row of digits stands for.
pub open spec fn number_of(digits: Seq<char>) -> int
    decreases digits.len(),
{
    if digits.len() == 0 {
        0
    } else {
        10 * number_of(digits.drop_last()) + (digits.last() as u32 - '0' as u32)
    }
}

/// A number in decimal is a row of digits that stands for that number, without
/// leading zeros.
pub proof fn law_decimal_stands_for_its_number(n: nat)
    ensures
        number_of(decimal(n)) == n,
        decimal(n).len() >= 1,
        forall|i: int|
            0 <= i < decimal(n).len() ==> '0' as u32 <= #[trigger] decimal(n)[i] as u32 <= '9' as u32,
        n > 0 ==> decimal(n)[0] != '0',
        n == 0 ==> decimal(n).len() == 1,
    decreases n,
{
    reveal_with_fuel(number_of, 2);
    if n >= 10 {
        law_decimal_stands_for_its_number(n / 10);
        assert(decimal(n).drop_last() =~= decimal(n / 10));
        assert(decimal(n)[0] == decimal(n / 10)[0]);
        assert forall|i: int| 0 <= i < decimal(n).len() implies '0' as u32
            <= #[trigger] decimal(n)[i] as u32 <= '9' as u32 by {
            if i < decimal(n / 10).len() {
                assert(decimal(n)[i] == decimal(n / 10)[i]);
            }
        }
    } else {
        assert(decimal(n).drop_last() =~= Seq::empty());
    }
}

/// Backslash and slash separate the components of a path, and nothing else
/// does.
pub proof fn law_separators(c: char)
    ensures
        is_separator('\\'),
        is_separator('/'),
        is_separator(c) ==> c == '\\' || c == '/',
{
}

/// What calls on strings answer: a number is written as digits that stand for
/// it; the last component of a path holds no separator and the path ends with
/// it; and one string is found in another exactly where it is a part of it.
pub proof fn law_string_calls(
    n: u64,
    digits: String,
    path: &str,
    name: String,
    haystack: &str,
    needle: &str,
    found: bool,
)
    requires
        call_ensures(to_decimal, (n,), digits),
        call_ensures(file_name_of, (path,), name),
        call_ensures(contains, (haystack, needle), found),
    ensures
        number_of(digits@) == n,
        name@.len() <= path@.len(),
        path@.skip(path@.len() - name@.len()) == name@,
        forall|i: int|
            0 <= i < name@.len() ==> #[trigger] name@[i] != '\\' && name@[i] != '/',
        name@.len() < path@.len() ==> path@[path@.len() - name@.len() - 1] == '\\' || path@[path@.len()
            - name@.len() - 1] == '/',
        found <==> exists|front: Seq<char>, back: Seq<char>|
            haystack@ == #[trigger] (front + needle@ + back),
{
    law_decimal_stands_for_its_number(n as nat);
    law_file_name(path@);
    law_substring_is_a_part(haystack@, needle@);
    assert forall|i: int| 0 <= i < name@.len() implies #[trigger] name@[i] != '\\' && name@[i]
        != '/' by {
        assert(!is_separator(file_name(path@)[i]));
    }
}

} // verus!
