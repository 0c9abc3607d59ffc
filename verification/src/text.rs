//! Text as the rest of the crate reads and writes it: trimming, tokens, decimal numbers.

use vstd::prelude::*;

verus! {

/// `String::push` appends one character and leaves what was there as it was.
pub assume_specification[ String::push ](text: &mut String, character: char)
    ensures
        final(text)@ == old(text)@.push(character),
;

/// Nothing is left to trim after trimming.
pub proof fn lemma_trim_idempotent(s: Seq<char>)
    ensures
        trim(trim(s)) == trim(s),
{
    lemma_trim_start_shape(s);
    lemma_trim_end_shape(trim_start(s));
    let t = trim_start(s);
    let u = trim_end(t);
    if u.len() > 0 {
        assert(u[0] == t[0]);
        assert(trim_start(u) == u);
    } else {
        assert(trim_start(u) =~= u);
    }
    lemma_trim_end_shape(u);
}

/// What is left of a text after trimming its start.
proof fn lemma_trim_start_shape(s: Seq<char>)
    ensures
        trim_start(s).len() > 0 ==> !is_whitespace(trim_start(s)[0]),
    decreases s.len(),
{
    if s.len() > 0 && is_whitespace(s[0]) {
        lemma_trim_start_shape(s.drop_first());
    }
}

/// What is left of a text after trimming its end.
proof fn lemma_trim_end_shape(s: Seq<char>)
    ensures
        trim_end(s).len() <= s.len(),
        trim_end(s) == s.subrange(0, trim_end(s).len() as int),
        trim_end(s).len() > 0 ==> !is_whitespace(trim_end(s).last()),
        s.len() > 0 && !is_whitespace(s.last()) ==> trim_end(s) == s,
    decreases s.len(),
{
    if s.len() > 0 && is_whitespace(s.last()) {
        lemma_trim_end_shape(s.drop_last());
        assert(s.drop_last().subrange(0, trim_end(s).len() as int) =~= s.subrange(
            0,
            trim_end(s).len() as int,
        ));
    } else {
        assert(s.subrange(0, s.len() as int) =~= s);
    }
}

/// Whether a character has the Unicode property White_Space.
pub open spec fn is_whitespace(c: char) -> bool {
    let code = c as int;
    ||| 0x09 <= code <= 0x0d
    ||| code == 0x20
    ||| code == 0x85
    ||| code == 0xa0
    ||| code == 0x1680
    ||| 0x2000 <= code <= 0x200a
    ||| code == 0x2028
    ||| code == 0x2029
    ||| code == 0x202f
    ||| code == 0x205f
    ||| code == 0x3000
}

/// Whether a character belongs to the Unicode category Cc.
pub open spec fn is_control(c: char) -> bool {
    let code = c as int;
    code <= 0x1f || 0x7f <= code <= 0x9f
}

/// The text without its leading whitespace.
pub open spec fn trim_start(s: Seq<char>) -> Seq<char>
    decreases s.len(),
{
    if s.len() > 0 && is_whitespace(s[0]) {
        trim_start(s.drop_first())
    } else {
        s
    }
}

/// The text without its trailing whitespace.
pub open spec fn trim_end(s: Seq<char>) -> Seq<char>
    decreases s.len(),
{
    if s.len() > 0 && is_whitespace(s.last()) {
        trim_end(s.drop_last())
    } else {
        s
    }
}

/// The text without whitespace at either end.
pub open spec fn trim(s: Seq<char>) -> Seq<char> {
    trim_end(trim_start(s))
}

/// A text without whitespace at its ends stays as it is.
pub proof fn lemma_trimmed(s: Seq<char>)
    requires
        s.len() > 0,
        !is_whitespace(s[0]),
        !is_whitespace(s.last()),
    ensures
        trim(s) == s,
{
}

/// Whether some character of the text is whitespace.
pub open spec fn has_whitespace(s: Seq<char>) -> bool {
    exists|i: int| 0 <= i < s.len() && is_whitespace(#[trigger] s[i])
}

/// Whether some character of the text is a control character.
pub open spec fn has_control(s: Seq<char>) -> bool {
    exists|i: int| 0 <= i < s.len() && is_control(#[trigger] s[i])
}

/// The text without every leading `c`.
pub open spec fn strip_leading(s: Seq<char>, c: char) -> Seq<char>
    decreases s.len(),
{
    if s.len() > 0 && s[0] == c {
        strip_leading(s.drop_first(), c)
    } else {
        s
    }
}

/// The text without every trailing `c`.
pub open spec fn strip_trailing(s: Seq<char>, c: char) -> Seq<char>
    decreases s.len(),
{
    if s.len() > 0 && s.last() == c {
        strip_trailing(s.drop_last(), c)
    } else {
        s
    }
}

/// The text without every `c` at either end.
pub open spec fn strip_both(s: Seq<char>, c: char) -> Seq<char> {
    strip_trailing(strip_leading(s, c), c)
}

/// Whether a text starts with a prefix.
pub open spec fn has_prefix(s: Seq<char>, prefix: Seq<char>) -> bool {
    prefix.len() <= s.len() && s.subrange(0, prefix.len() as int) =~= prefix
}

/// Whether a text ends with a suffix.
pub open spec fn has_suffix(s: Seq<char>, suffix: Seq<char>) -> bool {
    suffix.len() <= s.len() && s.subrange(s.len() - suffix.len(), s.len() as int) =~= suffix
}

/// What follows a prefix, where the text starts with it.
pub open spec fn after_prefix(s: Seq<char>, prefix: Seq<char>) -> Option<Seq<char>> {
    if has_prefix(s, prefix) {
        Some(s.subrange(prefix.len() as int, s.len() as int))
    } else {
        None
    }
}

/// The first position of a character, or the text's length where it does not occur.
pub open spec fn first_position(s: Seq<char>, c: char) -> int
    decreases s.len(),
{
    if s.len() == 0 {
        0
    } else if s[0] == c {
        0
    } else {
        1 + first_position(s.drop_first(), c)
    }
}

/// The pieces of a text between the occurrences of a separator.
pub open spec fn pieces(s: Seq<char>, separator: char) -> Seq<Seq<char>>
    decreases s.len(),
{
    let at = first_position(s, separator);
    if 0 <= at < s.len() {
        seq![s.subrange(0, at)] + pieces(s.subrange(at + 1, s.len() as int), separator)
    } else {
        seq![s]
    }
}

/// One ASCII letter in lower case; every other character as it is.
pub open spec fn lower(c: char) -> char {
    if 'A' <= c <= 'Z' {
        ((c as int) + 32) as char
    } else {
        c
    }
}

/// A text with its ASCII letters in lower case.
pub open spec fn lowercase(s: Seq<char>) -> Seq<char> {
    s.map_values(|c: char| lower(c))
}

/// The decimal digit that stands for a number below ten.
pub open spec fn digit_char(digit: nat) -> char {
    ((digit + 48) as int) as char
}

/// A number in decimal, without leading zeros.
pub open spec fn decimal(n: nat) -> Seq<char>
    decreases n,
{
    if n < 10 {
        seq![digit_char(n)]
    } else {
        decimal(n / 10).push(digit_char(n % 10))
    }
}

pub open spec fn is_digit(c: char) -> bool {
    '0' <= c <= '9'
}

pub open spec fn all_digits(s: Seq<char>) -> bool {
    forall|i: int| 0 <= i < s.len() ==> is_digit(#[trigger] s[i])
}

/// The number that a run of decimal digits stands for.
pub open spec fn digits_value(s: Seq<char>) -> nat
    decreases s.len(),
{
    if s.len() == 0 {
        0
    } else {
        digits_value(s.drop_last()) * 10 + ((s.last() as int) - 48) as nat
    }
}

/// A text without a plus sign in front.
pub open spec fn unsigned_part(s: Seq<char>) -> Seq<char> {
    if s.len() > 0 && s[0] == '+' {
        s.drop_first()
    } else {
        s
    }
}

/// A number as command lines and wire names spell it: an optional plus sign, then decimal digits,
/// with a value of at most `max`.
pub open spec fn parsed_number(s: Seq<char>, max: nat) -> Option<nat> {
    let digits = unsigned_part(s);
    if digits.len() > 0 && all_digits(digits) && digits_value(digits) <= max {
        Some(digits_value(digits))
    } else {
        None
    }
}

/// Whether a character is whitespace.
pub fn whitespace_char(c: char) -> (result: bool)
    ensures
        result == is_whitespace(c),
{
    let code: u32 = c as u32;
    (code >= 0x09 && code <= 0x0d) || code == 0x20 || code == 0x85 || code == 0xa0 || code == 0x1680
        || (code >= 0x2000 && code <= 0x200a) || code == 0x2028 || code == 0x2029 || code == 0x202f
        || code == 0x205f || code == 0x3000
}

/// Whether a character is a control character.
pub fn control_char(c: char) -> (result: bool)
    ensures
        result == is_control(c),
{
    let code: u32 = c as u32;
    code <= 0x1f || (code >= 0x7f && code <= 0x9f)
}

/// One ASCII letter in lower case.
pub fn lower_char(c: char) -> (result: char)
    ensures
        result == lower(c),
{
    if 'A' <= c && c <= 'Z' {
        let code: u8 = c as u8;
        (code + 32) as char
    } else {
        c
    }
}

/// Whether two texts are the same.
pub fn same(a: &str, b: &str) -> (result: bool)
    ensures
        result == (a@ == b@),
{
    a.to_owned() == b.to_owned()
}

/// A text without whitespace at either end.
pub fn trimmed(s: &str) -> (result: &str)
    ensures
        result@ == trim(s@),
{
    let n: usize = s.unicode_len();
    let mut start: usize = 0;
    proof {
        assert(s@.subrange(0, n as int) =~= s@);
    }
    while start < n && whitespace_char(s.get_char(start))
        invariant
            start <= n,
            n == s@.len(),
            trim_start(s@) == trim_start(s@.subrange(start as int, n as int)),
        ensures
            trim_start(s@) == s@.subrange(start as int, n as int),
            start <= n,
        decreases n - start,
    {
        proof {
            let rest = s@.subrange(start as int, n as int);
            assert(rest.drop_first() =~= s@.subrange(start + 1, n as int));
        }
        start = start + 1;
    }
    let mut end: usize = n;
    proof {
        assert(s@.subrange(start as int, end as int) =~= trim_start(s@));
    }
    while end > start && whitespace_char(s.get_char(end - 1))
        invariant
            start <= end <= n,
            n == s@.len(),
            trim(s@) == trim_end(s@.subrange(start as int, end as int)),
        ensures
            start <= end <= n,
            trim(s@) == s@.subrange(start as int, end as int),
        decreases end,
    {
        proof {
            let rest = s@.subrange(start as int, end as int);
            assert(rest.drop_last() =~= s@.subrange(start as int, end - 1));
        }
        end = end - 1;
    }
    s.substring_char(start, end)
}

/// A text without whitespace at its end.
pub fn trimmed_end(s: &str) -> (result: &str)
    ensures
        result@ == trim_end(s@),
{
    let n: usize = s.unicode_len();
    let mut end: usize = n;
    proof {
        assert(s@.subrange(0, n as int) =~= s@);
    }
    while end > 0 && whitespace_char(s.get_char(end - 1))
        invariant
            end <= n,
            n == s@.len(),
            trim_end(s@) == trim_end(s@.subrange(0, end as int)),
        ensures
            end <= n,
            trim_end(s@) == s@.subrange(0, end as int),
        decreases end,
    {
        proof {
            let rest = s@.subrange(0, end as int);
            assert(rest.drop_last() =~= s@.subrange(0, end - 1));
        }
        end = end - 1;
    }
    s.substring_char(0, end)
}

/// Whether some character of a text is whitespace.
pub fn contains_whitespace(s: &str) -> (result: bool)
    ensures
        result == has_whitespace(s@),
{
    let n: usize = s.unicode_len();
    let mut i: usize = 0;
    while i < n
        invariant
            i <= n,
            n == s@.len(),
            forall|j: int| 0 <= j < i ==> !is_whitespace(#[trigger] s@[j]),
        decreases n - i,
    {
        if whitespace_char(s.get_char(i)) {
            return true;
        }
        i = i + 1;
    }
    false
}

/// Whether some character of a text is a control character.
pub fn contains_control(s: &str) -> (result: bool)
    ensures
        result == has_control(s@),
{
    let n: usize = s.unicode_len();
    let mut i: usize = 0;
    while i < n
        invariant
            i <= n,
            n == s@.len(),
            forall|j: int| 0 <= j < i ==> !is_control(#[trigger] s@[j]),
        decreases n - i,
    {
        if control_char(s.get_char(i)) {
            return true;
        }
        i = i + 1;
    }
    false
}

/// Whether a character occurs in a text.
pub fn contains_char(s: &str, c: char) -> (result: bool)
    ensures
        result == s@.contains(c),
{
    let n: usize = s.unicode_len();
    let mut i: usize = 0;
    while i < n
        invariant
            i <= n,
            n == s@.len(),
            forall|j: int| 0 <= j < i ==> #[trigger] s@[j] != c,
        decreases n - i,
    {
        if s.get_char(i) == c {
            assert(s@[i as int] == c);
            return true;
        }
        i = i + 1;
    }
    false
}

/// Whether a text starts with a prefix.
pub fn starts_with(s: &str, prefix: &str) -> (result: bool)
    ensures
        result == has_prefix(s@, prefix@),
{
    let n: usize = s.unicode_len();
    let m: usize = prefix.unicode_len();
    if m > n {
        return false;
    }
    same(s.substring_char(0, m), prefix)
}

/// Whether a text ends with a suffix.
pub fn ends_with(s: &str, suffix: &str) -> (result: bool)
    ensures
        result == has_suffix(s@, suffix@),
{
    let n: usize = s.unicode_len();
    let m: usize = suffix.unicode_len();
    if m > n {
        return false;
    }
    same(s.substring_char(n - m, n), suffix)
}

/// What follows a prefix, where a text starts with it.
pub fn strip_prefix<'a>(s: &'a str, prefix: &str) -> (result: Option<&'a str>)
    ensures
        match result {
            Some(rest) => after_prefix(s@, prefix@) == Some(rest@),
            None => after_prefix(s@, prefix@) is None,
        },
{
    if starts_with(s, prefix) {
        Some(s.substring_char(prefix.unicode_len(), s.unicode_len()))
    } else {
        None
    }
}

/// A text without every `c` at either end.
pub fn trim_char(s: &str, c: char) -> (result: &str)
    ensures
        result@ == strip_both(s@, c),
{
    let n: usize = s.unicode_len();
    let mut start: usize = 0;
    proof {
        assert(s@.subrange(0, n as int) =~= s@);
    }
    while start < n && s.get_char(start) == c
        invariant
            start <= n,
            n == s@.len(),
            strip_leading(s@, c) == strip_leading(s@.subrange(start as int, n as int), c),
        ensures
            strip_leading(s@, c) == s@.subrange(start as int, n as int),
            start <= n,
        decreases n - start,
    {
        proof {
            let rest = s@.subrange(start as int, n as int);
            assert(rest.drop_first() =~= s@.subrange(start + 1, n as int));
        }
        start = start + 1;
    }
    trim_end_char(s.substring_char(start, n), c)
}

/// A text without every trailing `c`.
pub fn trim_end_char(s: &str, c: char) -> (result: &str)
    ensures
        result@ == strip_trailing(s@, c),
{
    let n: usize = s.unicode_len();
    let mut end: usize = n;
    proof {
        assert(s@.subrange(0, n as int) =~= s@);
    }
    while end > 0 && s.get_char(end - 1) == c
        invariant
            end <= n,
            n == s@.len(),
            strip_trailing(s@, c) == strip_trailing(s@.subrange(0, end as int), c),
        ensures
            end <= n,
            strip_trailing(s@, c) == s@.subrange(0, end as int),
        decreases end,
    {
        proof {
            let rest = s@.subrange(0, end as int);
            assert(rest.drop_last() =~= s@.subrange(0, end - 1));
        }
        end = end - 1;
    }
    s.substring_char(0, end)
}

/// The first position of a character is within the text exactly where the character occurs.
pub proof fn lemma_first_position(s: Seq<char>, c: char)
    ensures
        0 <= first_position(s, c) <= s.len(),
        first_position(s, c) < s.len() <==> s.contains(c),
        first_position(s, c) < s.len() ==> s[first_position(s, c)] == c,
        forall|j: int| 0 <= j < first_position(s, c) ==> #[trigger] s[j] != c,
    decreases s.len(),
{
    if s.len() > 0 && s[0] != c {
        let rest = s.drop_first();
        lemma_first_position(rest, c);
        let at = first_position(rest, c);
        assert forall|j: int| 0 <= j < 1 + at implies #[trigger] s[j] != c by {
            if j > 0 {
                assert(s[j] == rest[j - 1]);
            }
        }
        if at < rest.len() {
            assert(s[at + 1] == rest[at]);
        }
        if s.contains(c) {
            let k = choose|k: int| 0 <= k < s.len() && s[k] == c;
            assert(rest[k - 1] == c);
        }
    } else if s.len() > 0 {
        assert(s[0] == c);
    }
}

/// The first position of a character, or the text's length where it does not occur.
pub fn position_of(s: &str, c: char) -> (result: usize)
    ensures
        result == first_position(s@, c),
        result <= s@.len(),
        result < s@.len() <==> s@.contains(c),
{
    proof {
        lemma_first_position(s@, c);
    }
    let n: usize = s.unicode_len();
    let mut i: usize = 0;
    while i < n && s.get_char(i) != c
        invariant
            i <= n,
            n == s@.len(),
            i <= first_position(s@, c) <= n,
            forall|j: int| 0 <= j < i ==> #[trigger] s@[j] != c,
            first_position(s@, c) < n ==> s@[first_position(s@, c)] == c,
            forall|j: int| 0 <= j < first_position(s@, c) ==> #[trigger] s@[j] != c,
        ensures
            i == first_position(s@, c),
        decreases n - i,
    {
        i = i + 1;
    }
    i
}

/// What stands before and after the first occurrence of a character.
pub fn split_once(s: &str, c: char) -> (result: Option<(&str, &str)>)
    ensures
        match result {
            Some((before, after)) => {
                let at = first_position(s@, c);
                &&& s@.contains(c)
                &&& before@ == s@.subrange(0, at)
                &&& after@ == s@.subrange(at + 1, s@.len() as int)
            },
            None => !s@.contains(c),
        },
{
    let n: usize = s.unicode_len();
    let at: usize = position_of(s, c);
    if at < n {
        Some((s.substring_char(0, at), s.substring_char(at + 1, n)))
    } else {
        None
    }
}

/// The last position of a character, or -1 where it does not occur.
pub open spec fn last_position(s: Seq<char>, c: char) -> int
    decreases s.len(),
{
    if s.len() == 0 {
        -1
    } else if s.last() == c {
        s.len() - 1
    } else {
        last_position(s.drop_last(), c)
    }
}

/// What stands before and after the last occurrence of a character.
pub fn rsplit_once(s: &str, c: char) -> (result: Option<(&str, &str)>)
    ensures
        match result {
            Some((before, after)) => {
                let at = last_position(s@, c);
                &&& 0 <= at < s@.len()
                &&& before@ == s@.subrange(0, at)
                &&& after@ == s@.subrange(at + 1, s@.len() as int)
            },
            None => last_position(s@, c) == -1,
        },
{
    let n: usize = s.unicode_len();
    let mut i: usize = n;
    proof {
        assert(s@.subrange(0, n as int) =~= s@);
    }
    while i > 0
        invariant
            i <= n,
            n == s@.len(),
            last_position(s@, c) == last_position(s@.subrange(0, i as int), c),
        decreases i,
    {
        proof {
            assert(s@.subrange(0, i as int).drop_last() =~= s@.subrange(0, i - 1));
        }
        i = i - 1;
        if s.get_char(i) == c {
            return Some((s.substring_char(0, i), s.substring_char(i + 1, n)));
        }
    }
    None
}

/// The views of a list of texts.
pub open spec fn views(list: Seq<&str>) -> Seq<Seq<char>> {
    list.map_values(|item: &str| item@)
}

/// One more piece behind a separator.
pub proof fn lemma_one_more_piece(s: Seq<char>, separator: char, piece: Seq<char>)
    requires
        !piece.contains(separator),
    ensures
        pieces(s + seq![separator] + piece, separator) == pieces(s, separator).push(piece),
    decreases s.len(),
{
    let whole = s + seq![separator] + piece;
    let at = first_position(s, separator);
    let found = first_position(whole, separator);
    lemma_first_position(s, separator);
    lemma_first_position(whole, separator);
    assert(whole[s.len() as int] == separator);
    assert(forall|i: int| 0 <= i < s.len() ==> whole[i] == s[i]);
    if at < s.len() {
        let rest = s.subrange(at + 1, s.len() as int);
        assert(whole[at] == separator);
        if found < at {
            assert(whole[found] == s[found]);
        }
        assert(found == at);
        assert(whole.subrange(at + 1, whole.len() as int) =~= rest + seq![separator] + piece);
        assert(whole.subrange(0, at) =~= s.subrange(0, at));
        lemma_one_more_piece(rest, separator, piece);
        assert(pieces(whole, separator) =~= pieces(s, separator).push(piece));
    } else {
        if found < s.len() {
            assert(whole[found] == s[found]);
        }
        assert(found == s.len());
        assert(whole.subrange(0, found) =~= s);
        assert(whole.subrange(found + 1, whole.len() as int) =~= piece);
        lemma_first_position(piece, separator);
        assert(pieces(piece, separator) =~= seq![piece]);
        assert(pieces(whole, separator) =~= pieces(s, separator).push(piece));
    }
}

/// The views of a list of strings.
pub open spec fn string_views(list: Seq<String>) -> Seq<Seq<char>> {
    list.map_values(|item: String| item@)
}

/// The pieces of a text between the occurrences of a separator.
pub fn split(s: &str, separator: char) -> (result: Vec<&str>)
    ensures
        views(result@) == pieces(s@, separator),
        result@.len() >= 1,
{
    let n: usize = s.unicode_len();
    let mut result: Vec<&str> = Vec::new();
    let mut start: usize = 0;
    proof {
        assert(s@.subrange(0, n as int) =~= s@);
        assert(views(result@) + pieces(s@, separator) =~= pieces(s@, separator));
    }
    loop
        invariant_except_break
            start <= n,
            n == s@.len(),
            views(result@) + pieces(s@.subrange(start as int, n as int), separator) == pieces(
                s@,
                separator,
            ),
        ensures
            views(result@) == pieces(s@, separator),
            result@.len() >= 1,
        decreases n - start,
    {
        let rest: &str = s.substring_char(start, n);
        let at: usize = position_of(rest, separator);
        if at < n - start {
            let ghost before = result@;
            result.push(rest.substring_char(0, at));
            proof {
                let tail = pieces(rest@.subrange(at + 1, rest@.len() as int), separator);
                assert(rest@.subrange(at + 1, rest@.len() as int) =~= s@.subrange(
                    start + at + 1,
                    n as int,
                ));
                assert(views(result@) =~= views(before).push(rest@.subrange(0, at as int)));
                assert(views(result@) + tail =~= views(before) + (seq![rest@.subrange(0, at as int)]
                    + tail));
            }
            start = start + at + 1;
        } else {
            let ghost before = result@;
            result.push(rest);
            proof {
                assert(views(result@) =~= views(before) + seq![rest@]);
            }
            break;
        }
    }
    result
}

/// A text with its ASCII letters in lower case.
pub fn to_lowercase(s: &str) -> (result: String)
    ensures
        result@ == lowercase(s@),
{
    let n: usize = s.unicode_len();
    let mut result = String::new();
    let mut i: usize = 0;
    while i < n
        invariant
            i <= n,
            n == s@.len(),
            result@ =~= lowercase(s@.subrange(0, i as int)),
        decreases n - i,
    {
        result.push(lower_char(s.get_char(i)));
        i = i + 1;
    }
    proof {
        assert(s@.subrange(0, n as int) =~= s@);
    }
    result
}


/// A number written in decimal reads back as itself.
pub proof fn lemma_decimal_value(n: nat)
    ensures
        decimal(n).len() >= 1,
        all_digits(decimal(n)),
        digits_value(decimal(n)) == n,
    decreases n,
{
    if n < 10 {
        assert(decimal(n).drop_last() =~= Seq::<char>::empty());
        assert(digits_value(decimal(n).drop_last()) == 0);
    } else {
        lemma_decimal_value(n / 10);
        let shorter = decimal(n / 10);
        assert(decimal(n).drop_last() =~= shorter);
    }
}

/// A number written in decimal parses to itself, under every bound it meets.
pub proof fn lemma_decimal_parses(n: nat, max: nat)
    requires
        n <= max,
    ensures
        parsed_number(decimal(n), max) == Some(n),
{
    lemma_decimal_value(n);
    assert(is_digit(decimal(n)[0]));
}

/// A longer run of digits never stands for a smaller number.
proof fn lemma_digits_value_grows(s: Seq<char>, k: int)
    requires
        0 <= k <= s.len(),
        all_digits(s),
    ensures
        digits_value(s.subrange(0, k)) <= digits_value(s),
    decreases s.len() - k,
{
    if k < s.len() {
        lemma_digits_value_grows(s, k + 1);
        let longer = s.subrange(0, k + 1);
        assert(longer.drop_last() =~= s.subrange(0, k));
        assert(is_digit(s[k]));
    } else {
        assert(s.subrange(0, k) =~= s);
    }
}

/// The decimal digit of a number below ten.
fn digit_text(digit: u64) -> (result: char)
    requires
        digit < 10,
    ensures
        result == digit_char(digit as nat),
{
    ((digit as u8) + 48u8) as char
}

/// A number in decimal.
pub fn decimal_text(n: u64) -> (result: String)
    ensures
        result@ == decimal(n as nat),
    decreases n,
{
    if n < 10 {
        let mut result = String::new();
        result.push(digit_text(n));
        proof {
            assert(result@ =~= decimal(n as nat));
        }
        result
    } else {
        let mut result = decimal_text(n / 10);
        result.push(digit_text(n % 10));
        result
    }
}

/// Whether the digits at the start of a text already stand for more than `max`.
pub open spec fn overflows(digits: Seq<char>, max: nat) -> bool {
    exists|k: int|
        0 <= k <= digits.len() && all_digits(#[trigger] digits.subrange(0, k)) && digits_value(
            digits.subrange(0, k),
        ) > max
}

/// Why a text is no number of at most `max`, read from left to right.
pub open spec fn number_failure(s: Seq<char>, max: nat) -> Seq<char> {
    if s.len() == 0 {
        "cannot parse integer from empty string"@
    } else if overflows(unsigned_part(s), max) {
        "number too large to fit in target type"@
    } else {
        "invalid digit found in string"@
    }
}

/// Parse an optional plus sign and decimal digits with a value of at most `max`, or say why the text
/// is none.
pub fn parse_number(s: &str, max: u32) -> (result: Result<u32, &'static str>)
    ensures
        match result {
            Ok(value) => parsed_number(s@, max as nat) == Some(value as nat),
            Err(reason) => parsed_number(s@, max as nat) is None && reason@ == number_failure(
                s@,
                max as nat,
            ),
        },
{
    let n: usize = s.unicode_len();
    if n == 0 {
        return Err("cannot parse integer from empty string");
    }
    let start: usize = if s.get_char(0) == '+' {
        1
    } else {
        0
    };
    let digits: &str = s.substring_char(start, n);
    let count: usize = digits.unicode_len();
    proof {
        if start == 1 {
            assert(digits@ =~= s@.drop_first());
        } else {
            assert(digits@ =~= s@);
        }
    }
    let mut value: u64 = 0;
    let mut i: usize = 0;
    while i < count
        invariant
            i <= count,
            s@.len() > 0,
            count == digits@.len(),
            value <= max,
            digits@ == unsigned_part(s@),
            value == digits_value(digits@.subrange(0, i as int)),
            forall|j: int| 0 <= j < i ==> is_digit(#[trigger] digits@[j]),
        decreases count - i,
    {
        let c: char = digits.get_char(i);
        if !('0' <= c && c <= '9') {
            assert(!is_digit(digits@[i as int]));
            proof {
                assert forall|k: int|
                    0 <= k <= digits@.len() && all_digits(
                        #[trigger] digits@.subrange(0, k),
                    ) implies digits_value(digits@.subrange(0, k)) <= max by {
                    if k > i {
                        assert(!is_digit(digits@.subrange(0, k)[i as int]));
                    }
                    lemma_digits_prefix(digits@, k, i as int);
                }
            }
            return Err("invalid digit found in string");
        }
        let next: u64 = value * 10 + ((c as u32) - 48) as u64;
        proof {
            let longer = digits@.subrange(0, i + 1);
            assert(longer.drop_last() =~= digits@.subrange(0, i as int));
            assert(all_digits(longer));
        }
        if next > max as u64 {
            proof {
                if all_digits(digits@) {
                    lemma_digits_value_grows(digits@, i + 1);
                }
            }
            return Err("number too large to fit in target type");
        }
        value = next;
        i = i + 1;
    }
    proof {
        assert(digits@.subrange(0, i as int) =~= digits@);
        if count == 0 {
            assert forall|k: int| 0 <= k <= digits@.len() implies digits_value(
                #[trigger] digits@.subrange(0, k),
            ) <= max by {
                assert(digits@.subrange(0, k).len() == 0);
            }
        }
    }
    if count == 0 {
        return Err("invalid digit found in string");
    }
    Ok(value as u32)
}

/// A run of digits at the start of another stands for no larger number.
proof fn lemma_digits_prefix(digits: Seq<char>, k: int, i: int)
    requires
        0 <= k <= i <= digits.len(),
        all_digits(digits.subrange(0, i)),
    ensures
        digits_value(digits.subrange(0, k)) <= digits_value(digits.subrange(0, i)),
{
    lemma_digits_value_grows(digits.subrange(0, i), k);
    assert(digits.subrange(0, i).subrange(0, k) =~= digits.subrange(0, k));
}

/// Whether a text is what stays of another one when nothing but whitespace is taken off its ends, and
/// all of it.
pub open spec fn is_without_space_around(s: Seq<char>, inner: Seq<char>) -> bool {
    &&& exists|i: int, j: int|
        0 <= i <= j <= s.len() && inner == #[trigger] s.subrange(i, j) && (forall|k: int|
            0 <= k < i || j <= k < s.len() ==> is_whitespace(#[trigger] s[k]))
    &&& inner.len() > 0 ==> !is_whitespace(inner[0]) && !is_whitespace(inner.last())
}

/// Trimming takes off the whitespace around a text, and nothing else.
pub proof fn trimming_takes_off_space_only(s: Seq<char>)
    ensures
        is_without_space_around(s, trim(s)),
        trim(s).len() == 0 <==> forall|k: int| 0 <= k < s.len() ==> is_whitespace(#[trigger] s[k]),
{
    lemma_trim_start_place(s);
    let t = trim_start(s);
    let i = s.len() - t.len();
    lemma_trim_end_place(t);
    lemma_trim_start_shape(s);
    lemma_trim_end_shape(t);
    let u = trim_end(t);
    let j = i + u.len();
    assert(u =~= s.subrange(i, j));
    assert forall|k: int| 0 <= k < i || j <= k < s.len() implies is_whitespace(#[trigger] s[k]) by {
        if k >= j {
            assert(s[k] == t[k - i]);
        }
    }
    if u.len() > 0 {
        assert(u[0] == t[0]);
        assert(!is_whitespace(s[i]));
    }
}

proof fn lemma_trim_start_place(s: Seq<char>)
    ensures
        trim_start(s).len() <= s.len(),
        trim_start(s) == s.subrange(s.len() - trim_start(s).len(), s.len() as int),
        forall|k: int|
            0 <= k < s.len() - trim_start(s).len() ==> is_whitespace(#[trigger] s[k]),
    decreases s.len(),
{
    if s.len() > 0 && is_whitespace(s[0]) {
        let rest = s.drop_first();
        lemma_trim_start_place(rest);
        assert(trim_start(s) =~= s.subrange(s.len() - trim_start(s).len(), s.len() as int));
        assert forall|k: int| 0 <= k < s.len() - trim_start(s).len() implies is_whitespace(
            #[trigger] s[k],
        ) by {
            if k > 0 {
                assert(rest[k - 1] == s[k]);
            }
        }
    } else {
        assert(s.subrange(0, s.len() as int) =~= s);
    }
}

proof fn lemma_trim_end_place(s: Seq<char>)
    ensures
        forall|k: int| trim_end(s).len() <= k < s.len() ==> is_whitespace(#[trigger] s[k]),
    decreases s.len(),
{
    if s.len() > 0 && is_whitespace(s.last()) {
        let rest = s.drop_last();
        lemma_trim_end_place(rest);
        assert forall|k: int| trim_end(s).len() <= k < s.len() implies is_whitespace(
            #[trigger] s[k],
        ) by {
            if k < rest.len() {
                assert(rest[k] == s[k]);
            }
        }
    }
}

/// Spaces, tabs and line ends are whitespace, and letters, digits and the signs of addresses and names
/// are not; what is whitespace in ASCII is no more than that.
pub proof fn whitespace_in_plain_text(c: char)
    requires
        (c as int) < 0x80,
    ensures
        is_whitespace(c) <==> c == ' ' || c == '\t' || c == '\n' || c == '\r' || c as int == 0x0b
            || c as int == 0x0c,
        is_control(c) <==> (c as int) < 0x20 || c as int == 0x7f,
{
}

/// Pieces with a separator between them.
pub open spec fn joined_by(pieces: Seq<Seq<char>>, separator: char) -> Seq<char>
    decreases pieces.len(),
{
    if pieces.len() == 0 {
        Seq::empty()
    } else if pieces.len() == 1 {
        pieces[0]
    } else {
        pieces[0] + seq![separator] + joined_by(pieces.drop_first(), separator)
    }
}

/// A text is split at every separator and nowhere else: its pieces hold none, and with separators
/// between them they are the text.
pub proof fn pieces_make_up_the_text(s: Seq<char>, separator: char)
    ensures
        pieces(s, separator).len() >= 1,
        joined_by(pieces(s, separator), separator) == s,
        forall|i: int|
            0 <= i < pieces(s, separator).len() ==> !(#[trigger] pieces(s, separator)[i]).contains(
                separator,
            ),
    decreases s.len(),
{
    lemma_first_position(s, separator);
    let at = first_position(s, separator);
    let all = pieces(s, separator);
    if at < s.len() {
        let rest = s.subrange(at + 1, s.len() as int);
        pieces_make_up_the_text(rest, separator);
        let head = s.subrange(0, at);
        assert(all.drop_first() =~= pieces(rest, separator));
        assert(all[0] == head);
        assert(s =~= head + seq![separator] + rest);
        assert forall|i: int| 0 <= i < all.len() implies !(#[trigger] all[i]).contains(
            separator,
        ) by {
            if i == 0 {
                assert forall|j: int| 0 <= j < head.len() implies head[j] != separator by {
                    assert(head[j] == s[j]);
                }
            } else {
                assert(all[i] == pieces(rest, separator)[i - 1]);
            }
        }
    }
}

/// A text that is split once is split at the first separator, or at the last one, and at none where it
/// holds none; nothing of it is lost.
pub proof fn splitting_once_loses_nothing<'a>(
    s: &'a str,
    c: char,
    first: Option<(&'a str, &'a str)>,
    last: Option<(&'a str, &'a str)>,
)
    requires
        call_ensures(split_once, (s, c), first),
        call_ensures(rsplit_once, (s, c), last),
    ensures
        first is Some <==> s@.contains(c),
        last is Some <==> s@.contains(c),
        first matches Some((before, after)) ==> before@ + seq![c] + after@ == s@
            && !before@.contains(c),
        last matches Some((before, after)) ==> before@ + seq![c] + after@ == s@
            && !after@.contains(c),
{
    lemma_first_position(s@, c);
    lemma_last_position(s@, c);
    if let Some((before, after)) = first {
        assert(before@ + seq![c] + after@ =~= s@);
        assert forall|j: int| 0 <= j < before@.len() implies before@[j] != c by {
            assert(before@[j] == s@[j]);
        }
    }
    if let Some((before, after)) = last {
        assert(before@ + seq![c] + after@ =~= s@);
        assert forall|j: int| 0 <= j < after@.len() implies after@[j] != c by {
            assert(after@[j] == s@[last_position(s@, c) + 1 + j]);
        }
    }
}

proof fn lemma_last_position(s: Seq<char>, c: char)
    ensures
        -1 <= last_position(s, c) < s.len(),
        last_position(s, c) >= 0 <==> s.contains(c),
        last_position(s, c) >= 0 ==> s[last_position(s, c)] == c,
        forall|j: int| last_position(s, c) < j < s.len() ==> #[trigger] s[j] != c,
    decreases s.len(),
{
    if s.len() > 0 && s.last() != c {
        let rest = s.drop_last();
        lemma_last_position(rest, c);
        if s.contains(c) {
            let k = choose|k: int| 0 <= k < s.len() && s[k] == c;
            assert(rest[k] == c);
        }
        assert forall|j: int| last_position(s, c) < j < s.len() implies #[trigger] s[j] != c by {
            if j < rest.len() {
                assert(rest[j] == s[j]);
            }
        }
    } else if s.len() > 0 {
        assert(s[s.len() - 1] == c);
    }
}

/// A number is spelled digit by digit, from the highest to the lowest, with no zero in front; a number
/// that is read back from its digits is the same.
pub proof fn numbers_are_spelled_digit_by_digit(n: nat, digit: nat, max: nat)
    requires
        digit < 10,
    ensures
        digit_char(digit) as int == '0' as int + digit,
        decimal(digit) == seq![digit_char(digit)],
        n > 0 ==> decimal(10 * n + digit) == decimal(n).push(digit_char(digit)),
        n > 0 ==> decimal(n)[0] != '0',
        n <= max <==> parsed_number(decimal(n), max) == Some(n),
        parsed_number(seq!['+'] + decimal(n), max) == parsed_number(decimal(n), max),
{
    lemma_decimal_value(n);
    if n <= max {
        lemma_decimal_parses(n, max);
    }
    if n > 0 {
        lemma_no_leading_zero(n);
    }
    assert(is_digit(decimal(n)[0]));
    assert((seq!['+'] + decimal(n)).drop_first() =~= decimal(n));
}

proof fn lemma_no_leading_zero(n: nat)
    requires
        n > 0,
    ensures
        decimal(n).len() > 0,
        decimal(n)[0] != '0',
    decreases n,
{
    if n >= 10 {
        lemma_no_leading_zero(n / 10);
    }
}

/// Only digits are read as a number, with at most a plus sign in front, and one more digit is ten times
/// as much and that digit.
pub proof fn numbers_are_read_digit_by_digit(s: Seq<char>, c: char, max: nat)
    ensures
        parsed_number(s, max) is Some ==> s.len() > 0 && (forall|i: int|
            0 < i < s.len() ==> '0' <= #[trigger] s[i] <= '9') && ('0' <= s[0] <= '9' || s[0]
            == '+'),
        parsed_number(s, max) matches Some(value) ==> value <= max,
        parsed_number(s, max) is Some && '0' <= c <= '9' && 10 * parsed_number(s, max)->Some_0 + (
        c as int - '0' as int) <= max ==> parsed_number(s.push(c), max) == Some(
            (10 * parsed_number(s, max)->Some_0 + (c as int - '0' as int)) as nat,
        ),
        parsed_number(Seq::<char>::empty(), max) is None,
{
    let digits = unsigned_part(s);
    if parsed_number(s, max) is Some {
        assert forall|i: int| 0 < i < s.len() implies '0' <= #[trigger] s[i] <= '9' by {
            if s[0] == '+' {
                assert(digits[i - 1] == s[i]);
            } else {
                assert(digits[i] == s[i]);
            }
        }
        if s[0] != '+' {
            assert(is_digit(digits[0]));
        }
        if '0' <= c <= '9' {
            let more = digits.push(c);
            assert(unsigned_part(s.push(c)) =~= more);
            assert(more.drop_last() =~= digits);
            assert forall|i: int| 0 <= i < more.len() implies is_digit(#[trigger] more[i]) by {
                if i < digits.len() {
                    assert(is_digit(digits[i]));
                }
            }
        }
    }
}

/// Letters lose their capitals and nothing else changes; doing it twice does no more.
pub proof fn lowering_changes_capitals_only(c: char)
    ensures
        'A' <= c <= 'Z' ==> lower(c) as int - 'a' as int == c as int - 'A' as int,
        !('A' <= c <= 'Z') ==> lower(c) == c,
        lower(lower(c)) == lower(c),
{
}

/// What stands behind a prefix is found, and nothing is found where the prefix is not in front.
pub proof fn prefixes_and_suffixes(prefix: Seq<char>, s: Seq<char>, t: Seq<char>)
    ensures
        after_prefix(prefix + s, prefix) == Some(s),
        has_prefix(prefix + s, prefix) && has_suffix(prefix + s, s),
        after_prefix(t, prefix) matches Some(rest) ==> t == prefix + rest,
        has_suffix(t, s) ==> exists|head: Seq<char>| t == #[trigger] (head + s),
{
    assert((prefix + s).subrange(0, prefix.len() as int) =~= prefix);
    assert((prefix + s).subrange(prefix.len() as int, (prefix + s).len() as int) =~= s);
    assert((prefix + s).subrange((prefix + s).len() - s.len(), (prefix + s).len() as int) =~= s);
    if has_prefix(t, prefix) {
        let rest = t.subrange(prefix.len() as int, t.len() as int);
        assert(t =~= t.subrange(0, prefix.len() as int) + rest);
    }
    if has_suffix(t, s) {
        let head = t.subrange(0, t.len() - s.len());
        assert(t =~= head + s);
    }
}

/// A character is stripped from the ends of a text as often as it stands there, and nowhere else.
pub proof fn stripping_leaves_the_middle(s: Seq<char>, c: char)
    ensures
        ({
            let end = strip_trailing(s, c);
            &&& end.len() <= s.len()
            &&& end == s.subrange(0, end.len() as int)
            &&& end.len() > 0 ==> end.last() != c
            &&& forall|k: int| end.len() <= k < s.len() ==> #[trigger] s[k] == c
        }),
        ({
            let start = strip_leading(s, c);
            &&& start.len() <= s.len()
            &&& start == s.subrange(s.len() - start.len(), s.len() as int)
            &&& start.len() > 0 ==> start[0] != c
            &&& forall|k: int| 0 <= k < s.len() - start.len() ==> #[trigger] s[k] == c
        }),
    decreases s.len(),
{
    assert(s.subrange(0, s.len() as int) =~= s);
    if s.len() > 0 {
        if s.last() == c {
            let rest = s.drop_last();
            stripping_leaves_the_middle(rest, c);
            let end = strip_trailing(s, c);
            assert(end =~= s.subrange(0, end.len() as int));
            assert forall|k: int| end.len() <= k < s.len() implies #[trigger] s[k] == c by {
                if k < rest.len() {
                    assert(rest[k] == s[k]);
                }
            }
        }
        if s[0] == c {
            let rest = s.drop_first();
            stripping_leaves_the_middle(rest, c);
            let start = strip_leading(s, c);
            assert(start =~= s.subrange(s.len() - start.len(), s.len() as int));
            assert forall|k: int| 0 <= k < s.len() - start.len() implies #[trigger] s[k] == c by {
                if k > 0 {
                    assert(rest[k - 1] == s[k]);
                }
            }
        }
    }
}

/// What is left of a trimmed text is the text without the space around it, and trimming its end leaves
/// its beginning.
pub proof fn a_trimmed_text_has_no_space_around(s: &str, inner: &str, start: &str)
    requires
        call_ensures(trimmed, (s,), inner),
        call_ensures(trimmed_end, (s,), start),
    ensures
        is_without_space_around(s@, inner@),
        start@.len() <= s@.len(),
        start@ == s@.subrange(0, start@.len() as int),
        forall|k: int| start@.len() <= k < s@.len() ==> is_whitespace(#[trigger] s@[k]),
        start@.len() > 0 ==> !is_whitespace(start@.last()),
{
    trimming_takes_off_space_only(s@);
    lemma_trim_end_place(s@);
    lemma_trim_end_shape(s@);
}

/// What is looked for in a text is found where it is there, and nowhere else.
pub proof fn what_is_looked_for_is_found_where_it_is(
    s: &str,
    c: char,
    part: &str,
    held: bool,
    at: usize,
    begins: bool,
    ends: bool,
    spaced: bool,
    controlled: bool,
    equal: bool,
)
    requires
        call_ensures(contains_char, (s, c), held),
        call_ensures(position_of, (s, c), at),
        call_ensures(starts_with, (s, part), begins),
        call_ensures(ends_with, (s, part), ends),
        call_ensures(contains_whitespace, (s,), spaced),
        call_ensures(contains_control, (s,), controlled),
        call_ensures(same, (s, part), equal),
    ensures
        held <==> exists|i: int| 0 <= i < s@.len() && s@[i] == c,
        held <==> at < s@.len(),
        held ==> s@[at as int] == c,
        forall|j: int| 0 <= j < at ==> #[trigger] s@[j] != c,
        begins <==> part@.len() <= s@.len() && s@.subrange(0, part@.len() as int) == part@,
        ends <==> part@.len() <= s@.len() && s@.subrange(
            s@.len() - part@.len(),
            s@.len() as int,
        ) == part@,
        spaced <==> exists|i: int| 0 <= i < s@.len() && is_whitespace(#[trigger] s@[i]),
        controlled <==> exists|i: int| 0 <= i < s@.len() && is_control(#[trigger] s@[i]),
        equal <==> s@ == part@,
{
    lemma_first_position(s@, c);
}

/// What is behind a prefix is the rest of the text, where it begins with it, and nothing where it does
/// not. What is stripped of a character keeps everything in between.
pub proof fn the_rest_is_what_is_left(
    s: &str,
    prefix: &str,
    rest: Option<&str>,
    c: char,
    end: &str,
    both: &str,
)
    requires
        call_ensures(strip_prefix, (s, prefix), rest),
        call_ensures(trim_end_char, (s, c), end),
        call_ensures(trim_char, (s, c), both),
    ensures
        rest matches Some(left) ==> s@ == prefix@ + left@,
        rest is None ==> !has_prefix(s@, prefix@),
        end@.len() <= s@.len(),
        end@ == s@.subrange(0, end@.len() as int),
        end@.len() > 0 ==> end@.last() != c,
        forall|k: int| end@.len() <= k < s@.len() ==> #[trigger] s@[k] == c,
        both@.len() > 0 ==> both@[0] != c && both@.last() != c,
        both@.len() <= s@.len(),
{
    if rest is Some {
        assert(s@ =~= prefix@ + rest->Some_0@);
    }
    stripping_leaves_the_middle(s@, c);
    let start = strip_leading(s@, c);
    stripping_leaves_the_middle(start, c);
    if both@.len() > 0 {
        assert(both@[0] == start[0]);
    }
}

/// The pieces of a text with separators between them are the text, and none of them holds one.
pub proof fn a_split_text_is_put_together_again(s: &str, separator: char, parts: Vec<&str>)
    requires
        call_ensures(split, (s, separator), parts),
    ensures
        joined_by(views(parts@), separator) == s@,
        forall|i: int| 0 <= i < parts@.len() ==> !(#[trigger] parts@[i])@.contains(separator),
{
    pieces_make_up_the_text(s@, separator);
    assert forall|i: int| 0 <= i < parts@.len() implies !(#[trigger] parts@[i])@.contains(
        separator,
    ) by {
        assert(views(parts@)[i] == parts@[i]@);
    }
}

/// A text in lower case has the same letters, only small; nothing else of it changes.
pub proof fn lowering_keeps_the_letters(s: &str, low: String, c: char, small: char)
    requires
        call_ensures(to_lowercase, (s,), low),
        call_ensures(lower_char, (c,), small),
    ensures
        low@.len() == s@.len(),
        forall|i: int|
            0 <= i < s@.len() ==> {
                &&& 'A' <= s@[i] <= 'Z' ==> (#[trigger] low@[i]) as int == s@[i] as int + 32
                &&& !('A' <= s@[i] <= 'Z') ==> low@[i] == s@[i]
            },
        'A' <= c <= 'Z' ==> small as int == c as int + 32,
        !('A' <= c <= 'Z') ==> small == c,
{
}

/// A number is read back from its digits, and only digits below the bound are read as one.
pub proof fn a_written_number_is_read_as_it_was(
    n: u32,
    max: u32,
    text: String,
    s: &str,
    read: Result<u32, &'static str>,
)
    requires
        call_ensures(decimal_text, (n as u64,), text),
        s@ == text@,
        call_ensures(parse_number, (s, max), read),
    ensures
        n <= max ==> read is Ok && read->Ok_0 == n,
        n > max ==> read is Err,
        forall|i: int| 0 <= i < text@.len() ==> '0' <= #[trigger] text@[i] <= '9',
        text@.len() > 1 ==> text@[0] != '0',
{
    lemma_decimal_value(n as nat);
    assert(is_digit(text@[0]));
    if n <= max {
        lemma_decimal_parses(n as nat, max as nat);
    }
    if n > 0 {
        lemma_no_leading_zero(n as nat);
    }
    assert forall|i: int| 0 <= i < text@.len() implies '0' <= #[trigger] text@[i] <= '9' by {
        assert(is_digit(text@[i]));
    }
}

} // verus!
