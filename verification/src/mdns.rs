//! Announcing a device on the local network, and the peers that were announced there.

use vstd::prelude::*;

use crate::address::IpAddress;
use crate::discovery::{
    build_discovery_txt_record, parse_discovery_txt_record, DiscoveryTxtRecord,
};
use crate::order::{sort_addresses, text_place, Place};
use crate::peers::DiscoveredPeer;
use crate::text::{
    control_char, ends_with, split_once, to_lowercase, trim_char, trimmed, whitespace_char,
};

verus! {

/// The longest label that a name on the network can have, in bytes.
pub const MAX_LABEL_BYTES: usize = 63;

/// How many bytes a character takes.
pub open spec fn char_bytes(c: char) -> nat {
    if (c as int) < 0x80 {
        1
    } else if (c as int) < 0x800 {
        2
    } else if (c as int) < 0x10000 {
        3
    } else {
        4
    }
}

/// The longest start of a text that takes at most so many bytes.
pub open spec fn truncated(s: Seq<char>, max_bytes: nat) -> Seq<char>
    decreases s.len(),
{
    if s.len() == 0 || char_bytes(s[0]) > max_bytes {
        Seq::empty()
    } else {
        seq![s[0]] + truncated(s.drop_first(), (max_bytes - char_bytes(s[0])) as nat)
    }
}

/// The longest start of a text that takes at most so many bytes.
pub fn truncate_utf8_bytes(value: &str, max_bytes: usize) -> (result: String)
    ensures
        result@ == truncated(value@, max_bytes as nat),
{
    let n: usize = value.unicode_len();
    let mut result = String::new();
    let mut left: usize = max_bytes;
    let mut i: usize = 0;
    proof {
        assert(value@.subrange(0, n as int) =~= value@);
        assert(result@ + truncated(value@, max_bytes as nat) =~= truncated(
            value@,
            max_bytes as nat,
        ));
    }
    while i < n
        invariant
            i <= n,
            n == value@.len(),
            result@ + truncated(value@.subrange(i as int, n as int), left as nat) == truncated(
                value@,
                max_bytes as nat,
            ),
        decreases n - i,
    {
        let c = value.get_char(i);
        let code: u32 = c as u32;
        let bytes: usize = if code < 0x80 {
            1
        } else if code < 0x800 {
            2
        } else if code < 0x10000 {
            3
        } else {
            4
        };
        let ghost rest = value@.subrange(i as int, n as int);
        let ghost so_far = result@;
        proof {
            assert(rest[0] == c);
            assert(rest.drop_first() =~= value@.subrange(i + 1, n as int));
        }
        if bytes > left {
            proof {
                assert(result@ + Seq::<char>::empty() =~= result@);
            }
            return result;
        }
        result.push(c);
        left = left - bytes;
        proof {
            assert(result@ =~= so_far + seq![c]);
            assert(so_far + (seq![c] + truncated(rest.drop_first(), left as nat)) =~= result@
                + truncated(rest.drop_first(), left as nat));
        }
        i = i + 1;
    }
    proof {
        assert(value@.subrange(n as int, n as int).len() == 0);
        assert(result@ + Seq::<char>::empty() =~= result@);
    }
    result
}

/// A text with each control character made a space.
pub open spec fn uncontrolled(s: Seq<char>) -> Seq<char> {
    s.map_values(
        |c: char|
            if crate::text::is_control(c) {
                ' '
            } else {
                c
            },
    )
}

/// A text with each control character made a space.
fn replace_control(s: &str) -> (result: String)
    ensures
        result@ == uncontrolled(s@),
{
    let n: usize = s.unicode_len();
    let mut result = String::new();
    let mut i: usize = 0;
    while i < n
        invariant
            i <= n,
            n == s@.len(),
            result@ =~= uncontrolled(s@.subrange(0, i as int)),
        decreases n - i,
    {
        let c = s.get_char(i);
        result.push(
            if control_char(c) {
                ' '
            } else {
                c
            },
        );
        i = i + 1;
    }
    proof {
        assert(s@.subrange(0, n as int) =~= s@);
    }
    result
}

/// How many characters stand before the first space.
pub open spec fn word_length(s: Seq<char>) -> nat
    decreases s.len(),
{
    if s.len() == 0 || crate::text::is_whitespace(s[0]) {
        0
    } else {
        1 + word_length(s.drop_first())
    }
}

/// A word is no longer than the text.
proof fn lemma_word_length(s: Seq<char>)
    ensures
        word_length(s) <= s.len(),
        s.len() > 0 && !crate::text::is_whitespace(s[0]) ==> word_length(s) > 0,
    decreases s.len(),
{
    if s.len() > 0 && !crate::text::is_whitespace(s[0]) {
        lemma_word_length(s.drop_first());
    }
}

/// What is left without the space in front is no longer than the text, and starts with none.
proof fn lemma_trimmed_start(s: Seq<char>)
    ensures
        crate::text::trim_start(s).len() <= s.len(),
        crate::text::trim_start(s).len() > 0 ==> !crate::text::is_whitespace(
            crate::text::trim_start(s)[0],
        ),
    decreases s.len(),
{
    if s.len() > 0 && crate::text::is_whitespace(s[0]) {
        lemma_trimmed_start(s.drop_first());
    }
}

/// The words of a text with one space between each two of them.
pub open spec fn collapsed(s: Seq<char>) -> Seq<char>
    decreases s.len(),
    via collapsed_terminates
{
    let text = crate::text::trim_start(s);
    if text.len() == 0 {
        Seq::empty()
    } else {
        let length = word_length(text) as int;
        let word = text.subrange(0, length);
        let rest = collapsed(text.subrange(length, text.len() as int));
        if rest.len() == 0 {
            word
        } else {
            word + seq![' '] + rest
        }
    }
}

#[via_fn]
proof fn collapsed_terminates(s: Seq<char>) {
    let text = crate::text::trim_start(s);
    lemma_trimmed_start(s);
    lemma_word_length(text);
}

/// The words of a text with one space between each two of them.
fn collapse(s: &str) -> (result: String)
    ensures
        result@ == collapsed(s@),
    decreases s@.len(),
{
    let n: usize = s.unicode_len();
    let mut start: usize = 0;
    proof {
        assert(s@.subrange(0, n as int) =~= s@);
    }
    while start < n && whitespace_char(s.get_char(start))
        invariant
            start <= n,
            n == s@.len(),
            crate::text::trim_start(s@) == crate::text::trim_start(
                s@.subrange(start as int, n as int),
            ),
        decreases n - start,
    {
        proof {
            assert(s@.subrange(start as int, n as int).drop_first() =~= s@.subrange(
                start + 1,
                n as int,
            ));
        }
        start = start + 1;
    }
    let ghost text = s@.subrange(start as int, n as int);
    if start == n {
        let none = String::new();
        proof {
            assert(none@ =~= Seq::empty());
        }
        return none;
    }
    proof {
        assert(text[0] == s@[start as int]);
        assert(crate::text::trim_start(s@) == text);
    }
    let mut end: usize = start;
    proof {
        assert(text.subrange(0, text.len() as int) =~= text);
    }
    while end < n && !whitespace_char(s.get_char(end))
        invariant
            start <= end <= n,
            n == s@.len(),
            text == s@.subrange(start as int, n as int),
            word_length(text) == end - start + word_length(s@.subrange(end as int, n as int)),
        decreases n - end,
    {
        proof {
            assert(s@.subrange(end as int, n as int).drop_first() =~= s@.subrange(
                end + 1,
                n as int,
            ));
        }
        end = end + 1;
    }
    proof {
        lemma_word_length(text);
        assert(word_length(text) == end - start);
        assert(s@.subrange(start as int, end as int) =~= text.subrange(0, end - start));
        assert(s@.subrange(end as int, n as int) =~= text.subrange(
            end - start,
            text.len() as int,
        ));
    }
    let word = s.substring_char(start, end);
    let rest = collapse(s.substring_char(end, n));
    if rest.as_str().is_empty() {
        word.to_owned()
    } else {
        let mut result = word.to_owned();
        result.push(' ');
        result.append(rest.as_str());
        proof {
            assert(result@ =~= word@ + seq![' '] + rest@);
        }
        result
    }
}

/// The name of a service instance: the words of a text, without dots at its ends and at most as long
/// as a label can be.
pub open spec fn instance_name(value: Seq<char>) -> Seq<char> {
    let label = truncated(
        crate::text::strip_both(collapsed(uncontrolled(crate::text::trim(value))), '.'),
        MAX_LABEL_BYTES as nat,
    );
    if label.len() == 0 {
        "Akraz Peer"@
    } else {
        label
    }
}

/// The name of a service instance.
pub fn sanitize_mdns_instance_name(value: &str) -> (result: String)
    ensures
        result@ == instance_name(value@),
{
    let normalized = collapse(replace_control(trimmed(value)).as_str());
    let label = truncate_utf8_bytes(trim_char(normalized.as_str(), '.'), MAX_LABEL_BYTES);
    if label.as_str().is_empty() {
        "Akraz Peer".to_owned()
    } else {
        label
    }
}

/// The lower-case form of a character, by the tables of the Unicode standard.
pub uninterp spec fn unicode_lowercase(c: char) -> Seq<char>;

/// Whether a text holds no ASCII capital.
pub open spec fn no_capitals(s: Seq<char>) -> bool {
    forall|i: int| 0 <= i < s.len() ==> !('A' <= #[trigger] s[i] <= 'Z')
}

/// `char::to_lowercase` of std: the lower-case form of a character, which may be more than one
/// character. It depends on the character alone. An ASCII letter has one letter for its lower-case
/// form and every other ASCII character is its own; a lower-case form holds no ASCII capital.
#[verifier::external_body]
fn lowercase_of(c: char) -> (result: String)
    ensures
        result@ == unicode_lowercase(c),
        c <= '\u{7f}' ==> result@ == seq![crate::text::lower(c)],
        no_capitals(result@),
{
    c.to_lowercase().collect()
}

/// A text in lower case.
pub open spec fn lowered(s: Seq<char>) -> Seq<char>
    decreases s.len(),
{
    if s.len() == 0 {
        Seq::empty()
    } else {
        lowered(s.drop_last()) + unicode_lowercase(s.last())
    }
}

/// A text in lower case.
fn lower_text(s: &str) -> (result: String)
    ensures
        result@ == lowered(s@),
        no_capitals(result@),
        vstd::utf8::is_ascii_chars(s@) ==> result@ == crate::text::lowercase(s@),
{
    let n: usize = s.unicode_len();
    let mut result = String::new();
    let mut i: usize = 0;
    proof {
        assert(result@ =~= lowered(s@.subrange(0, 0)));
    }
    while i < n
        invariant
            i <= n,
            n == s@.len(),
            result@ == lowered(s@.subrange(0, i as int)),
            no_capitals(result@),
            vstd::utf8::is_ascii_chars(s@) ==> result@ == crate::text::lowercase(
                s@.subrange(0, i as int),
            ),
        decreases n - i,
    {
        let ghost before = result@;
        proof {
            let longer = s@.subrange(0, i + 1);
            assert(longer.drop_last() =~= s@.subrange(0, i as int));
            assert(longer.last() == s@[i as int]);
        }
        let c = s.get_char(i);
        let more = lowercase_of(c);
        result = result.concat(more.as_str());
        proof {
            assert forall|k: int| 0 <= k < result@.len() implies !('A' <= #[trigger] result@[k]
                <= 'Z') by {
                if k < before.len() {
                    assert(result@[k] == before[k]);
                } else {
                    assert(result@[k] == more@[k - before.len()]);
                }
            }
            if vstd::utf8::is_ascii_chars(s@) {
                assert(c == s@[i as int]);
                assert(result@ =~= crate::text::lowercase(s@.subrange(0, i + 1)));
            }
        }
        i = i + 1;
    }
    proof {
        assert(s@.subrange(0, n as int) =~= s@);
    }
    result
}

/// Whether a character is an ASCII letter or digit.
pub open spec fn is_alphanumeric(c: char) -> bool {
    'a' <= c <= 'z' || 'A' <= c <= 'Z' || '0' <= c <= '9'
}

/// A text with each run of other characters than letters and digits made one dash.
pub open spec fn dashed(s: Seq<char>) -> Seq<char>
    decreases s.len(),
{
    if s.len() == 0 {
        Seq::empty()
    } else {
        let shorter = dashed(s.drop_last());
        if is_alphanumeric(s.last()) {
            shorter.push(s.last())
        } else if shorter.len() > 0 && shorter.last() == '-' {
            shorter
        } else {
            shorter.push('-')
        }
    }
}

/// A text with each run of other characters than letters and digits made one dash.
fn dash_text(s: &str) -> (result: String)
    ensures
        result@ == dashed(s@),
{
    let n: usize = s.unicode_len();
    let mut result = String::new();
    let mut previous_was_dash: bool = false;
    let mut i: usize = 0;
    proof {
        assert(result@ =~= dashed(s@.subrange(0, 0)));
    }
    while i < n
        invariant
            i <= n,
            n == s@.len(),
            result@ == dashed(s@.subrange(0, i as int)),
            previous_was_dash == (result@.len() > 0 && result@.last() == '-'),
        decreases n - i,
    {
        let c = s.get_char(i);
        proof {
            let longer = s@.subrange(0, i + 1);
            assert(longer.drop_last() =~= s@.subrange(0, i as int));
            assert(longer.last() == c);
        }
        if ('a' <= c && c <= 'z') || ('A' <= c && c <= 'Z') || ('0' <= c && c <= '9') {
            result.push(c);
            previous_was_dash = false;
        } else if !previous_was_dash {
            result.push('-');
            previous_was_dash = true;
        }
        i = i + 1;
    }
    proof {
        assert(s@.subrange(0, n as int) =~= s@);
    }
    result
}

/// The label of a host: letters, digits and single dashes between them.
pub open spec fn host_label(value: Seq<char>) -> Seq<char> {
    let label = crate::text::strip_both(
        truncated(
            crate::text::strip_both(dashed(lowered(value)), '-'),
            MAX_LABEL_BYTES as nat,
        ),
        '-',
    );
    if label.len() == 0 {
        "akraz-peer"@
    } else {
        label
    }
}

/// Whether a character can stand in the label of a host.
pub open spec fn is_label_char(c: char) -> bool {
    'a' <= c <= 'z' || '0' <= c <= '9' || c == '-'
}

/// Whether a dash stands at a place and right behind it.
pub open spec fn is_doubled(s: Seq<char>, i: int) -> bool {
    s[i] == '-' && s[i + 1] == '-'
}

/// Whether a text is spelled with lower-case letters, digits and single dashes alone.
pub open spec fn is_label_text(s: Seq<char>) -> bool {
    &&& forall|i: int| 0 <= i < s.len() ==> is_label_char(#[trigger] s[i])
    &&& forall|i: int| 0 <= i < s.len() - 1 ==> !#[trigger] is_doubled(s, i)
}

/// Whether a text is the label of a host: one to 63 lower-case letters, digits and single dashes
/// between them.
pub open spec fn is_host_label(s: Seq<char>) -> bool {
    &&& 0 < s.len() <= MAX_LABEL_BYTES
    &&& is_label_text(s)
    &&& s[0] != '-'
    &&& s.last() != '-'
}

/// The label of a host: lower-case letters, digits and single dashes between them. A label stays as it
/// is, so that a second call changes nothing more, and a text without letters and digits gets a label
/// that stands for no device in particular.
pub fn sanitize_dns_label(value: &str) -> (result: String)
    ensures
        result@ == host_label(value@),
        is_host_label(result@),
        is_host_label(value@) ==> result@ == value@,
        (forall|i: int|
            0 <= i < lowered(value@).len() ==> !is_alphanumeric(#[trigger] lowered(value@)[i]))
            ==> result@ == "akraz-peer"@,
{
    let lower = lower_text(value);
    let label = dash_text(lower.as_str());
    proof {
        lemma_label(lower@);
        if is_host_label(value@) {
            lemma_label_lowered(value@);
            lemma_label_stays(value@);
        }
        if forall|i: int| 0 <= i < lower@.len() ==> !is_alphanumeric(#[trigger] lower@[i]) {
            lemma_no_label(lower@);
        }
    }
    let label = truncate_utf8_bytes(trim_char(label.as_str(), '-'), MAX_LABEL_BYTES);
    let label = trim_char(label.as_str(), '-');
    if label.is_empty() {
        "akraz-peer".to_owned()
    } else {
        label.to_owned()
    }
}

/// What is left of a text without a character in front of it.
proof fn lemma_strip_leading(s: Seq<char>, c: char)
    ensures
        crate::text::strip_leading(s, c).len() <= s.len(),
        crate::text::strip_leading(s, c) == s.subrange(
            s.len() - crate::text::strip_leading(s, c).len(),
            s.len() as int,
        ),
        crate::text::strip_leading(s, c).len() > 0 ==> crate::text::strip_leading(s, c)[0] != c,
    decreases s.len(),
{
    if s.len() > 0 && s[0] == c {
        let rest = s.drop_first();
        lemma_strip_leading(rest, c);
        let left = crate::text::strip_leading(rest, c).len();
        assert(rest.subrange(rest.len() - left, rest.len() as int) =~= s.subrange(
            s.len() - left,
            s.len() as int,
        ));
    } else {
        assert(s.subrange(0, s.len() as int) =~= s);
    }
}

/// What is left of a text without a character behind it.
proof fn lemma_strip_trailing(s: Seq<char>, c: char)
    ensures
        crate::text::strip_trailing(s, c).len() <= s.len(),
        crate::text::strip_trailing(s, c) == s.subrange(
            0,
            crate::text::strip_trailing(s, c).len() as int,
        ),
        crate::text::strip_trailing(s, c).len() > 0 ==> crate::text::strip_trailing(s, c).last()
            != c,
    decreases s.len(),
{
    if s.len() > 0 && s.last() == c {
        let rest = s.drop_last();
        lemma_strip_trailing(rest, c);
        let left = crate::text::strip_trailing(rest, c).len();
        assert(rest.subrange(0, left as int) =~= s.subrange(0, left as int));
    } else {
        assert(s.subrange(0, s.len() as int) =~= s);
    }
}

/// A part of a text that is spelled like a label is spelled like one.
proof fn lemma_label_part(s: Seq<char>, start: int, end: int)
    requires
        is_label_text(s),
        0 <= start <= end <= s.len(),
    ensures
        is_label_text(s.subrange(start, end)),
{
    let part = s.subrange(start, end);
    assert forall|i: int| 0 <= i < part.len() implies is_label_char(#[trigger] part[i]) by {
        assert(part[i] == s[start + i]);
    }
    assert forall|i: int| 0 <= i < part.len() - 1 implies !#[trigger] is_doubled(part, i) by {
        assert(!is_doubled(s, start + i));
    }
}

/// A text that is spelled like a label is spelled like one without the dashes at its ends.
proof fn lemma_stripped_label(s: Seq<char>)
    requires
        is_label_text(s),
    ensures
        ({
            let stripped = crate::text::strip_both(s, '-');
            &&& is_label_text(stripped)
            &&& stripped.len() <= s.len()
            &&& stripped.len() > 0 ==> stripped[0] != '-' && stripped.last() != '-'
        }),
{
    let front = crate::text::strip_leading(s, '-');
    lemma_strip_leading(s, '-');
    lemma_label_part(s, s.len() - front.len(), s.len() as int);
    let stripped = crate::text::strip_trailing(front, '-');
    lemma_strip_trailing(front, '-');
    lemma_label_part(front, 0, stripped.len() as int);
    if stripped.len() > 0 {
        assert(stripped[0] == front[0]);
    }
}

/// A text of one-byte characters is cut off at its bytes.
proof fn lemma_truncated_label(s: Seq<char>, max: nat)
    requires
        forall|i: int| 0 <= i < s.len() ==> is_label_char(#[trigger] s[i]),
    ensures
        truncated(s, max).len() <= max,
        truncated(s, max).len() <= s.len(),
        truncated(s, max) == s.subrange(0, truncated(s, max).len() as int),
        s.len() <= max ==> truncated(s, max) == s,
    decreases s.len(),
{
    if s.len() > 0 && max > 0 {
        let rest = s.drop_first();
        assert(is_label_char(s[0]));
        assert forall|i: int| 0 <= i < rest.len() implies is_label_char(#[trigger] rest[i]) by {
            assert(rest[i] == s[i + 1]);
        }
        lemma_truncated_label(rest, (max - 1) as nat);
        let cut = truncated(rest, (max - 1) as nat);
        assert(truncated(s, max) =~= s.subrange(0, cut.len() as int + 1));
        if s.len() <= max {
            assert(truncated(s, max) =~= s);
        }
    } else {
        assert(truncated(s, max) =~= s.subrange(0, 0));
        if s.len() == 0 {
            assert(truncated(s, max) =~= s);
        } else {
            assert(is_label_char(s[0]));
        }
    }
}

/// What other characters leave of a text without capitals is spelled like a label.
proof fn lemma_dashed(s: Seq<char>)
    requires
        no_capitals(s),
    ensures
        is_label_text(dashed(s)),
    decreases s.len(),
{
    if s.len() > 0 {
        let rest = s.drop_last();
        assert forall|i: int| 0 <= i < rest.len() implies !('A' <= #[trigger] rest[i] <= 'Z') by {
            assert(rest[i] == s[i]);
        }
        lemma_dashed(rest);
        let shorter = dashed(rest);
        let longer = dashed(s);
        assert(!('A' <= s[s.len() - 1] <= 'Z'));
        assert forall|i: int| 0 <= i < longer.len() - 1 implies !#[trigger] is_doubled(
            longer,
            i,
        ) by {
            if i < shorter.len() - 1 {
                assert(!is_doubled(shorter, i));
            }
        }
    }
}

/// What is made of a text without capitals is the label of a host.
proof fn lemma_label(lower: Seq<char>)
    requires
        no_capitals(lower),
    ensures
        ({
            let label = crate::text::strip_both(
                truncated(
                    crate::text::strip_both(dashed(lower), '-'),
                    MAX_LABEL_BYTES as nat,
                ),
                '-',
            );
            label.len() > 0 ==> is_host_label(label)
        }),
        is_host_label("akraz-peer"@),
{
    lemma_dashed(lower);
    let stripped = crate::text::strip_both(dashed(lower), '-');
    lemma_stripped_label(dashed(lower));
    let cut = truncated(stripped, MAX_LABEL_BYTES as nat);
    lemma_truncated_label(stripped, MAX_LABEL_BYTES as nat);
    lemma_label_part(stripped, 0, cut.len() as int);
    lemma_stripped_label(cut);
    reveal_strlit("akraz-peer");
}

/// A label is in lower case.
proof fn lemma_label_lowered(label: Seq<char>)
    requires
        is_label_text(label),
    ensures
        vstd::utf8::is_ascii_chars(label),
        crate::text::lowercase(label) == label,
{
    assert forall|i: int| 0 <= i < label.len() implies '\0' <= #[trigger] label[i] <= '\u{7f}' by {
        assert(is_label_char(label[i]));
    }
    assert(crate::text::lowercase(label) =~= label);
}

/// A text that is spelled like a label has nothing to be made a dash.
proof fn lemma_label_dashed(label: Seq<char>)
    requires
        is_label_text(label),
    ensures
        dashed(label) == label,
    decreases label.len(),
{
    if label.len() > 0 {
        let rest = label.drop_last();
        lemma_label_part(label, 0, label.len() - 1);
        assert(rest =~= label.subrange(0, label.len() - 1));
        lemma_label_dashed(rest);
        assert(is_label_char(label[label.len() - 1]));
        if rest.len() > 0 {
            assert(!is_doubled(label, label.len() - 2));
        }
        assert(dashed(label) =~= label);
    }
}

/// Nothing is done to a label.
proof fn lemma_label_stays(label: Seq<char>)
    requires
        is_host_label(label),
    ensures
        crate::text::strip_both(
            truncated(crate::text::strip_both(dashed(label), '-'), MAX_LABEL_BYTES as nat),
            '-',
        ) == label,
{
    lemma_label_dashed(label);
    lemma_truncated_label(label, MAX_LABEL_BYTES as nat);
}

/// A text without letters and digits has nothing to make a label of.
proof fn lemma_no_label(s: Seq<char>)
    requires
        forall|i: int| 0 <= i < s.len() ==> !is_alphanumeric(#[trigger] s[i]),
    ensures
        truncated(crate::text::strip_both(dashed(s), '-'), MAX_LABEL_BYTES as nat).len() == 0,
        dashed(s) == (if s.len() == 0 {
            Seq::empty()
        } else {
            seq!['-']
        }),
    decreases s.len(),
{
    if s.len() > 0 {
        let rest = s.drop_last();
        assert forall|i: int| 0 <= i < rest.len() implies !is_alphanumeric(#[trigger] rest[i]) by {
            assert(rest[i] == s[i]);
        }
        lemma_no_label(rest);
        assert(!is_alphanumeric(s[s.len() - 1]));
        assert(dashed(s) =~= seq!['-']);
        assert(crate::text::strip_leading(dashed(s), '-') == crate::text::strip_leading(
            dashed(s).drop_first(),
            '-',
        ));
        assert(dashed(s).drop_first().len() == 0);
    }
}

/// The name of the service instance of a device.
pub fn mdns_instance_name(record: &DiscoveryTxtRecord) -> (result: String)
    ensures
        result@ == instance_name(record.device_id@),
{
    sanitize_mdns_instance_name(record.device_id.as_str())
}

/// The name of the host that a device announces.
pub fn mdns_host_name(record: &DiscoveryTxtRecord) -> (result: String)
    ensures
        result@ == host_label(record.device_id@) + ".local."@,
{
    sanitize_dns_label(record.device_id.as_str()).concat(".local.")
}

/// What a device announces, and where it listens.
#[derive(Debug, PartialEq, Eq)]
pub struct MdnsDiscoveryConfig {
    pub instance_name: String,
    pub host_name: String,
    pub addresses: Vec<IpAddress>,
    pub port: u16,
    pub txt: DiscoveryTxtRecord,
}

impl MdnsDiscoveryConfig {
    /// Announce a record under the names that its device id gives.
    pub fn from_txt_record(txt: DiscoveryTxtRecord, port: u16, addresses: Vec<IpAddress>) -> (result:
        Self)
        ensures
            result.instance_name@ == instance_name(txt.device_id@),
            result.host_name@ == host_label(txt.device_id@) + ".local."@,
            result.addresses == addresses,
            result.port == port,
            result.txt == txt,
    {
        MdnsDiscoveryConfig {
            instance_name: mdns_instance_name(&txt),
            host_name: mdns_host_name(&txt),
            addresses,
            port,
            txt,
        }
    }
}

/// Why a device cannot be announced.
#[derive(Debug, PartialEq, Eq)]
pub enum MdnsDiscoveryError {
    InvalidConfig { reason: &'static str },
    Backend { action: &'static str, message: String },
}

impl MdnsDiscoveryError {
    pub open spec fn text(&self) -> Seq<char> {
        match self {
            MdnsDiscoveryError::InvalidConfig { reason } => "invalid mDNS config: "@ + reason@,
            MdnsDiscoveryError::Backend { action, message } => {
                "mDNS discovery "@ + action@ + " failed: "@ + message@
            },
        }
    }

    pub fn message(&self) -> (result: String)
        ensures
            result@ == self.text(),
    {
        match self {
            MdnsDiscoveryError::InvalidConfig { reason } => {
                "invalid mDNS config: ".to_owned().concat(reason)
            },
            MdnsDiscoveryError::Backend { action, message } => {
                "mDNS discovery ".to_owned().concat(action).concat(" failed: ").concat(
                    message.as_str(),
                )
            },
        }
    }
}

/// A failure of the discovery backend.
pub fn backend_error(action: &'static str, message: String) -> (result: MdnsDiscoveryError)
    ensures
        result == (MdnsDiscoveryError::Backend { action, message }),
{
    MdnsDiscoveryError::Backend { action, message }
}

/// The key and the value of an entry with a `=` in it.
pub open spec fn property(entry: Seq<char>) -> (Seq<char>, Seq<char>) {
    let at = crate::text::first_position(entry, '=');
    (entry.subrange(0, at), entry.subrange(at + 1, entry.len() as int))
}

/// The keys and values of the entries that have a `=` in them.
pub open spec fn properties_of(entries: Seq<Seq<char>>) -> Seq<(Seq<char>, Seq<char>)>
    decreases entries.len(),
{
    if entries.len() == 0 {
        Seq::empty()
    } else if entries.last().contains('=') {
        properties_of(entries.drop_last()).push(property(entries.last()))
    } else {
        properties_of(entries.drop_last())
    }
}

/// The properties that a record is announced with.
pub fn mdns_txt_properties(record: &DiscoveryTxtRecord) -> (result: Vec<(String, String)>)
    ensures
        crate::discovery::field_views(result@) == properties_of(
            crate::discovery::announced(record@),
        ),
{
    let entries = build_discovery_txt_record(record);
    let ghost all = crate::text::string_views(entries@);
    let mut result: Vec<(String, String)> = Vec::new();
    let mut i: usize = 0;
    proof {
        assert(crate::discovery::field_views(result@) =~= properties_of(all.subrange(0, 0)));
    }
    while i < entries.len()
        invariant
            i <= entries@.len(),
            all == crate::text::string_views(entries@),
            all.len() == entries@.len(),
            crate::discovery::field_views(result@) == properties_of(all.subrange(0, i as int)),
        decreases entries@.len() - i,
    {
        let ghost before = result@;
        proof {
            let longer = all.subrange(0, i + 1);
            assert(longer.drop_last() =~= all.subrange(0, i as int));
            assert(longer.last() == entries@[i as int]@);
        }
        match split_once(entries[i].as_str(), '=') {
            Some((key, value)) => {
                result.push((key.to_owned(), value.to_owned()));
                proof {
                    assert(crate::discovery::field_views(result@)
                        =~= crate::discovery::field_views(before).push((key@, value@)));
                }
            },
            None => {},
        }
        i = i + 1;
    }
    proof {
        assert(all.subrange(0, i as int) =~= all);
    }
    result
}

/// The addresses under which a device is announced: those that stand for one address.
pub open spec fn announced_addresses(addresses: Seq<IpAddress>) -> Seq<Seq<char>>
    decreases addresses.len(),
{
    if addresses.len() == 0 {
        Seq::empty()
    } else if addresses.last().unspecified() {
        announced_addresses(addresses.drop_last())
    } else {
        announced_addresses(addresses.drop_last()).push(
            crate::address::spell_ip(addresses.last()@),
        )
    }
}

/// The addresses under which a device is announced, in words.
fn address_texts(addresses: &Vec<IpAddress>) -> (result: Vec<String>)
    ensures
        crate::text::string_views(result@) == announced_addresses(addresses@),
{
    let mut result: Vec<String> = Vec::new();
    let mut i: usize = 0;
    proof {
        assert(crate::text::string_views(result@) =~= announced_addresses(
            addresses@.subrange(0, 0),
        ));
    }
    while i < addresses.len()
        invariant
            i <= addresses@.len(),
            crate::text::string_views(result@) == announced_addresses(
                addresses@.subrange(0, i as int),
            ),
        decreases addresses@.len() - i,
    {
        let ghost before = result@;
        proof {
            let longer = addresses@.subrange(0, i + 1);
            assert(longer.drop_last() =~= addresses@.subrange(0, i as int));
            assert(longer.last() == addresses@[i as int]);
        }
        if !addresses[i].is_unspecified() {
            let text = addresses[i].text();
            result.push(text);
            proof {
                assert(crate::text::string_views(result@) =~= crate::text::string_views(
                    before,
                ).push(text@));
            }
        }
        i = i + 1;
    }
    proof {
        assert(addresses@.subrange(0, i as int) =~= addresses@);
    }
    result
}

/// `mdns_sd::ServiceInfo`, the record of a service. What it holds is named below.
#[verifier::external_type_specification]
#[verifier::external_body]
pub struct ExServiceInfo(mdns_sd::ServiceInfo);

/// The full name of a record: `get_fullname`.
pub uninterp spec fn record_fullname(info: mdns_sd::ServiceInfo) -> Seq<char>;

/// The type of the service of a record: `get_type`.
pub uninterp spec fn record_type(info: mdns_sd::ServiceInfo) -> Seq<char>;

/// The name of the host of a record: `get_hostname`.
pub uninterp spec fn record_host(info: mdns_sd::ServiceInfo) -> Seq<char>;

/// The addresses of a record, each in words: `get_addresses`.
pub uninterp spec fn record_addresses(info: mdns_sd::ServiceInfo) -> Set<Seq<char>>;

/// The port of a record: `get_port`.
pub uninterp spec fn record_port(info: mdns_sd::ServiceInfo) -> u16;

/// The properties of a record, in order: `get_properties`.
pub uninterp spec fn record_properties(info: mdns_sd::ServiceInfo) -> Seq<(Seq<char>, Seq<char>)>;

/// Whether the addresses of a record follow those of the machine: `is_addr_auto`.
pub uninterp spec fn record_auto(info: mdns_sd::ServiceInfo) -> bool;

/// A name with each dot and each backslash in it marked by a backslash.
pub open spec fn escaped(name: Seq<char>) -> Seq<char>
    decreases name.len(),
{
    if name.len() == 0 {
        Seq::empty()
    } else if name.last() == '.' || name.last() == '\\' {
        escaped(name.drop_last()).push('\\').push(name.last())
    } else {
        escaped(name.drop_last()).push(name.last())
    }
}

/// The full name of a service instance.
pub open spec fn service_fullname(service_type: Seq<char>, instance: Seq<char>) -> Seq<char> {
    escaped(instance) + "."@ + service_type
}

/// The name of a host in a record: a doubled ending is made a single one.
pub open spec fn single_local(host: Seq<char>) -> Seq<char> {
    if crate::text::has_suffix(host, ".local.local."@) {
        host.subrange(0, host.len() - "local."@.len())
    } else {
        host
    }
}

/// Whether a type of services names a part of them only.
pub open spec fn has_subtype(service_type: Seq<char>) -> bool {
    exists|i: int|
        0 <= i <= service_type.len() - "._sub."@.len() && #[trigger] service_type.subrange(
            i,
            i + "._sub."@.len(),
        ) == "._sub."@
}

/// Whether each text spells an address as it is usually spelled.
pub open spec fn spell_addresses(texts: Seq<Seq<char>>) -> bool {
    forall|i: int|
        0 <= i < texts.len() ==> exists|ip: IpAddress|
            #[trigger] texts[i] == #[trigger] crate::address::spell_ip(ip@)
}

/// Whether the keys of properties are plain, and no two of them are the same.
pub open spec fn plain_properties(properties: Seq<(Seq<char>, Seq<char>)>) -> bool {
    &&& forall|i: int|
        0 <= i < properties.len() ==> crate::discovery::plain_key((#[trigger] properties[i]).0)
    &&& forall|i: int, j: int|
        0 <= i < j < properties.len() ==> (#[trigger] properties[i]).0 != (
        #[trigger] properties[j]).0
}

/// How many bytes a property takes: its key, a `=` and its value.
pub open spec fn property_bytes(property: (Seq<char>, Seq<char>)) -> nat {
    vstd::utf8::encode_utf8(property.0).len() + vstd::utf8::encode_utf8(property.1).len() + 1
}

/// What is said of the first property that takes more bytes than fit, where there is one.
pub open spec fn oversized(properties: Seq<(Seq<char>, Seq<char>)>) -> Option<Seq<char>>
    decreases properties.len(),
{
    if properties.len() == 0 {
        None
    } else if oversized(properties.drop_last()) is Some {
        oversized(properties.drop_last())
    } else if property_bytes(properties.last()) > 255 {
        Some(
            "TXT property '"@ + properties.last().0 + "' has length "@ + crate::text::decimal(
                property_bytes(properties.last()),
            ) + " bytes, exceeding the 255-byte limit"@,
        )
    } else {
        None
    }
}

/// `mdns_sd::ServiceInfo::new`: the record of a service, or the error in words. The record holds what
/// it was made of, and its addresses do not follow those of the machine; only a property that takes
/// too many bytes is refused. Its lifetimes, priority and weight are the same for every record. Of
/// types with a part, other spellings of addresses and keys that repeat or are not plain nothing is
/// said.
#[verifier::external_body]
fn new_service_info(
    service_type: &str,
    instance: &str,
    host: &str,
    addresses: &Vec<String>,
    port: u16,
    properties: &Vec<(String, String)>,
) -> (result: Result<mdns_sd::ServiceInfo, String>)
    requires
        !has_subtype(service_type@),
        spell_addresses(crate::text::string_views(addresses@)),
        plain_properties(crate::discovery::field_views(properties@)),
    ensures
        match result {
            Ok(info) => {
                &&& oversized(crate::discovery::field_views(properties@)) is None
                &&& record_fullname(info) == service_fullname(service_type@, instance@)
                &&& record_type(info) == service_type@
                &&& record_host(info) == single_local(host@)
                &&& record_addresses(info) == crate::text::string_views(addresses@).to_set()
                &&& record_port(info) == port
                &&& record_properties(info) == crate::discovery::field_views(properties@)
                &&& !record_auto(info)
            },
            Err(message) => oversized(crate::discovery::field_views(properties@)) == Some(message@),
        },
{
    mdns_sd::ServiceInfo::new(service_type, instance, host, &addresses[..], port, &properties[..])
        .map_err(|error| error.to_string())
}

/// `mdns_sd::ServiceInfo::enable_addr_auto`: the same record, whose addresses follow those of the
/// machine from now on.
#[verifier::external_body]
fn with_auto_addresses(info: mdns_sd::ServiceInfo) -> (result: mdns_sd::ServiceInfo)
    ensures
        record_fullname(result) == record_fullname(info),
        record_type(result) == record_type(info),
        record_host(result) == record_host(info),
        record_addresses(result) == record_addresses(info),
        record_port(result) == record_port(info),
        record_properties(result) == record_properties(info),
        record_auto(result),
{
    info.enable_addr_auto()
}

/// `mdns_sd::ServiceInfo::get_fullname`: the full name of a record.
#[verifier::external_body]
fn fullname_of(info: &mdns_sd::ServiceInfo) -> (result: String)
    ensures
        result@ == record_fullname(*info),
{
    info.get_fullname().to_string()
}

/// `mdns_sd::ServiceInfo::is_addr_auto`: whether the addresses of a record follow those of the machine.
#[verifier::external_body]
fn is_auto(info: &mdns_sd::ServiceInfo) -> (result: bool)
    ensures
        result == record_auto(*info),
{
    info.is_addr_auto()
}

/// A service that is ready to be announced.
pub struct MdnsService {
    pub info: mdns_sd::ServiceInfo,
    pub fullname: String,
    pub addr_auto: bool,
}

/// What is wrong with a configuration.
pub open spec fn config_refusal(config: MdnsDiscoveryConfig) -> Option<Seq<char>> {
    if crate::text::trim(config.instance_name@).len() == 0 {
        Some("instance name is required"@)
    } else if !crate::text::has_suffix(config.host_name@, ".local."@) {
        Some("host name must end with .local."@)
    } else if config.port == 0 {
        Some("port must be non-zero"@)
    } else {
        None
    }
}

/// The properties that a configuration is announced with.
pub open spec fn config_properties(config: MdnsDiscoveryConfig) -> Seq<(Seq<char>, Seq<char>)> {
    properties_of(crate::discovery::announced(config.txt@))
}

/// Whether a record announces a configuration. Where no address is left to announce, those of the
/// machine are used.
pub open spec fn announces(info: mdns_sd::ServiceInfo, config: MdnsDiscoveryConfig) -> bool {
    &&& record_fullname(info) == service_fullname(
        crate::discovery::AKRAZ_DISCOVERY_SERVICE_TYPE@,
        config.instance_name@,
    )
    &&& record_type(info) == crate::discovery::AKRAZ_DISCOVERY_SERVICE_TYPE@
    &&& record_host(info) == single_local(config.host_name@)
    &&& record_addresses(info) == announced_addresses(config.addresses@).to_set()
    &&& record_port(info) == config.port
    &&& record_properties(info) == config_properties(config)
    &&& record_auto(info) == (announced_addresses(config.addresses@).len() == 0)
}

/// Make the service that announces a device. Where no address is left to announce, those of the
/// machine are used.
pub fn build_mdns_service_info(config: &MdnsDiscoveryConfig) -> (result: Result<
    MdnsService,
    MdnsDiscoveryError,
>)
    ensures
        match result {
            Ok(service) => {
                &&& config_refusal(*config) is None
                &&& oversized(config_properties(*config)) is None
                &&& announces(service.info, *config)
                &&& service.fullname@ == record_fullname(service.info)
                &&& service.addr_auto == record_auto(service.info)
            },
            Err(MdnsDiscoveryError::InvalidConfig { reason }) => config_refusal(*config) == Some(
                reason@,
            ),
            Err(MdnsDiscoveryError::Backend { action, message }) => {
                &&& config_refusal(*config) is None
                &&& action@ == "build service info"@
                &&& oversized(config_properties(*config)) == Some(message@)
            },
        },
{
    if trimmed(config.instance_name.as_str()).is_empty() {
        return Err(MdnsDiscoveryError::InvalidConfig { reason: "instance name is required" });
    }
    if !ends_with(config.host_name.as_str(), ".local.") {
        return Err(MdnsDiscoveryError::InvalidConfig { reason: "host name must end with .local." });
    }
    if config.port == 0 {
        return Err(MdnsDiscoveryError::InvalidConfig { reason: "port must be non-zero" });
    }
    let properties = mdns_txt_properties(&config.txt);
    let addresses = address_texts(&config.addresses);
    proof {
        lemma_whole_type();
        lemma_spelled(config.addresses@);
        lemma_announced_keys(config.txt@);
    }
    match new_service_info(
        crate::discovery::AKRAZ_DISCOVERY_SERVICE_TYPE,
        config.instance_name.as_str(),
        config.host_name.as_str(),
        &addresses,
        config.port,
        &properties,
    ) {
        Ok(info) => {
            let info = if addresses.len() == 0 {
                with_auto_addresses(info)
            } else {
                info
            };
            let fullname = fullname_of(&info);
            let addr_auto: bool = is_auto(&info);
            Ok(MdnsService { info, fullname, addr_auto })
        },
        Err(message) => Err(backend_error("build service info", message)),
    }
}

/// The type of the daemon's services names all of them.
proof fn lemma_whole_type()
    ensures
        !has_subtype(crate::discovery::AKRAZ_DISCOVERY_SERVICE_TYPE@),
{
    let text = crate::discovery::AKRAZ_DISCOVERY_SERVICE_TYPE@;
    reveal_strlit("_akraz._tcp.local.");
    reveal_strlit("._sub.");
    assert forall|i: int| 0 <= i <= text.len() - 6 implies #[trigger] text.subrange(i, i + 6)
        != "._sub."@ by {
        let part = text.subrange(i, i + 6);
        assert(part[0] == text[i]);
        assert(part[2] == text[i + 2]);
        assert(part[0] == '.' ==> part[2] != 's');
    }
}

/// The addresses under which a device is announced are spelled as usual.
proof fn lemma_spelled(addresses: Seq<IpAddress>)
    ensures
        spell_addresses(announced_addresses(addresses)),
    decreases addresses.len(),
{
    if addresses.len() > 0 {
        lemma_spelled(addresses.drop_last());
        let texts = announced_addresses(addresses);
        let shorter = announced_addresses(addresses.drop_last());
        assert forall|i: int| 0 <= i < texts.len() implies exists|ip: IpAddress|
            #[trigger] texts[i] == #[trigger] crate::address::spell_ip(ip@) by {
            if i < shorter.len() {
                assert(texts[i] == shorter[i]);
            } else {
                assert(texts[i] == crate::address::spell_ip(addresses.last()@));
            }
        }
    }
}

/// Whether some key has a length.
spec fn some_key(properties: Seq<(Seq<char>, Seq<char>)>, length: nat) -> bool {
    exists|i: int| 0 <= i < properties.len() && (#[trigger] properties[i]).0.len() == length
}

/// One more entry, with a plain key of a length that no other key has, keeps the keys apart.
proof fn lemma_one_more_key(entries: Seq<Seq<char>>, key: Seq<char>, value: Option<Seq<char>>)
    requires
        plain_properties(properties_of(entries)),
        crate::discovery::plain_key(key),
        !some_key(properties_of(entries), key.len()),
    ensures
        ({
            let more = properties_of(crate::discovery::with_entry(entries, key, value));
            &&& plain_properties(more)
            &&& forall|length: nat| #[trigger]
                some_key(more, length) ==> some_key(properties_of(entries), length) || length
                    == key.len()
        }),
{
    let before = properties_of(entries);
    if let Some(value) = value {
        let entry = crate::discovery::entry_text(key, value);
        let more = properties_of(entries.push(entry));
        reveal_strlit("=");
        crate::text::lemma_first_position(entry, '=');
        assert(entry[key.len() as int] == '=');
        assert(forall|i: int| 0 <= i < key.len() ==> entry[i] == key[i]);
        let at = crate::text::first_position(entry, '=');
        if at < key.len() {
            assert(entry[at] == key[at]);
        }
        assert(entry.subrange(0, at) =~= key);
        assert(entries.push(entry).drop_last() =~= entries);
        assert(more == before.push(property(entry)));
        assert forall|length: nat| #[trigger] some_key(more, length) implies some_key(
            before,
            length,
        ) || length == key.len() by {
            let i = choose|i: int|
                0 <= i < more.len() && (#[trigger] more[i]).0.len() == length;
            if i < before.len() {
                assert(before[i].0.len() == length);
            }
        }
        assert forall|i: int, j: int| 0 <= i < j < more.len() implies (#[trigger] more[i]).0 != (
        #[trigger] more[j]).0 by {
            if j == before.len() {
                assert(before[i].0 == more[i].0);
            } else {
                assert(before[i].0 != before[j].0);
            }
        }
    }
}

/// The keys of an announcement are plain, and no two of them are the same.
proof fn lemma_announced_keys(record: crate::discovery::TxtModel)
    ensures
        plain_properties(properties_of(crate::discovery::announced(record))),
{
    crate::discovery::lemma_keys();
    let none = Seq::<Seq<char>>::empty();
    let version = Some(crate::text::decimal(record.version as nat));
    let one = crate::discovery::with_entry(none, crate::discovery::TXT_VERSION_KEY@, version);
    let two = crate::discovery::with_entry(
        one,
        crate::discovery::TXT_DEVICE_ID_KEY@,
        Some(record.device_id),
    );
    let capabilities = Some(
        crate::discovery::joined(crate::discovery::names_of(record.capabilities)),
    );
    let three = crate::discovery::with_entry(
        two,
        crate::discovery::TXT_CAPABILITIES_KEY@,
        capabilities,
    );
    let four = crate::discovery::with_entry(
        three,
        crate::discovery::TXT_BUILD_VERSION_KEY@,
        Some(record.build_version),
    );
    assert(four =~= crate::discovery::required_entries(record));
    let five = crate::discovery::with_entry(
        four,
        crate::discovery::TXT_DISPLAY_NAME_KEY@,
        record.display_name,
    );
    let six = crate::discovery::with_entry(
        five,
        crate::discovery::TXT_IDENTITY_PUBLIC_KEY_KEY@,
        record.identity_public_key,
    );
    assert(forall|length: nat| !some_key(properties_of(none), length));
    lemma_one_more_key(none, crate::discovery::TXT_VERSION_KEY@, version);
    lemma_one_more_key(one, crate::discovery::TXT_DEVICE_ID_KEY@, Some(record.device_id));
    lemma_one_more_key(two, crate::discovery::TXT_CAPABILITIES_KEY@, capabilities);
    lemma_one_more_key(three, crate::discovery::TXT_BUILD_VERSION_KEY@, Some(record.build_version));
    lemma_one_more_key(four, crate::discovery::TXT_DISPLAY_NAME_KEY@, record.display_name);
    lemma_one_more_key(
        five,
        crate::discovery::TXT_IDENTITY_PUBLIC_KEY_KEY@,
        record.identity_public_key,
    );
    lemma_one_more_key(six, crate::discovery::TXT_FINGERPRINT_KEY@, record.fingerprint);
}

/// What is known of a service that was found.
#[derive(Debug, PartialEq, Eq)]
pub struct ResolvedService {
    pub fullname: String,
    pub host_name: String,
    pub addresses: Vec<IpAddress>,
    pub port: u16,
    pub properties: Vec<(String, String)>,
}

/// The entries that properties stand for.
pub open spec fn property_entries(properties: Seq<(Seq<char>, Seq<char>)>) -> Seq<Seq<char>> {
    properties.map_values(
        |field: (Seq<char>, Seq<char>)| crate::discovery::entry_text(field.0, field.1),
    )
}

impl ResolvedService {
    /// What the service announces.
    pub open spec fn announcement(&self) -> Result<
        crate::discovery::TxtModel,
        crate::discovery::TxtErrorModel,
    > {
        crate::discovery::read_announcement(
            property_entries(crate::discovery::field_views(self.properties@)),
        )
    }

    /// Whether the service is a peer that can be reached.
    pub open spec fn is_peer(&self) -> bool {
        &&& self.announcement() is Ok
        &&& crate::text::trim(self.host_name@).len() > 0
        &&& self.port != 0
        &&& self.addresses@.len() > 0
    }
}

/// Whether a peer is the one that a service stands for.
pub open spec fn is_discovered(service: ResolvedService, peer: DiscoveredPeer) -> bool {
    &&& service.is_peer()
    &&& service.announcement() == Ok::<
        crate::discovery::TxtModel,
        crate::discovery::TxtErrorModel,
    >(peer.txt@)
    &&& peer.instance_name == service.fullname
    &&& peer.host_name == service.host_name
    &&& peer.port == service.port
    &&& crate::order::listed(peer.addresses@)
    &&& forall|rank: Seq<int>| #[trigger]
        crate::order::holds(peer.addresses@, rank) <==> crate::order::holds(
            service.addresses@,
            rank,
        )
}

/// The entries that properties stand for.
fn entries_of(properties: &Vec<(String, String)>) -> (result: Vec<String>)
    ensures
        crate::text::string_views(result@) == property_entries(
            crate::discovery::field_views(properties@),
        ),
{
    let mut result: Vec<String> = Vec::new();
    let mut i: usize = 0;
    while i < properties.len()
        invariant
            i <= properties@.len(),
            result@.len() == i,
            forall|k: int|
                0 <= k < i ==> (#[trigger] result@[k])@ == crate::discovery::entry_text(
                    properties@[k].0@,
                    properties@[k].1@,
                ),
        decreases properties@.len() - i,
    {
        let entry = properties[i].0.clone().concat("=").concat(properties[i].1.as_str());
        result.push(entry);
        i = i + 1;
    }
    proof {
        assert(crate::text::string_views(result@) =~= property_entries(
            crate::discovery::field_views(properties@),
        ));
    }
    result
}

/// The peer that a service stands for, where it is one that can be reached. Its addresses come in
/// order, each of them once.
pub fn discovered_peer_from_resolved_service(service: &ResolvedService) -> (result: Option<
    DiscoveredPeer,
>)
    ensures
        match result {
            Some(peer) => is_discovered(*service, peer),
            None => !service.is_peer(),
        },
{
    let entries = entries_of(&service.properties);
    let mut texts: Vec<&str> = Vec::new();
    let mut i: usize = 0;
    while i < entries.len()
        invariant
            i <= entries@.len(),
            texts@.len() == i,
            forall|k: int| 0 <= k < i ==> (#[trigger] texts@[k])@ == entries@[k]@,
        decreases entries@.len() - i,
    {
        texts.push(entries[i].as_str());
        i = i + 1;
    }
    proof {
        assert(crate::text::views(texts@) =~= crate::text::string_views(entries@));
    }
    let txt = match parse_discovery_txt_record(texts.as_slice()) {
        Ok(txt) => txt,
        Err(_) => return None,
    };
    let addresses = sort_addresses(&service.addresses);
    if trimmed(service.host_name.as_str()).is_empty() || service.port == 0 || addresses.len() == 0 {
        return None;
    }
    Some(
        DiscoveredPeer {
            instance_name: service.fullname.clone(),
            host_name: service.host_name.clone(),
            addresses,
            port: service.port,
            txt,
        },
    )
}

/// What a device announces in normal form is what its neighbours find.
pub proof fn announced_properties_read_back(record: crate::discovery::TxtModel)
    requires
        crate::discovery::announceable(record),
    ensures
        crate::discovery::read_announcement(
            property_entries(properties_of(crate::discovery::announced(record))),
        ) == Ok::<crate::discovery::TxtModel, crate::discovery::TxtErrorModel>(record),
{
    let entries = crate::discovery::announced(record);
    assert forall|i: int| 0 <= i < entries.len() implies (#[trigger] entries[i]).contains('=') by {
        lemma_announced_entry(record, i);
    }
    lemma_properties(entries);
    crate::discovery::announcement_reads_back(record);
}

/// Whether a service that was found shows a record.
pub open spec fn shows(service: ResolvedService, info: mdns_sd::ServiceInfo) -> bool {
    &&& service.fullname@ == record_fullname(info)
    &&& service.host_name@ == record_host(info)
    &&& service.port == record_port(info)
    &&& crate::discovery::field_views(service.properties@) == record_properties(info)
    &&& forall|text: Seq<char>| #[trigger]
        record_addresses(info).contains(text) <==> exists|i: int|
            0 <= i < service.addresses@.len() && crate::address::spell_ip(
                (#[trigger] service.addresses@[i])@,
            ) == text
}

/// A device that is announced in normal form, with an address, is found by its neighbours as the peer
/// that it is.
pub proof fn announced_service_is_found(
    config: MdnsDiscoveryConfig,
    info: mdns_sd::ServiceInfo,
    service: ResolvedService,
)
    requires
        config_refusal(config) is None,
        crate::discovery::announceable(config.txt@),
        announced_addresses(config.addresses@).len() > 0,
        announces(info, config),
        shows(service, info),
    ensures
        service.is_peer(),
        service.announcement() == Ok::<
            crate::discovery::TxtModel,
            crate::discovery::TxtErrorModel,
        >(config.txt@),
{
    announced_properties_read_back(config.txt@);
    let texts = announced_addresses(config.addresses@);
    assert(texts.to_set().contains(texts[0]));
    assert(record_addresses(info).contains(texts[0]));
    let host = service.host_name@;
    reveal_strlit(".local.");
    reveal_strlit(".local.local.");
    reveal_strlit("local.");
    if crate::text::has_suffix(config.host_name@, ".local.local."@) {
        let whole = config.host_name@;
        assert(whole.subrange(whole.len() - 13, whole.len() as int)[6] == '.');
    } else {
        assert(host.subrange(host.len() - 7, host.len() as int)[6] == '.');
    }
    assert(host.last() == '.');
    lemma_trim_start_last(host);
}

/// Trimming the start of a text leaves a last character that is no space where it is.
proof fn lemma_trim_start_last(s: Seq<char>)
    requires
        s.len() > 0,
        !crate::text::is_whitespace(s.last()),
    ensures
        crate::text::trim_start(s).len() > 0,
        crate::text::trim_start(s).last() == s.last(),
    decreases s.len(),
{
    if crate::text::is_whitespace(s[0]) {
        lemma_trim_start_last(s.drop_first());
    }
}

/// Every entry of an announcement has a `=` in it.
proof fn lemma_announced_entry(record: crate::discovery::TxtModel, i: int)
    requires
        0 <= i < crate::discovery::announced(record).len(),
    ensures
        crate::discovery::announced(record)[i].contains('='),
{
    reveal_strlit("=");
    assert forall|key: Seq<char>, value: Seq<char>|
        (#[trigger] crate::discovery::entry_text(key, value)).contains('=') by {
        assert(crate::discovery::entry_text(key, value)[key.len() as int] == '=');
    }
}

/// Entries with a `=` in them are what their properties stand for.
proof fn lemma_properties(entries: Seq<Seq<char>>)
    requires
        forall|i: int| 0 <= i < entries.len() ==> (#[trigger] entries[i]).contains('='),
    ensures
        property_entries(properties_of(entries)) == entries,
    decreases entries.len(),
{
    if entries.len() > 0 {
        let shorter = entries.drop_last();
        let entry = entries.last();
        assert forall|i: int| 0 <= i < shorter.len() implies (#[trigger] shorter[i]).contains(
            '=',
        ) by {
            assert(entries[i].contains('='));
        }
        lemma_properties(shorter);
        assert(entries[entries.len() - 1].contains('='));
        crate::text::lemma_first_position(entry, '=');
        reveal_strlit("=");
        let (key, value) = property(entry);
        assert(crate::discovery::entry_text(key, value) =~= entry);
        assert(property_entries(properties_of(shorter).push((key, value)))
            =~= property_entries(properties_of(shorter)).push(entry));
        assert(shorter.push(entry) =~= entries);
    } else {
        assert(property_entries(properties_of(entries)) =~= entries);
    }
}

/// Whether each name comes before all that follow it, so that none occurs twice.
pub open spec fn in_order(peers: Seq<(String, DiscoveredPeer)>) -> bool {
    forall|i: int, j: int|
        0 <= i < j < peers.len() ==> crate::order::before(
            crate::order::text_rank((#[trigger] peers[i]).0@),
            crate::order::text_rank((#[trigger] peers[j]).0@),
        )
}

/// Whether a peer is known under a name.
pub open spec fn known_as(
    peers: Seq<(String, DiscoveredPeer)>,
    name: Seq<char>,
    peer: DiscoveredPeer,
) -> bool {
    exists|i: int| 0 <= i < peers.len() && (#[trigger] peers[i]).0@ == name && peers[i].1 == peer
}

/// Whether one list of peers is another with a peer put under a name.
pub open spec fn put(
    before: Seq<(String, DiscoveredPeer)>,
    name: Seq<char>,
    peer: DiscoveredPeer,
    after: Seq<(String, DiscoveredPeer)>,
) -> bool {
    &&& in_order(after)
    &&& forall|other: Seq<char>, found: DiscoveredPeer| #[trigger]
        known_as(after, other, found) <==> if other == name {
            found == peer
        } else {
            known_as(before, other, found)
        }
}

/// Whether one list of peers is another without what was under a name.
pub open spec fn taken(
    before: Seq<(String, DiscoveredPeer)>,
    name: Seq<char>,
    after: Seq<(String, DiscoveredPeer)>,
) -> bool {
    &&& in_order(after)
    &&& forall|other: Seq<char>, found: DiscoveredPeer| #[trigger]
        known_as(after, other, found) <==> other != name && known_as(before, other, found)
}

/// A name that stands between smaller and larger ones is none of them.
proof fn lemma_absent(peers: Seq<(String, DiscoveredPeer)>, at: int, name: Seq<char>)
    requires
        in_order(peers),
        0 <= at <= peers.len(),
        forall|k: int|
            0 <= k < at ==> crate::order::before(
                crate::order::text_rank((#[trigger] peers[k]).0@),
                crate::order::text_rank(name),
            ),
        at < peers.len() ==> crate::order::before(
            crate::order::text_rank(name),
            crate::order::text_rank(peers[at].0@),
        ),
    ensures
        forall|k: int| at <= k < peers.len() ==> crate::order::before(
            crate::order::text_rank(name),
            crate::order::text_rank((#[trigger] peers[k]).0@),
        ),
        forall|k: int| 0 <= k < peers.len() ==> (#[trigger] peers[k]).0@ != name,
{
    let rank = crate::order::text_rank(name);
    assert forall|k: int| at <= k < peers.len() implies crate::order::before(
        rank,
        crate::order::text_rank((#[trigger] peers[k]).0@),
    ) by {
        if k > at {
            assert(crate::order::before(
                crate::order::text_rank(peers[at].0@),
                crate::order::text_rank(peers[k].0@),
            ));
            crate::order::lemma_transitive(
                rank,
                crate::order::text_rank(peers[at].0@),
                crate::order::text_rank(peers[k].0@),
            );
        }
    }
    assert forall|k: int| 0 <= k < peers.len() implies (#[trigger] peers[k]).0@ != name by {
        crate::order::lemma_total(rank, crate::order::text_rank(peers[k].0@));
    }
}

/// A peer put between smaller and larger names.
proof fn lemma_put_between(
    peers: Seq<(String, DiscoveredPeer)>,
    at: int,
    name: String,
    peer: DiscoveredPeer,
)
    requires
        in_order(peers),
        0 <= at <= peers.len(),
        forall|k: int|
            0 <= k < at ==> crate::order::before(
                crate::order::text_rank((#[trigger] peers[k]).0@),
                crate::order::text_rank(name@),
            ),
        at < peers.len() ==> crate::order::before(
            crate::order::text_rank(name@),
            crate::order::text_rank(peers[at].0@),
        ),
    ensures
        put(peers, name@, peer, peers.insert(at, (name, peer))),
{
    let after = peers.insert(at, (name, peer));
    lemma_absent(peers, at, name@);
    assert forall|i: int, j: int| 0 <= i < j < after.len() implies crate::order::before(
        crate::order::text_rank((#[trigger] after[i]).0@),
        crate::order::text_rank((#[trigger] after[j]).0@),
    ) by {
        if i < at && j < at {
            assert(after[i] == peers[i] && after[j] == peers[j]);
        } else if i < at && j > at {
            assert(after[i] == peers[i] && after[j] == peers[j - 1]);
        } else if i > at {
            assert(after[i] == peers[i - 1] && after[j] == peers[j - 1]);
        } else if j == at {
            assert(after[i] == peers[i]);
        } else {
            assert(after[j] == peers[j - 1]);
        }
    }
    assert forall|other: Seq<char>, found: DiscoveredPeer| #[trigger]
        known_as(after, other, found) == (if other == name@ {
            found == peer
        } else {
            known_as(peers, other, found)
        }) by {
        if known_as(after, other, found) {
            let k = choose|k: int|
                0 <= k < after.len() && (#[trigger] after[k]).0@ == other && after[k].1 == found;
            if k < at {
                assert(peers[k] == after[k]);
            } else if k > at {
                assert(peers[k - 1] == after[k]);
            }
        }
        if other == name@ && found == peer {
            assert(after[at].0@ == other && after[at].1 == found);
        }
        if other != name@ && known_as(peers, other, found) {
            let k = choose|k: int|
                0 <= k < peers.len() && (#[trigger] peers[k]).0@ == other && peers[k].1 == found;
            if k < at {
                assert(after[k] == peers[k]);
            } else {
                assert(after[k + 1] == peers[k]);
            }
        }
    }
}

/// A peer put in the place of the one with its name.
proof fn lemma_put_over(
    peers: Seq<(String, DiscoveredPeer)>,
    at: int,
    name: String,
    peer: DiscoveredPeer,
)
    requires
        in_order(peers),
        0 <= at < peers.len(),
        peers[at].0@ == name@,
    ensures
        put(peers, name@, peer, peers.update(at, (name, peer))),
{
    let after = peers.update(at, (name, peer));
    assert forall|i: int, j: int| 0 <= i < j < after.len() implies crate::order::before(
        crate::order::text_rank((#[trigger] after[i]).0@),
        crate::order::text_rank((#[trigger] after[j]).0@),
    ) by {
        assert(after[i].0@ == peers[i].0@ && after[j].0@ == peers[j].0@);
    }
    assert forall|k: int| 0 <= k < peers.len() && k != at implies (#[trigger] peers[k]).0@
        != name@ by {
        crate::order::lemma_total(
            crate::order::text_rank(peers[k].0@),
            crate::order::text_rank(peers[at].0@),
        );
    }
    assert forall|other: Seq<char>, found: DiscoveredPeer| #[trigger]
        known_as(after, other, found) == (if other == name@ {
            found == peer
        } else {
            known_as(peers, other, found)
        }) by {
        if known_as(after, other, found) {
            let k = choose|k: int|
                0 <= k < after.len() && (#[trigger] after[k]).0@ == other && after[k].1 == found;
            assert(k != at ==> peers[k] == after[k]);
        }
        if other == name@ && found == peer {
            assert(after[at].0@ == other && after[at].1 == found);
        }
        if other != name@ && known_as(peers, other, found) {
            let k = choose|k: int|
                0 <= k < peers.len() && (#[trigger] peers[k]).0@ == other && peers[k].1 == found;
            assert(after[k] == peers[k]);
        }
    }
}

/// A list without the peer with a name.
proof fn lemma_taken_from(peers: Seq<(String, DiscoveredPeer)>, at: int, name: Seq<char>)
    requires
        in_order(peers),
        0 <= at < peers.len(),
        peers[at].0@ == name,
    ensures
        taken(peers, name, peers.remove(at)),
{
    let after = peers.remove(at);
    assert forall|i: int, j: int| 0 <= i < j < after.len() implies crate::order::before(
        crate::order::text_rank((#[trigger] after[i]).0@),
        crate::order::text_rank((#[trigger] after[j]).0@),
    ) by {
        let a = if i < at {
            i
        } else {
            i + 1
        };
        let b = if j < at {
            j
        } else {
            j + 1
        };
        assert(after[i] == peers[a] && after[j] == peers[b]);
    }
    assert forall|k: int| 0 <= k < peers.len() && k != at implies (#[trigger] peers[k]).0@
        != name by {
        crate::order::lemma_total(
            crate::order::text_rank(peers[k].0@),
            crate::order::text_rank(peers[at].0@),
        );
    }
    assert forall|other: Seq<char>, found: DiscoveredPeer| #[trigger]
        known_as(after, other, found) == (other != name && known_as(peers, other, found)) by {
        if known_as(after, other, found) {
            let k = choose|k: int|
                0 <= k < after.len() && (#[trigger] after[k]).0@ == other && after[k].1 == found;
            if k < at {
                assert(peers[k] == after[k]);
            } else {
                assert(peers[k + 1] == after[k]);
            }
        }
        if other != name && known_as(peers, other, found) {
            let k = choose|k: int|
                0 <= k < peers.len() && (#[trigger] peers[k]).0@ == other && peers[k].1 == found;
            if k < at {
                assert(after[k] == peers[k]);
            } else {
                assert(after[k - 1] == peers[k]);
            }
        }
    }
}

/// Something that happened on the network.
#[derive(Debug, PartialEq, Eq)]
pub enum MdnsEvent {
    Resolved(ResolvedService),
    Removed(String),
    Other,
}

/// The peers that are announced on the network, by the full names of their services.
#[derive(Debug)]
pub struct MdnsDiscoveryRuntime {
    pub service_fullname: String,
    pub peers: Vec<(String, DiscoveredPeer)>,
}

impl MdnsDiscoveryRuntime {
    /// The names are in order and none occurs twice.
    pub open spec fn wf(&self) -> bool {
        in_order(self.peers@)
    }

    /// Start with no peers.
    pub fn new(service_fullname: String) -> (result: Self)
        ensures
            result.wf(),
            result.service_fullname == service_fullname,
            result.peers@.len() == 0,
    {
        MdnsDiscoveryRuntime { service_fullname, peers: Vec::new() }
    }

    /// Put a peer under a name.
    fn insert(&mut self, name: String, peer: DiscoveredPeer)
        requires
            old(self).wf(),
        ensures
            put(old(self).peers@, name@, peer, final(self).peers@),
            final(self).service_fullname == old(self).service_fullname,
    {
        let ghost known = self.peers@;
        let mut i: usize = 0;
        while i < self.peers.len()
            invariant
                i <= self.peers@.len(),
                self.peers@ == known,
                known == old(self).peers@,
                in_order(known),
                self.service_fullname == old(self).service_fullname,
                forall|k: int|
                    0 <= k < i ==> crate::order::before(
                        crate::order::text_rank((#[trigger] known[k]).0@),
                        crate::order::text_rank(name@),
                    ),
            decreases self.peers@.len() - i,
        {
            match text_place(self.peers[i].0.as_str(), name.as_str()) {
                Place::Before => {},
                Place::Same => {
                    proof {
                        lemma_put_over(known, i as int, name, peer);
                    }
                    self.peers.set(i, (name, peer));
                    return ;
                },
                Place::After => {
                    proof {
                        lemma_put_between(known, i as int, name, peer);
                    }
                    self.peers.insert(i, (name, peer));
                    return ;
                },
            }
            i = i + 1;
        }
        proof {
            lemma_put_between(known, known.len() as int, name, peer);
            assert(known.push((name, peer)) =~= known.insert(known.len() as int, (name, peer)));
        }
        self.peers.push((name, peer));
    }

    /// Forget what is under a name.
    fn remove(&mut self, name: &str)
        requires
            old(self).wf(),
        ensures
            taken(old(self).peers@, name@, final(self).peers@),
            final(self).service_fullname == old(self).service_fullname,
    {
        let ghost known = self.peers@;
        let mut i: usize = 0;
        while i < self.peers.len()
            invariant
                i <= self.peers@.len(),
                self.peers@ == known,
                known == old(self).peers@,
                in_order(known),
                self.service_fullname == old(self).service_fullname,
                forall|k: int| 0 <= k < i ==> (#[trigger] known[k]).0@ != name@,
            decreases self.peers@.len() - i,
        {
            match text_place(self.peers[i].0.as_str(), name) {
                Place::Same => {
                    proof {
                        lemma_taken_from(known, i as int, name@);
                    }
                    self.peers.remove(i);
                    return ;
                },
                _ => {
                    proof {
                        crate::order::lemma_total(
                            crate::order::text_rank(known[i as int].0@),
                            crate::order::text_rank(name@),
                        );
                    }
                },
            }
            i = i + 1;
        }
    }

    /// Take note of something that happened: a peer that was resolved is kept under its full name, a
    /// service that went is forgotten under its name and under that in lower case.
    pub fn apply_event(&mut self, event: MdnsEvent)
        requires
            old(self).wf(),
        ensures
            final(self).wf(),
            final(self).service_fullname == old(self).service_fullname,
            match event {
                MdnsEvent::Resolved(service) => if service.is_peer() {
                    exists|peer: DiscoveredPeer| #[trigger]
                        is_discovered(service, peer) && put(
                            old(self).peers@,
                            service.fullname@,
                            peer,
                            final(self).peers@,
                        )
                } else {
                    final(self).peers@ == old(self).peers@
                },
                MdnsEvent::Removed(fullname) => exists|between: Seq<(String, DiscoveredPeer)>|
                    #[trigger]
                    taken(old(self).peers@, fullname@, between) && taken(
                        between,
                        crate::text::lowercase(fullname@),
                        final(self).peers@,
                    ),
                MdnsEvent::Other => final(self).peers@ == old(self).peers@,
            },
    {
        match event {
            MdnsEvent::Resolved(service) => {
                match discovered_peer_from_resolved_service(&service) {
                    Some(peer) => {
                        self.insert(service.fullname.clone(), peer);
                    },
                    None => {},
                }
            },
            MdnsEvent::Removed(fullname) => {
                self.remove(fullname.as_str());
                let ghost between = self.peers@;
                self.remove(to_lowercase(fullname.as_str()).as_str());
                proof {
                    assert(taken(old(self).peers@, fullname@, between));
                }
            },
            MdnsEvent::Other => {},
        }
    }

    /// The peers, in the order of their names.
    pub fn peer_snapshot(&self) -> (result: Vec<DiscoveredPeer>)
        ensures
            result@.len() == self.peers@.len(),
            forall|i: int|
                0 <= i < result@.len() ==> crate::peers::same_peer(
                    #[trigger] result@[i],
                    self.peers@[i].1,
                ),
    {
        let mut result: Vec<DiscoveredPeer> = Vec::new();
        let mut i: usize = 0;
        while i < self.peers.len()
            invariant
                i <= self.peers@.len(),
                result@.len() == i,
                forall|k: int|
                    0 <= k < i ==> crate::peers::same_peer(
                        #[trigger] result@[k],
                        self.peers@[k].1,
                    ),
            decreases self.peers@.len() - i,
        {
            result.push(self.peers[i].1.clone());
            i = i + 1;
        }
        result
    }
}

/// Why the list of peers cannot be read.
#[derive(Debug, Clone, Copy, PartialEq, Eq)]
pub enum DiscoveredPeerSnapshotError {
    Unavailable,
}

impl DiscoveredPeerSnapshotError {
    pub open spec fn text(&self) -> Seq<char> {
        "discovered peer snapshot is unavailable"@
    }

    pub fn message(&self) -> (result: String)
        ensures
            result@ == self.text(),
    {
        "discovered peer snapshot is unavailable".to_owned()
    }
}

/// The latest peers that were found.
#[derive(Debug)]
pub struct SharedDiscoveredPeers {
    pub peers: Vec<DiscoveredPeer>,
}

impl SharedDiscoveredPeers {
    /// Start with no peers.
    pub fn new() -> (result: Self)
        ensures
            result.peers@.len() == 0,
    {
        SharedDiscoveredPeers { peers: Vec::new() }
    }

    /// Start with a list of peers.
    pub fn from_peers(peers: Vec<DiscoveredPeer>) -> (result: Self)
        ensures
            result.peers == peers,
    {
        SharedDiscoveredPeers { peers }
    }

    /// Put another list in the place of the present one.
    pub fn replace(&mut self, peers: Vec<DiscoveredPeer>) -> (result: Result<
        (),
        DiscoveredPeerSnapshotError,
    >)
        ensures
            result is Ok,
            final(self).peers == peers,
    {
        self.peers = peers;
        Ok(())
    }

    /// A copy of the present list.
    pub fn snapshot(&self) -> (result: Result<Vec<DiscoveredPeer>, DiscoveredPeerSnapshotError>)
        ensures
            match result {
                Ok(copy) => copy@.len() == self.peers@.len() && forall|i: int|
                    0 <= i < copy@.len() ==> crate::peers::same_peer(
                        #[trigger] copy@[i],
                        self.peers@[i],
                    ),
                Err(_) => false,
            },
    {
        let mut copy: Vec<DiscoveredPeer> = Vec::new();
        let mut i: usize = 0;
        while i < self.peers.len()
            invariant
                i <= self.peers@.len(),
                copy@.len() == i,
                forall|k: int|
                    0 <= k < i ==> crate::peers::same_peer(#[trigger] copy@[k], self.peers@[k]),
            decreases self.peers@.len() - i,
        {
            copy.push(self.peers[i].clone());
            i = i + 1;
        }
        Ok(copy)
    }
}

/// What is left of a shutdown that went through all its steps: the first failure.
pub fn shutdown_outcome(
    stop_browse: Option<String>,
    unregister: Option<String>,
    shutdown: Option<String>,
) -> (result: Result<(), MdnsDiscoveryError>)
    ensures
        match (stop_browse, unregister, shutdown) {
            (Some(message), _, _) => result == Err::<(), MdnsDiscoveryError>(
                MdnsDiscoveryError::Backend { action: "stop browse", message },
            ),
            (None, Some(message), _) => result == Err::<(), MdnsDiscoveryError>(
                MdnsDiscoveryError::Backend { action: "unregister", message },
            ),
            (None, None, Some(message)) => result == Err::<(), MdnsDiscoveryError>(
                MdnsDiscoveryError::Backend { action: "shutdown", message },
            ),
            (None, None, None) => result is Ok,
        },
{
    match stop_browse {
        Some(message) => return Err(backend_error("stop browse", message)),
        None => {},
    }
    match unregister {
        Some(message) => return Err(backend_error("unregister", message)),
        None => {},
    }
    match shutdown {
        Some(message) => Err(backend_error("shutdown", message)),
        None => Ok(()),
    }
}

/// A peer that was resolved is listed, and is gone once its service is.
pub proof fn resolved_peers_come_and_go(
    before: Seq<(String, DiscoveredPeer)>,
    name: Seq<char>,
    peer: DiscoveredPeer,
    between: Seq<(String, DiscoveredPeer)>,
    after: Seq<(String, DiscoveredPeer)>,
)
    requires
        put(before, name, peer, between),
        taken(between, name, after),
    ensures
        known_as(between, name, peer),
        forall|found: DiscoveredPeer| !known_as(after, name, found),
        forall|other: Seq<char>, found: DiscoveredPeer|
            other != name ==> (known_as(after, other, found) <==> known_as(before, other, found)),
{
}

/// How many bytes a text takes.
pub open spec fn text_bytes(s: Seq<char>) -> nat
    decreases s.len(),
{
    if s.len() == 0 {
        0
    } else {
        char_bytes(s[0]) + text_bytes(s.drop_first())
    }
}

/// What is kept of a text takes no more bytes than it may and is the text's own beginning; where one
/// more character would fit, it is the whole text.
pub proof fn a_text_is_cut_at_a_character(s: Seq<char>, max_bytes: nat)
    ensures
        truncated(s, max_bytes).len() <= s.len(),
        truncated(s, max_bytes) == s.subrange(0, truncated(s, max_bytes).len() as int),
        text_bytes(truncated(s, max_bytes)) <= max_bytes,
        text_bytes(s) <= max_bytes ==> truncated(s, max_bytes) == s,
        truncated(s, max_bytes).len() < s.len() ==> text_bytes(truncated(s, max_bytes)) + char_bytes(
            s[truncated(s, max_bytes).len() as int],
        ) > max_bytes,
    decreases s.len(),
{
    if s.len() > 0 && char_bytes(s[0]) <= max_bytes {
        let rest = s.drop_first();
        let room = (max_bytes - char_bytes(s[0])) as nat;
        a_text_is_cut_at_a_character(rest, room);
        let kept = truncated(rest, room);
        let whole = truncated(s, max_bytes);
        assert(whole.drop_first() =~= kept);
        assert(whole[0] == s[0]);
        assert(whole =~= s.subrange(0, whole.len() as int));
        if text_bytes(s) <= max_bytes {
            assert(whole =~= s);
        }
    } else {
        assert(truncated(s, max_bytes) =~= Seq::<char>::empty());
        assert(s.subrange(0, 0) =~= Seq::<char>::empty());
    }
}

/// What is cut from a text is cut at a character, and no more than has to be.
pub proof fn texts_are_cut_to_fit(value: &str, max_bytes: usize, kept: String)
    requires
        call_ensures(truncate_utf8_bytes, (value, max_bytes), kept),
    ensures
        text_bytes(kept@) <= max_bytes,
        kept@.len() <= value@.len(),
        kept@ == value@.subrange(0, kept@.len() as int),
        text_bytes(value@) <= max_bytes ==> kept@ == value@,
        kept@.len() < value@.len() ==> text_bytes(kept@) + char_bytes(value@[kept@.len() as int])
            > max_bytes,
{
    a_text_is_cut_at_a_character(value@, max_bytes as nat);
}

proof fn lemma_one_word(s: Seq<char>)
    requires
        forall|i: int| 0 <= i < s.len() ==> !crate::text::is_whitespace(#[trigger] s[i]),
    ensures
        word_length(s) == s.len(),
        crate::text::trim_start(s) == s,
        crate::text::trim(s) == s,
    decreases s.len(),
{
    if s.len() > 0 {
        assert(!crate::text::is_whitespace(s[0]));
        assert(!crate::text::is_whitespace(s[s.len() - 1]));
        let rest = s.drop_first();
        assert forall|i: int| 0 <= i < rest.len() implies !crate::text::is_whitespace(
            #[trigger] rest[i],
        ) by {
            assert(rest[i] == s[i + 1]);
        }
        lemma_one_word(rest);
    }
}

/// The name under which a device is announced is never empty and fits into a label. A plain name, one
/// word without control characters that fits and has no dots at its ends, is kept as it is.
pub proof fn instance_names_fit_a_label(value: &str, name: String)
    requires
        call_ensures(sanitize_mdns_instance_name, (value,), name),
    ensures
        name@.len() > 0,
        text_bytes(name@) <= 63,
        value@.len() > 0 && text_bytes(value@) <= 63 && value@[0] != '.' && value@.last() != '.' && (
        forall|i: int|
            0 <= i < value@.len() ==> !crate::text::is_whitespace(#[trigger] value@[i])
                && !crate::text::is_control(value@[i])) ==> name@ == value@,
{
    reveal_strlit("Akraz Peer");
    let tidy = crate::text::strip_both(
        collapsed(uncontrolled(crate::text::trim(value@))),
        '.',
    );
    a_text_is_cut_at_a_character(tidy, MAX_LABEL_BYTES as nat);
    assert(text_bytes("Akraz Peer"@) <= 63) by {
        reveal_with_fuel(text_bytes, 11);
    }
    if value@.len() > 0 && text_bytes(value@) <= 63 && value@[0] != '.' && value@.last() != '.' && (
    forall|i: int|
        0 <= i < value@.len() ==> !crate::text::is_whitespace(#[trigger] value@[i])
            && !crate::text::is_control(value@[i])) {
        lemma_one_word(value@);
        assert(uncontrolled(value@) =~= value@) by {
            assert forall|i: int| 0 <= i < value@.len() implies uncontrolled(value@)[i]
                == value@[i] by {
                assert(!crate::text::is_whitespace(value@[i]));
            }
        }
        assert(value@.subrange(0, value@.len() as int) =~= value@);
        let rest = value@.subrange(value@.len() as int, value@.len() as int);
        assert(rest =~= Seq::<char>::empty());
        assert(crate::text::trim_start(rest).len() == 0);
        assert(collapsed(rest) =~= Seq::<char>::empty());
        assert(collapsed(value@) == value@);
        assert(crate::text::strip_both(value@, '.') == value@);
    }
}

/// A device is announced under its own id: the service by its name, the host by a label of it, and where
/// it listens as it was told.
pub proof fn a_device_is_announced_under_its_id(
    txt: DiscoveryTxtRecord,
    port: u16,
    addresses: Vec<IpAddress>,
    config: MdnsDiscoveryConfig,
    instance: String,
    host: String,
    id: &str,
    label: String,
    name: String,
)
    requires
        call_ensures(MdnsDiscoveryConfig::from_txt_record, (txt, port, addresses), config),
        call_ensures(mdns_instance_name, (&txt,), instance),
        call_ensures(mdns_host_name, (&txt,), host),
        id@ == txt.device_id@,
        call_ensures(sanitize_dns_label, (id,), label),
        call_ensures(sanitize_mdns_instance_name, (id,), name),
    ensures
        config.instance_name@ == instance@,
        config.host_name@ == host@,
        crate::text::has_suffix(host@, ".local."@),
        instance@ == name@,
        host@ == label@ + ".local."@,
        is_host_label(label@),
        is_host_label(txt.device_id@) ==> host@ == txt.device_id@ + ".local."@,
        config.port == port,
        config.addresses@ == addresses@,
        config.txt == txt,
{
    let ending = ".local."@;
    assert(host@.subrange(host@.len() - ending.len(), host@.len() as int) =~= ending);
}

/// A service is announced as it is configured: its name and type, its host, its port, its addresses but
/// for those that stand for every address, and what the device says of itself. One without a name, a
/// local host or a port is not announced.
pub proof fn a_service_is_announced_as_configured(
    config: MdnsDiscoveryConfig,
    built: Result<MdnsService, MdnsDiscoveryError>,
)
    requires
        call_ensures(build_mdns_service_info, (&config,), built),
    ensures
        built matches Ok(service) ==> {
            &&& record_type(service.info) == "_akraz._tcp.local."@
            &&& record_port(service.info) == config.port
            &&& config.port != 0
            &&& crate::text::trim(config.instance_name@).len() > 0
            &&& crate::text::has_suffix(config.host_name@, ".local."@)
            &&& !crate::text::has_suffix(config.host_name@, ".local.local."@) ==> record_host(
                service.info,
            ) == config.host_name@
            &&& service.fullname@ == record_fullname(service.info)
            &&& service.addr_auto == record_auto(service.info)
            &&& config.addresses@.len() == 0 ==> service.addr_auto
        },
        crate::text::trim(config.instance_name@).len() == 0 || !crate::text::has_suffix(
            config.host_name@,
            ".local."@,
        ) || config.port == 0 ==> built is Err && built->Err_0 is InvalidConfig,
        built matches Err(MdnsDiscoveryError::Backend { action, message }) ==> action@
            == "build service info"@,
{
}

proof fn lemma_announced_places(addresses: Seq<IpAddress>, ip: IpAddress)
    ensures
        addresses.contains(ip) && !ip.unspecified() ==> announced_addresses(addresses).contains(
            crate::address::spell_ip(ip@),
        ),
        announced_addresses(addresses).len() <= addresses.len(),
    decreases addresses.len(),
{
    if addresses.len() > 0 {
        let shorter = addresses.drop_last();
        let last = addresses.last();
        lemma_announced_places(shorter, ip);
        let told = announced_addresses(shorter);
        let all = announced_addresses(addresses);
        if addresses.contains(ip) && !ip.unspecified() {
            let i = choose|i: int| 0 <= i < addresses.len() && addresses[i] == ip;
            if i < shorter.len() {
                assert(shorter[i] == ip);
                let j = choose|j: int|
                    0 <= j < told.len() && told[j] == crate::address::spell_ip(ip@);
                assert(all[j] == told[j]);
            } else {
                assert(all[all.len() - 1] == crate::address::spell_ip(ip@));
            }
        }
    }
}

/// Every address that a device listens on is announced, but for one that stands for every address.
pub proof fn every_address_is_announced(
    config: MdnsDiscoveryConfig,
    built: Result<MdnsService, MdnsDiscoveryError>,
    ip: IpAddress,
)
    requires
        call_ensures(build_mdns_service_info, (&config,), built),
        built is Ok,
        config.addresses@.contains(ip),
        !ip.unspecified(),
    ensures
        record_addresses(built->Ok_0.info).contains(crate::address::spell_ip(ip@)),
        !built->Ok_0.addr_auto,
{
    lemma_announced_places(config.addresses@, ip);
    let told = announced_addresses(config.addresses@);
    let j = choose|j: int| 0 <= j < told.len() && told[j] == crate::address::spell_ip(ip@);
    assert(told.len() > 0);
}

/// A service that was found is a peer where it announces one and can be reached, and the peer is told
/// as it was found: its names, its port and its addresses.
pub proof fn a_found_service_is_told_as_it_was_found(
    service: ResolvedService,
    found: Option<DiscoveredPeer>,
)
    requires
        call_ensures(discovered_peer_from_resolved_service, (&service,), found),
    ensures
        found matches Some(peer) ==> {
            &&& peer.instance_name@ == service.fullname@
            &&& peer.host_name@ == service.host_name@
            &&& peer.port == service.port
            &&& service.port != 0
            &&& service.addresses@.len() > 0
            &&& crate::text::trim(service.host_name@).len() > 0
            &&& peer.txt.version == 1
            &&& forall|rank: Seq<int>| #[trigger]
                crate::order::holds(peer.addresses@, rank) <==> crate::order::holds(
                    service.addresses@,
                    rank,
                )
        },
        service.port == 0 || service.addresses@.len() == 0 || crate::text::trim(
            service.host_name@,
        ).len() == 0 ==> found is None,
{
    if let Some(peer) = found {
        let entries = property_entries(crate::discovery::field_views(service.properties@));
        assert(crate::discovery::read_announcement(entries) is Ok);
        assert(crate::discovery::read_announcement(entries)->Ok_0 == peer.txt@);
        assert(peer.txt@.version == 1);
    }
}

/// A peer that was found is known under its service's name, one whose service is gone is known no more,
/// and the others are left alone.
pub proof fn peers_come_and_go_by_their_names(
    runtime: &mut MdnsDiscoveryRuntime,
    event: MdnsEvent,
    other: Seq<char>,
    peer: DiscoveredPeer,
)
    requires
        old(runtime).wf(),
        call_ensures(MdnsDiscoveryRuntime::apply_event, (runtime, event), ()),
    ensures
        event matches MdnsEvent::Resolved(service) ==> {
            &&& service.is_peer() ==> exists|found: DiscoveredPeer| #[trigger]
                known_as(final(runtime).peers@, service.fullname@, found) && found.port
                    == service.port && found.host_name == service.host_name
            &&& other != service.fullname@ ==> (known_as(final(runtime).peers@, other, peer)
                <==> known_as(old(runtime).peers@, other, peer))
        },
        event matches MdnsEvent::Removed(name) ==> {
            &&& !known_as(final(runtime).peers@, name@, peer)
            &&& other != name@ && other != crate::text::lowercase(name@) ==> (known_as(
                final(runtime).peers@,
                other,
                peer,
            ) <==> known_as(old(runtime).peers@, other, peer))
        },
        event is Other ==> final(runtime).peers@ == old(runtime).peers@,
        final(runtime).service_fullname == old(runtime).service_fullname,
{
    if let MdnsEvent::Resolved(service) = event {
        if service.is_peer() {
            let found = choose|found: DiscoveredPeer| #[trigger]
                is_discovered(service, found) && put(
                    old(runtime).peers@,
                    service.fullname@,
                    found,
                    final(runtime).peers@,
                );
            assert(known_as(final(runtime).peers@, service.fullname@, found));
        }
    }
    if let MdnsEvent::Removed(name) = event {
        let between = choose|between: Seq<(String, DiscoveredPeer)>| #[trigger]
            taken(old(runtime).peers@, name@, between) && taken(
                between,
                crate::text::lowercase(name@),
                final(runtime).peers@,
            );
        assert(known_as(final(runtime).peers@, name@, peer) ==> known_as(between, name@, peer));
        assert(!known_as(between, name@, peer));
        assert(known_as(between, other, peer) <==> other != name@ && known_as(
            old(runtime).peers@,
            other,
            peer,
        ));
    }
}

/// The peers that are shared are those that were put last, one for one.
pub proof fn the_last_peers_are_shared(
    shared: &mut SharedDiscoveredPeers,
    peers: Vec<DiscoveredPeer>,
    replaced: Result<(), DiscoveredPeerSnapshotError>,
    seen: Result<Vec<DiscoveredPeer>, DiscoveredPeerSnapshotError>,
    fresh: SharedDiscoveredPeers,
)
    requires
        call_ensures(SharedDiscoveredPeers::replace, (shared, peers), replaced),
        call_ensures(SharedDiscoveredPeers::snapshot, (&*final(shared),), seen),
        call_ensures(SharedDiscoveredPeers::new, (), fresh),
    ensures
        replaced is Ok,
        seen is Ok,
        seen->Ok_0@.len() == peers@.len(),
        forall|i: int|
            0 <= i < peers@.len() ==> crate::peers::same_peer(#[trigger] seen->Ok_0@[i], peers@[i]),
        fresh.peers@.len() == 0,
{
}

/// The first thing that went wrong in the end is what is told, and nothing is where nothing did.
pub proof fn the_first_failure_is_told(
    stop_browse: Option<String>,
    unregister: Option<String>,
    shutdown: Option<String>,
    result: Result<(), MdnsDiscoveryError>,
)
    requires
        call_ensures(shutdown_outcome, (stop_browse, unregister, shutdown), result),
    ensures
        result is Ok <==> stop_browse is None && unregister is None && shutdown is None,
        result matches Err(error) ==> error is Backend,
        stop_browse matches Some(why) ==> result->Err_0->message == why
            && result->Err_0->action@ == "stop browse"@,
        stop_browse is None ==> (unregister matches Some(why) ==> result->Err_0->message == why
            && result->Err_0->action@ == "unregister"@),
        stop_browse is None && unregister is None ==> (shutdown matches Some(why)
            ==> result->Err_0->message == why && result->Err_0->action@ == "shutdown"@),
{
}

} // verus!
