//! What a journal node tells of itself beyond what every node does.

use vstd::prelude::*;

use crate::journal::types;

verus! {

/// What a journal node tells of itself.
#[derive(Debug, PartialEq, Eq)]
pub struct JournalNodeExtend {
    pub data_fold: Vec<String>,
    pub tcp_addr: String,
    pub tcps_addr: String,
}

/// The error of [`serde_json`], which this library only hands on.
#[verifier::external_type_specification]
#[verifier::external_body]
pub struct ExSerdeJsonError(serde_json::Error);

/// The hexadecimal digit of a number below sixteen.
pub open spec fn hex_digit(n: u32) -> char {
    if n < 10 {
        ('0' as u32 + n) as char
    } else {
        ('a' as u32 + n - 10) as char
    }
}

/// A character as it stands in a JSON string.
pub open spec fn escaped_char(c: char) -> Seq<char> {
    if c == '"' || c == '\\' {
        seq!['\\', c]
    } else if c == '\u{8}' {
        seq!['\\', 'b']
    } else if c == '\t' {
        seq!['\\', 't']
    } else if c == '\n' {
        seq!['\\', 'n']
    } else if c == '\u{c}' {
        seq!['\\', 'f']
    } else if c == '\r' {
        seq!['\\', 'r']
    } else if (c as u32) < 0x20 {
        seq!['\\', 'u', '0', '0', hex_digit(c as u32 / 16), hex_digit(c as u32 % 16)]
    } else {
        seq![c]
    }
}

/// A text as it stands in a JSON string.
pub open spec fn escaped(text: Seq<char>) -> Seq<char>
    decreases text.len(),
{
    if text.len() == 0 {
        Seq::empty()
    } else {
        escaped(text.drop_last()) + escaped_char(text.last())
    }
}

/// The JSON string of a text.
pub open spec fn json_string(text: Seq<char>) -> Seq<char> {
    seq!['"'] + escaped(text) + seq!['"']
}

/// The JSON strings of some texts, with commas between them.
pub open spec fn json_strings(texts: Seq<Seq<char>>) -> Seq<char>
    decreases texts.len(),
{
    if texts.len() == 0 {
        Seq::empty()
    } else if texts.len() == 1 {
        json_string(texts[0])
    } else {
        json_strings(texts.drop_last()) + seq![','] + json_string(texts.last())
    }
}

/// The compact JSON object with these members.
pub open spec fn object_text(
    data_fold: Seq<String>,
    tcp_addr: Seq<char>,
    tcps_addr: Seq<char>,
) -> Seq<char> {
    "{\"data_fold\":["@ + json_strings(types::texts(data_fold)) + "],\"tcp_addr\":"@ + json_string(
        tcp_addr,
    ) + ",\"tcps_addr\":"@ + json_string(tcps_addr) + "}"@
}

/// Calls `serde_json::to_string` on the map from the names of the fields to
/// their values.
///
/// Claimed of it: it succeeds, as it fails only on keys that are not strings or
/// where a value refuses to be serialized, and strings and lists of strings do
/// not; and it returns the compact object, with the members in the order of
/// their names, in which strings escape the quote, the backslash and the
/// control characters below the space, and nothing else.
#[verifier::external_body]
pub(crate) fn to_json(extend: &JournalNodeExtend) -> (r: Result<String, serde_json::Error>)
    ensures
        r is Ok,
        r->Ok_0@ == object_text(extend.data_fold@, extend.tcp_addr@, extend.tcps_addr@),
{
    serde_json::to_string(
        &std::collections::BTreeMap::from(
            [
                ("data_fold", serde_json::Value::from(extend.data_fold.clone())),
                ("tcp_addr", serde_json::Value::from(extend.tcp_addr.clone())),
                ("tcps_addr", serde_json::Value::from(extend.tcps_addr.clone())),
            ],
        ),
    )
}

/// The value of a hexadecimal digit.
pub open spec fn hex_value(c: char) -> int {
    if c as int >= 97 {
        c as int - 87
    } else {
        c as int - 48
    }
}

/// What follows a character that was read.
pub open spec fn after_char(c: char, rest: Option<Seq<char>>) -> Option<Seq<char>> {
    match rest {
        Some(text) => Some(seq![c] + text),
        None => None,
    }
}

/// The text that stands between the quotes of a JSON string; `None` if that cannot
/// stand there.
pub open spec fn read_json_text(s: Seq<char>) -> Option<Seq<char>>
    decreases s.len(),
{
    if s.len() == 0 {
        Some(Seq::empty())
    } else if s[0] == '"' || (s[0] as int) < 32 {
        None
    } else if s[0] != '\\' {
        after_char(s[0], read_json_text(s.skip(1)))
    } else if s.len() < 2 {
        None
    } else if s[1] == 'u' {
        if s.len() < 6 {
            None
        } else {
            let code = hex_value(s[2]) * 4096 + hex_value(s[3]) * 256 + hex_value(s[4]) * 16
                + hex_value(s[5]);
            after_char(code as char, read_json_text(s.skip(6)))
        }
    } else if s[1] == '"' || s[1] == '\\' || s[1] == '/' {
        after_char(s[1], read_json_text(s.skip(2)))
    } else if s[1] == 'b' {
        after_char('\u{8}', read_json_text(s.skip(2)))
    } else if s[1] == 'f' {
        after_char('\u{c}', read_json_text(s.skip(2)))
    } else if s[1] == 'n' {
        after_char('\n', read_json_text(s.skip(2)))
    } else if s[1] == 'r' {
        after_char('\r', read_json_text(s.skip(2)))
    } else if s[1] == 't' {
        after_char('\t', read_json_text(s.skip(2)))
    } else {
        None
    }
}

proof fn lemma_escaped_char_reads_back(c: char, rest: Seq<char>)
    ensures
        read_json_text(escaped_char(c) + rest) == after_char(c, read_json_text(rest)),
{
    let whole = escaped_char(c) + rest;
    let k = escaped_char(c).len() as int;
    assert(whole.skip(k) =~= rest);
    assert forall|i: int| 0 <= i < k implies whole[i] == escaped_char(c)[i] by {}
    assert(whole[0] == escaped_char(c)[0]);
    if k == 6 {
        let high = c as u32 / 16;
        let low = c as u32 % 16;
        assert(hex_value(hex_digit(high)) == high);
        assert(hex_value(hex_digit(low)) == low);
        assert(hex_value('0') == 0);
        assert(high * 16 + low == c as int);
    }
}

proof fn lemma_escaped_from_front(text: Seq<char>)
    requires
        text.len() > 0,
    ensures
        escaped(text) == escaped_char(text[0]) + escaped(text.skip(1)),
    decreases text.len(),
{
    if text.len() == 1 {
        assert(text.drop_last() =~= Seq::empty());
        assert(text.skip(1) =~= Seq::empty());
        assert(escaped(text) =~= escaped_char(text[0]) + escaped(text.skip(1)));
    } else {
        lemma_escaped_from_front(text.drop_last());
        assert(text.drop_last().skip(1) =~= text.skip(1).drop_last());
        assert(text.skip(1).last() == text.last());
        assert(escaped(text) =~= escaped_char(text[0]) + escaped(text.skip(1)));
    }
}

/// What is written into a JSON string reads back as it was.
pub proof fn law_json_text_reads_back(text: Seq<char>)
    ensures
        read_json_text(escaped(text)) == Some(text),
    decreases text.len(),
{
    if text.len() > 0 {
        law_json_text_reads_back(text.skip(1));
        lemma_escaped_from_front(text);
        lemma_escaped_char_reads_back(text[0], escaped(text.skip(1)));
        assert(seq![text[0]] + text.skip(1) =~= text);
    } else {
        assert(escaped(text) =~= Seq::empty());
        assert(text =~= Seq::empty());
    }
}

/// Parts between quotes, with commas between them.
pub open spec fn quoted_parts(parts: Seq<Seq<char>>) -> Seq<char>
    decreases parts.len(),
{
    if parts.len() == 0 {
        Seq::empty()
    } else {
        let last = seq!['"'] + parts.last() + seq!['"'];
        if parts.len() == 1 {
            last
        } else {
            quoted_parts(parts.drop_last()) + seq![','] + last
        }
    }
}

proof fn lemma_json_strings(texts: Seq<Seq<char>>)
    ensures
        json_strings(texts) == quoted_parts(texts.map_values(|text: Seq<char>| escaped(text))),
    decreases texts.len(),
{
    let parts = texts.map_values(|text: Seq<char>| escaped(text));
    if texts.len() > 1 {
        lemma_json_strings(texts.drop_last());
        assert(parts.drop_last() =~= texts.drop_last().map_values(
            |text: Seq<char>| escaped(text),
        ));
    }
}

/// What a node tells of itself is a JSON object with three members under their
/// names, from which the directories and the two addresses read back as they were.
pub proof fn law_object_reads_back(
    data_fold: Seq<String>,
    tcp_addr: Seq<char>,
    tcps_addr: Seq<char>,
)
    ensures
        exists|parts: Seq<Seq<char>>, tcp: Seq<char>, tcps: Seq<char>|
            {
                &&& object_text(data_fold, tcp_addr, tcps_addr) == "{\"data_fold\":["@
                    + #[trigger] quoted_parts(parts) + "],\"tcp_addr\":"@ + (seq!['"'] + tcp
                    + seq!['"']) + ",\"tcps_addr\":"@ + (seq!['"'] + tcps + seq!['"']) + "}"@
                &&& parts.len() == data_fold.len()
                &&& forall|i: int|
                    0 <= i < parts.len() ==> read_json_text(#[trigger] parts[i]) == Some(
                        data_fold[i]@,
                    )
                &&& #[trigger] read_json_text(tcp) == Some(tcp_addr)
                &&& #[trigger] read_json_text(tcps) == Some(tcps_addr)
            },
{
    let strings = types::texts(data_fold);
    let parts = strings.map_values(|text: Seq<char>| escaped(text));
    lemma_json_strings(strings);
    law_json_text_reads_back(tcp_addr);
    law_json_text_reads_back(tcps_addr);
    assert forall|i: int| 0 <= i < parts.len() implies read_json_text(#[trigger] parts[i]) == Some(
        data_fold[i]@,
    ) by {
        law_json_text_reads_back(strings[i]);
    }
    assert(read_json_text(escaped(tcp_addr)) == Some(tcp_addr));
    assert(read_json_text(escaped(tcps_addr)) == Some(tcps_addr));
    assert(object_text(data_fold, tcp_addr, tcps_addr) == "{\"data_fold\":["@ + quoted_parts(parts)
        + "],\"tcp_addr\":"@ + (seq!['"'] + escaped(tcp_addr) + seq!['"']) + ",\"tcps_addr\":"@ + (
    seq!['"'] + escaped(tcps_addr) + seq!['"']) + "}"@);
}

} // verus!
