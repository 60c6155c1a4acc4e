//! The JSON messages that the two peers exchange through the signalling server.

use crate::text::{
    decimal, decimal_text, decimal_value, law_decimal_is_short, law_decimal_reads_back,
};
use vstd::prelude::*;

verus! {

/// A message between peers.
#[derive(Debug, PartialEq, Eq)]
pub enum JsonMsg {
    /// An ICE candidate and the index of the media line that it belongs to.
    Ice { candidate: String, sdp_mline_index: u32 },
    /// A session description: `type_` says whether it is an offer or an answer.
    Sdp { type_: String, sdp: String },
}

/// The contents of a [`JsonMsg`].
pub enum JsonMsgView {
    Ice { candidate: Seq<char>, sdp_mline_index: u32 },
    Sdp { type_: Seq<char>, sdp: Seq<char> },
}

impl View for JsonMsg {
    type V = JsonMsgView;

    open spec fn view(&self) -> JsonMsgView {
        match self {
            JsonMsg::Ice { candidate, sdp_mline_index } => JsonMsgView::Ice {
                candidate: candidate@,
                sdp_mline_index: *sdp_mline_index,
            },
            JsonMsg::Sdp { type_, sdp } => JsonMsgView::Sdp { type_: type_@, sdp: sdp@ },
        }
    }
}

/// The lower-case hexadecimal digit of a number below sixteen.
pub open spec fn hex_digit(d: int) -> char {
    if d < 10 {
        ('0' as u32 + d) as char
    } else {
        ('a' as u32 + (d - 10)) as char
    }
}

/// How a character is written inside a JSON string: quotes, backslashes and control
/// characters are escaped, every other character stands for itself.
pub open spec fn escaped(c: char) -> Seq<char> {
    if c == '"' || c == '\\' {
        seq!['\\', c]
    } else if c == '\u{8}' {
        seq!['\\', 'b']
    } else if c == '\t' {
        seq!['\\', 't']
    } else if c == '\n' {
        seq!['\\', 'n']
    } else if c == '\u{c}' {
        seq!['\\', 'f']
    } else if c == '\r' {
        seq!['\\', 'r']
    } else if (c as u32) < 0x20 {
        seq!['\\', 'u', '0', '0', hex_digit(c as int / 16), hex_digit(c as int % 16)]
    } else {
        seq![c]
    }
}

/// The characters of a text as they are written inside a JSON string.
pub open spec fn escaped_text(text: Seq<char>) -> Seq<char>
    decreases text.len(),
{
    if text.len() == 0 {
        Seq::empty()
    } else {
        escaped(text[0]) + escaped_text(text.drop_first())
    }
}

/// A text as a JSON string.
pub open spec fn quoted(text: Seq<char>) -> Seq<char> {
    seq!['"'] + escaped_text(text) + seq!['"']
}

/// Calls `serde_json::to_string` on a string slice.
///
/// Claimed of it: it succeeds on every text, and writes the text between double quotes with
/// the quote, the backslash and the control characters below the space escaped: by a letter
/// where JSON has one (`\b`, `\t`, `\n`, `\f`, `\r`), by `\u` and four lower-case hexadecimal
/// digits otherwise.
#[verifier::external_body]
fn json_string(text: &str) -> (json: String)
    ensures
        json@ == quoted(text@),
{
    serde_json::to_string(text).unwrap()
}

/// The text that stands for a message on the wire.
pub open spec fn wire_text(msg: JsonMsgView) -> Seq<char> {
    match msg {
        JsonMsgView::Ice { candidate, sdp_mline_index } => "{\"ice\":{\"candidate\":"@ + quoted(
            candidate,
        ) + ",\"sdpMLineIndex\":"@ + decimal(sdp_mline_index as nat) + "}}"@,
        JsonMsgView::Sdp { type_, sdp } => "{\"sdp\":{\"type\":"@ + quoted(type_) + ",\"sdp\":"@
            + quoted(sdp) + "}}"@,
    }
}

impl JsonMsg {
    /// Writes the message as one line of JSON: an object whose only key names the kind of
    /// message and whose value holds the fields.
    pub fn to_text(&self) -> (text: String)
        ensures
            text@ == wire_text(self@),
    {
        match self {
            JsonMsg::Ice { candidate, sdp_mline_index } => {
                let mut text = "{\"ice\":{\"candidate\":".to_owned();
                text.append(json_string(candidate.as_str()).as_str());
                text.append(",\"sdpMLineIndex\":");
                text.append(decimal_text(*sdp_mline_index).as_str());
                text.append("}}");
                text
            },
            JsonMsg::Sdp { type_, sdp } => {
                let mut text = "{\"sdp\":{\"type\":".to_owned();
                text.append(json_string(type_.as_str()).as_str());
                text.append(",\"sdp\":");
                text.append(json_string(sdp.as_str()).as_str());
                text.append("}}");
                text
            },
        }
    }
}

/// Where two texts begin with an escaped character each and agree, the characters agree, and
/// so does what follows them.
proof fn lemma_escape_is_prefix_free(c: char, d: char, x: Seq<char>, y: Seq<char>)
    requires
        escaped(c) + x == escaped(d) + y,
    ensures
        c == d,
        x == y,
{
    let left = escaped(c) + x;
    let right = escaped(d) + y;
    assert(left[0] == escaped(c)[0] && right[0] == escaped(d)[0]);
    if escaped(c).len() > 1 && escaped(d).len() > 1 {
        assert(left[1] == escaped(c)[1] && right[1] == escaped(d)[1]);
        if escaped(c).len() == 6 && escaped(d).len() == 6 {
            assert(left[4] == escaped(c)[4] && right[4] == escaped(d)[4]);
            assert(left[5] == escaped(c)[5] && right[5] == escaped(d)[5]);
            assert(c as int / 16 == d as int / 16);
            assert(c as int % 16 == d as int % 16);
        }
    }
    assert(c == d);
    assert(x =~= left.skip(escaped(c).len() as int));
    assert(y =~= right.skip(escaped(c).len() as int));
}

/// An escaped character never begins with a double quote.
proof fn lemma_escape_is_no_quote(c: char)
    ensures
        escaped(c).len() > 0,
        escaped(c)[0] != '"',
{
}

/// An escaped text followed by the closing quote determines the text and what comes after.
proof fn lemma_string_end(a: Seq<char>, b: Seq<char>, x: Seq<char>, y: Seq<char>)
    requires
        escaped_text(a) + seq!['"'] + x == escaped_text(b) + seq!['"'] + y,
    ensures
        a == b,
        x == y,
    decreases a.len(),
{
    let left = escaped_text(a) + seq!['"'] + x;
    let right = escaped_text(b) + seq!['"'] + y;
    if a.len() == 0 && b.len() == 0 {
        assert(x =~= left.skip(1));
        assert(y =~= right.skip(1));
        assert(a =~= b);
    } else if a.len() == 0 {
        lemma_escape_is_no_quote(b[0]);
        assert(left[0] == '"');
        assert(right[0] == escaped(b[0])[0]);
    } else if b.len() == 0 {
        lemma_escape_is_no_quote(a[0]);
        assert(right[0] == '"');
        assert(left[0] == escaped(a[0])[0]);
    } else {
        let a_rest = escaped_text(a.drop_first()) + seq!['"'] + x;
        let b_rest = escaped_text(b.drop_first()) + seq!['"'] + y;
        assert(left =~= escaped(a[0]) + a_rest);
        assert(right =~= escaped(b[0]) + b_rest);
        lemma_escape_is_prefix_free(a[0], b[0], a_rest, b_rest);
        lemma_string_end(a.drop_first(), b.drop_first(), x, y);
        assert(a =~= seq![a[0]] + a.drop_first());
        assert(b =~= seq![b[0]] + b.drop_first());
    }
}

/// A JSON string determines the text that it stands for, whatever follows it.
pub proof fn law_quoted_is_unambiguous(a: Seq<char>, b: Seq<char>, x: Seq<char>, y: Seq<char>)
    requires
        quoted(a) + x == quoted(b) + y,
    ensures
        a == b,
        x == y,
{
    let left = quoted(a) + x;
    let right = quoted(b) + y;
    assert(left.skip(1) =~= escaped_text(a) + seq!['"'] + x);
    assert(right.skip(1) =~= escaped_text(b) + seq!['"'] + y);
    lemma_string_end(a, b, x, y);
}

/// Texts that begin alike go on alike.
proof fn lemma_same_head(head: Seq<char>, x: Seq<char>, y: Seq<char>)
    requires
        head + x == head + y,
    ensures
        x == y,
{
    assert(x =~= (head + x).skip(head.len() as int));
    assert(y =~= (head + y).skip(head.len() as int));
}

/// Texts that end alike begin alike.
proof fn lemma_same_tail(x: Seq<char>, y: Seq<char>, tail: Seq<char>)
    requires
        x + tail == y + tail,
    ensures
        x == y,
{
    assert((x + tail).len() == x.len() + tail.len());
    assert((y + tail).len() == y.len() + tail.len());
    assert(x =~= (x + tail).take(x.len() as int));
    assert(y =~= (y + tail).take(y.len() as int));
}

/// The text on the wire determines the message: no two messages are written alike.
pub proof fn law_wire_text_is_unambiguous(a: JsonMsgView, b: JsonMsgView)
    requires
        wire_text(a) == wire_text(b),
    ensures
        a == b,
{
    let ice = "{\"ice\":{\"candidate\":"@;
    let sdp_head = "{\"sdp\":{\"type\":"@;
    let comma_index = ",\"sdpMLineIndex\":"@;
    let comma_sdp = ",\"sdp\":"@;
    let end = "}}"@;
    reveal_strlit("{\"ice\":{\"candidate\":");
    reveal_strlit("{\"sdp\":{\"type\":");
    match (a, b) {
        (
            JsonMsgView::Ice { candidate: c1, sdp_mline_index: i1 },
            JsonMsgView::Ice { candidate: c2, sdp_mline_index: i2 },
        ) => {
            let x = comma_index + decimal(i1 as nat) + end;
            let y = comma_index + decimal(i2 as nat) + end;
            assert(wire_text(a) =~= ice + (quoted(c1) + x));
            assert(wire_text(b) =~= ice + (quoted(c2) + y));
            lemma_same_head(ice, quoted(c1) + x, quoted(c2) + y);
            law_quoted_is_unambiguous(c1, c2, x, y);
            lemma_same_tail(comma_index + decimal(i1 as nat), comma_index + decimal(i2 as nat), end);
            lemma_same_head(comma_index, decimal(i1 as nat), decimal(i2 as nat));
            law_decimal_reads_back(i1 as nat);
            law_decimal_reads_back(i2 as nat);
            assert(decimal_value(decimal(i1 as nat)) == i2);
        },
        (
            JsonMsgView::Sdp { type_: t1, sdp: s1 },
            JsonMsgView::Sdp { type_: t2, sdp: s2 },
        ) => {
            let x = comma_sdp + quoted(s1) + end;
            let y = comma_sdp + quoted(s2) + end;
            assert(wire_text(a) =~= sdp_head + (quoted(t1) + x));
            assert(wire_text(b) =~= sdp_head + (quoted(t2) + y));
            lemma_same_head(sdp_head, quoted(t1) + x, quoted(t2) + y);
            law_quoted_is_unambiguous(t1, t2, x, y);
            assert(x =~= comma_sdp + (quoted(s1) + end));
            assert(y =~= comma_sdp + (quoted(s2) + end));
            lemma_same_head(comma_sdp, quoted(s1) + end, quoted(s2) + end);
            law_quoted_is_unambiguous(s1, s2, end, end);
        },
        (JsonMsgView::Ice { .. }, JsonMsgView::Sdp { .. }) => {
            assert(wire_text(a)[2] == 'i');
            assert(wire_text(b)[2] == 's');
        },
        (JsonMsgView::Sdp { .. }, JsonMsgView::Ice { .. }) => {
            assert(wire_text(a)[2] == 's');
            assert(wire_text(b)[2] == 'i');
        },
    }
}

/// The number that a lower-case hexadecimal digit denotes.
pub open spec fn hex_value(c: char) -> int {
    if '0' <= c <= '9' {
        c as u32 - '0' as u32
    } else {
        c as u32 - 'a' as u32 + 10
    }
}

/// The characters that are written like this inside a JSON string, if they can be.
pub open spec fn unescaped(body: Seq<char>) -> Option<Seq<char>>
    decreases body.len(),
{
    if body.len() == 0 {
        Some(Seq::empty())
    } else if body[0] == '"' || (body[0] as u32) < 0x20 {
        None
    } else if body[0] != '\\' {
        match unescaped(body.skip(1)) {
            Some(rest) => Some(seq![body[0]] + rest),
            None => None,
        }
    } else if body.len() < 2 {
        None
    } else if body[1] == 'u' {
        if body.len() < 6 {
            None
        } else {
            let code: int = 0x1000 * hex_value(body[2]) + 0x100 * hex_value(body[3]) + 0x10
                * hex_value(body[4]) + hex_value(body[5]);
            match unescaped(body.skip(6)) {
                Some(rest) => Some(seq![code as char] + rest),
                None => None,
            }
        }
    } else {
        let c = if body[1] == 'b' {
            '\u{8}'
        } else if body[1] == 't' {
            '\t'
        } else if body[1] == 'n' {
            '\n'
        } else if body[1] == 'f' {
            '\u{c}'
        } else if body[1] == 'r' {
            '\r'
        } else {
            body[1]
        };
        match unescaped(body.skip(2)) {
            Some(rest) => Some(seq![c] + rest),
            None => None,
        }
    }
}

/// The text that a JSON string stands for, if it is one.
pub open spec fn string_value(json: Seq<char>) -> Option<Seq<char>> {
    if json.len() >= 2 && json[0] == '"' && json.last() == '"' {
        unescaped(json.subrange(1, json.len() - 1))
    } else {
        None
    }
}

/// The hexadecimal digits of a control character denote it.
proof fn lemma_hex_reads_back(c: char)
    requires
        (c as u32) < 0x20,
    ensures
        0x10 * hex_value(hex_digit(c as int / 16)) + hex_value(hex_digit(c as int % 16)) == c
            as int,
{
    assert(c as int / 16 < 2);
    assert(c as int % 16 < 16);
    assert(hex_value(hex_digit(c as int / 16)) == c as int / 16);
    assert(hex_value(hex_digit(c as int % 16)) == c as int % 16);
}

/// An escaped character reads back as it was, and so does what follows it.
proof fn lemma_escape_reads_back(c: char, rest: Seq<char>)
    requires
        unescaped(rest) is Some,
    ensures
        unescaped(escaped(c) + rest) == Some(seq![c] + unescaped(rest)->0),
{
    let body = escaped(c) + rest;
    assert(body.skip(escaped(c).len() as int) =~= rest);
    assert(body[0] == escaped(c)[0]);
    if escaped(c).len() > 1 {
        assert(body[1] == escaped(c)[1]);
    }
    if escaped(c).len() == 6 {
        lemma_hex_reads_back(c);
        assert(body[2] == '0' && body[3] == '0' && hex_value('0') == 0);
        assert(body[4] == escaped(c)[4] && body[5] == escaped(c)[5]);
        let code: int = 0x1000 * hex_value(body[2]) + 0x100 * hex_value(body[3]) + 0x10 * hex_value(
            body[4],
        ) + hex_value(body[5]);
        assert(code == c as int);
        assert(code as char == c);
    }
}

/// What is escaped reads back as it was.
proof fn lemma_escaped_reads_back(text: Seq<char>)
    ensures
        unescaped(escaped_text(text)) == Some(text),
    decreases text.len(),
{
    if text.len() == 0 {
        assert(text =~= Seq::empty());
    } else {
        lemma_escaped_reads_back(text.drop_first());
        lemma_escape_reads_back(text[0], escaped_text(text.drop_first()));
        assert(seq![text[0]] + text.drop_first() =~= text);
    }
}

/// A JSON string stands for the text that it was made from.
pub proof fn law_quoted_reads_back(text: Seq<char>)
    ensures
        string_value(quoted(text)) == Some(text),
{
    let json = quoted(text);
    assert(json.subrange(1, json.len() - 1) =~= escaped_text(text));
    lemma_escaped_reads_back(text);
}

/// Whoever reads the text on the wire by its keys finds what was to be said: the whole
/// description and its type, or the whole candidate and the number of its media line.
pub proof fn law_wire_text_reads_back(msg: JsonMsgView)
    ensures
        match msg {
            JsonMsgView::Sdp { type_, sdp } => exists|a: Seq<char>, b: Seq<char>|
                {
                    &&& #[trigger] string_value(a) == Some(type_)
                    &&& #[trigger] string_value(b) == Some(sdp)
                    &&& wire_text(msg) == "{\"sdp\":{\"type\":"@ + a + ",\"sdp\":"@ + b
                        + "}}"@
                },
            JsonMsgView::Ice { candidate, sdp_mline_index } => exists|a: Seq<char>, n: Seq<char>|
                {
                    &&& #[trigger] string_value(a) == Some(candidate)
                    &&& #[trigger] decimal_value(n) == sdp_mline_index
                    &&& n.len() > 0
                    &&& (n.len() > 1 ==> n[0] != '0')
                    &&& (forall|i: int| 0 <= i < n.len() ==> '0' <= #[trigger] n[i] <= '9')
                    &&& wire_text(msg) == "{\"ice\":{\"candidate\":"@ + a
                        + ",\"sdpMLineIndex\":"@ + n + "}}"@
                },
        },
{
    match msg {
        JsonMsgView::Sdp { type_, sdp } => {
            law_quoted_reads_back(type_);
            law_quoted_reads_back(sdp);
            assert(string_value(quoted(type_)) == Some(type_));
            assert(string_value(quoted(sdp)) == Some(sdp));
        },
        JsonMsgView::Ice { candidate, sdp_mline_index } => {
            let n = decimal(sdp_mline_index as nat);
            law_quoted_reads_back(candidate);
            law_decimal_reads_back(sdp_mline_index as nat);
            law_decimal_is_short(sdp_mline_index as nat, 0);
            assert(string_value(quoted(candidate)) == Some(candidate));
            assert(decimal_value(n) == sdp_mline_index);
        },
    }
}

} // verus!
