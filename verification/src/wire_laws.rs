//! The text on the wire says exactly which frame it stands for.
use crate::frames::{HistoryView, OutboundView};
use crate::keys::{lemma_first_separator, lemma_same_front};
use crate::outside::{hex_digit, json_char, json_chars, json_string};
use crate::wire::{
    decimal, field_json, fields_json, items_json, message_json, value_json, wire_fields, wire_tag,
    wire_text, Field, WireValue,
};
use vstd::prelude::*;

verus! {

/// `a` and `b` are frames of the same kind.
pub open spec fn same_kind(a: OutboundView, b: OutboundView) -> bool {
    &&& (a is HelloOk) == (b is HelloOk)
    &&& (a is DraftStart) == (b is DraftStart)
    &&& (a is DraftDelta) == (b is DraftDelta)
    &&& (a is ToolProgress) == (b is ToolProgress)
    &&& (a is ToolCallStart) == (b is ToolCallStart)
    &&& (a is ToolCallResult) == (b is ToolCallResult)
    &&& (a is DraftFinalize) == (b is DraftFinalize)
    &&& (a is DraftCancel) == (b is DraftCancel)
    &&& (a is ApprovalRequest) == (b is ApprovalRequest)
    &&& (a is TypingStart) == (b is TypingStart)
    &&& (a is TypingStop) == (b is TypingStop)
    &&& (a is HistoryResponse) == (b is HistoryResponse)
    &&& (a is ModelSetOk) == (b is ModelSetOk)
    &&& (a is ModelGetOk) == (b is ModelGetOk)
    &&& (a is NoReply) == (b is NoReply)
    &&& (a is Pong) == (b is Pong)
}

/// A tag is known by its length, its first character and, from seven characters on, its seventh.
proof fn lemma_tag_marks(frame: OutboundView)
    ensures
        !wire_tag(frame).contains('"'),
        ({
            let tag = wire_tag(frame);
            let marks = (tag.len(), tag[0], tag[6]);
            match frame {
                OutboundView::HelloOk { .. } => marks == (8nat, 'h', 'o'),
                OutboundView::DraftStart { .. } => marks == (11nat, 'd', 's'),
                OutboundView::DraftDelta { .. } => marks == (11nat, 'd', 'd'),
                OutboundView::ToolProgress { .. } => marks == (13nat, 't', 'r'),
                OutboundView::ToolCallStart { .. } => marks == (15nat, 't', 'a'),
                OutboundView::ToolCallResult { .. } => marks == (16nat, 't', 'a'),
                OutboundView::DraftFinalize { .. } => marks == (14nat, 'd', 'f'),
                OutboundView::DraftCancel { .. } => marks == (12nat, 'd', 'c'),
                OutboundView::ApprovalRequest { .. } => marks == (16nat, 'a', 'a'),
                OutboundView::TypingStart { .. } => marks == (12nat, 't', '_'),
                OutboundView::TypingStop { .. } => marks == (11nat, 't', '_'),
                OutboundView::HistoryResponse { .. } => marks == (16nat, 'h', 'y'),
                OutboundView::ModelSetOk { .. } => marks == (12nat, 'm', 's'),
                OutboundView::ModelGetOk { .. } => marks == (12nat, 'm', 'g'),
                OutboundView::NoReply { .. } => marks == (8nat, 'n', 'l'),
                OutboundView::Pong => tag.len() == 4,
            }
        }),
{
    reveal_strlit("hello_ok");
    reveal_strlit("draft_start");
    reveal_strlit("draft_delta");
    reveal_strlit("tool_progress");
    reveal_strlit("tool_call_start");
    reveal_strlit("tool_call_result");
    reveal_strlit("draft_finalize");
    reveal_strlit("draft_cancel");
    reveal_strlit("approval_request");
    reveal_strlit("typing_start");
    reveal_strlit("typing_stop");
    reveal_strlit("history_response");
    reveal_strlit("model_set_ok");
    reveal_strlit("model_get_ok");
    reveal_strlit("no_reply");
    reveal_strlit("pong");
}

/// Each kind of frame has a `type` of its own.
pub proof fn law_tags_tell_kinds_apart(a: OutboundView, b: OutboundView)
    requires
        wire_tag(a) == wire_tag(b),
    ensures
        same_kind(a, b),
{
    lemma_tag_marks(a);
    lemma_tag_marks(b);
}

/// The first character of a JSON string can be read off its front.
proof fn lemma_json_chars_front(s: Seq<char>)
    requires
        s.len() > 0,
    ensures
        json_chars(s) == json_char(s[0]) + json_chars(s.drop_first()),
    decreases s.len(),
{
    if s.len() == 1 {
        assert(s.drop_last() =~= seq![]);
        assert(s.drop_first() =~= seq![]);
        assert(json_chars(s) =~= json_char(s[0]) + json_chars(s.drop_first()));
    } else {
        lemma_json_chars_front(s.drop_last());
        assert(s.drop_last().drop_first() =~= s.drop_first().drop_last());
        assert(json_chars(s) =~= json_char(s[0]) + json_chars(s.drop_first()));
    }
}

/// Two texts that start with written characters start with the same character, and go on alike.
proof fn lemma_json_char_front(c: char, x: Seq<char>, d: char, y: Seq<char>)
    requires
        json_char(c) + x == json_char(d) + y,
    ensures
        c == d,
        x == y,
{
    let l = json_char(c) + x;
    let r = json_char(d) + y;
    assert(l[0] == json_char(c)[0]);
    assert(r[0] == json_char(d)[0]);
    if json_char(c).len() > 1 && json_char(d).len() > 1 {
        assert(l[1] == json_char(c)[1]);
        assert(r[1] == json_char(d)[1]);
        if json_char(c).len() == 6 && json_char(d).len() == 6 {
            assert(l[4] == json_char(c)[4]);
            assert(r[4] == json_char(d)[4]);
            assert(l[5] == json_char(c)[5]);
            assert(r[5] == json_char(d)[5]);
            assert(hex_digit(c as int / 16) == hex_digit(d as int / 16));
            assert(hex_digit(c as int % 16) == hex_digit(d as int % 16));
            assert(c as int == d as int);
        }
    }
    assert(c == d);
    lemma_same_front(json_char(c), x, y);
}

/// Two texts that start with JSON strings start with the same string, and go on alike.
proof fn lemma_json_string_front(a: Seq<char>, x: Seq<char>, b: Seq<char>, y: Seq<char>)
    requires
        json_string(a) + x == json_string(b) + y,
    ensures
        a == b,
        x == y,
{
    let q = seq!['"'];
    assert(json_string(a) + x =~= q + (json_chars(a) + q + x));
    assert(json_string(b) + y =~= q + (json_chars(b) + q + y));
    lemma_same_front(q, json_chars(a) + q + x, json_chars(b) + q + y);
    lemma_json_chars_end(a, x, b, y);
}

/// Two texts that start with the characters of JSON strings, each up to its closing quote, start
/// with the same ones, and go on alike.
proof fn lemma_json_chars_end(a: Seq<char>, x: Seq<char>, b: Seq<char>, y: Seq<char>)
    requires
        json_chars(a) + seq!['"'] + x == json_chars(b) + seq!['"'] + y,
    ensures
        a == b,
        x == y,
    decreases a.len(),
{
    let q = seq!['"'];
    let l = json_chars(a) + q + x;
    let r = json_chars(b) + q + y;
    if a.len() == 0 || b.len() == 0 {
        if a.len() > 0 {
            lemma_json_chars_front(a);
            assert(l[0] == json_char(a[0])[0]);
            assert(r[0] == '"');
        }
        if b.len() > 0 {
            lemma_json_chars_front(b);
            assert(r[0] == json_char(b[0])[0]);
            assert(l[0] == '"');
        }
        assert(a =~= b);
        assert(l =~= q + x);
        assert(r =~= q + y);
        lemma_same_front(q, x, y);
    } else {
        lemma_json_chars_front(a);
        lemma_json_chars_front(b);
        let l1 = json_chars(a.drop_first()) + q + x;
        let r1 = json_chars(b.drop_first()) + q + y;
        assert(l =~= json_char(a[0]) + l1);
        assert(r =~= json_char(b[0]) + r1);
        lemma_json_char_front(a[0], l1, b[0], r1);
        lemma_json_chars_end(a.drop_first(), x, b.drop_first(), y);
        assert(a =~= seq![a[0]] + a.drop_first());
        assert(b =~= seq![b[0]] + b.drop_first());
    }
}

/// `c` is a decimal digit.
spec fn is_digit(c: char) -> bool {
    '0' <= c && c <= '9'
}

/// A number is written in digits, at least one.
proof fn lemma_decimal_digits(n: nat)
    ensures
        decimal(n).len() > 0,
        forall|i: int| 0 <= i < decimal(n).len() ==> is_digit(#[trigger] decimal(n)[i]),
    decreases n,
{
    if n >= 10 {
        lemma_decimal_digits(n / 10);
    }
}

/// Different numbers are written differently.
proof fn lemma_decimal_injective(m: nat, n: nat)
    requires
        decimal(m) == decimal(n),
    ensures
        m == n,
    decreases m,
{
    lemma_decimal_digits(m / 10);
    lemma_decimal_digits(n / 10);
    assert(decimal(m).last() == (48 + m % 10) as char);
    assert(decimal(n).last() == (48 + n % 10) as char);
    assert(m % 10 == n % 10);
    assert(m < 10 <==> decimal(m).len() == 1);
    assert(n < 10 <==> decimal(n).len() == 1);
    if m >= 10 {
        assert(decimal(m).drop_last() =~= decimal(m / 10));
        assert(decimal(n).drop_last() =~= decimal(n / 10));
        lemma_decimal_injective(m / 10, n / 10);
    }
}

/// Two texts that start with numbers and go on with something else start with the same number,
/// and go on alike.
proof fn lemma_decimal_front(m: nat, x: Seq<char>, n: nat, y: Seq<char>)
    requires
        decimal(m) + x == decimal(n) + y,
        x.len() > 0 && !is_digit(x[0]),
        y.len() > 0 && !is_digit(y[0]),
    ensures
        m == n,
        x == y,
{
    let l = decimal(m) + x;
    let r = decimal(n) + y;
    lemma_decimal_digits(m);
    lemma_decimal_digits(n);
    let p = decimal(m).len() as int;
    let q = decimal(n).len() as int;
    assert(l[p] == x[0]);
    assert(r[q] == y[0]);
    if p < q {
        assert(r[p] == decimal(n)[p]);
    }
    if q < p {
        assert(l[q] == decimal(m)[q]);
    }
    assert(p == q);
    assert(l.take(p) =~= decimal(m));
    assert(r.take(q) =~= decimal(n));
    lemma_decimal_injective(m, n);
    lemma_same_front(decimal(m), x, y);
}

/// Two texts that start with messages start with the same message, and go on alike.
proof fn lemma_message_front(a: HistoryView, x: Seq<char>, b: HistoryView, y: Seq<char>)
    requires
        message_json(a) + x == message_json(b) + y,
    ensures
        a == b,
        x == y,
{
    let role = "{\"role\":"@;
    let content = ",\"content\":"@;
    let ts = ",\"ts\":"@;
    reveal_strlit("}");
    let end = "}"@;
    let a3 = decimal(a.ts as nat) + (end + x);
    let b3 = decimal(b.ts as nat) + (end + y);
    let a2 = json_string(a.content) + (ts + a3);
    let b2 = json_string(b.content) + (ts + b3);
    let a1 = json_string(a.role) + (content + a2);
    let b1 = json_string(b.role) + (content + b2);
    assert(message_json(a) + x =~= role + a1);
    assert(message_json(b) + y =~= role + b1);
    lemma_same_front(role, a1, b1);
    lemma_json_string_front(a.role, content + a2, b.role, content + b2);
    lemma_same_front(content, a2, b2);
    lemma_json_string_front(a.content, ts + a3, b.content, ts + b3);
    lemma_same_front(ts, a3, b3);
    assert((end + x)[0] == '}');
    assert((end + y)[0] == '}');
    lemma_decimal_front(a.ts as nat, end + x, b.ts as nat, end + y);
    lemma_same_front(end, x, y);
}

/// What follows the first item of an array.
spec fn more_items_json(messages: Seq<HistoryView>) -> Seq<char> {
    if messages.len() == 0 {
        seq![]
    } else {
        ","@ + items_json(messages)
    }
}

/// The first item of an array can be read off its front.
proof fn lemma_items_front(messages: Seq<HistoryView>)
    requires
        messages.len() > 0,
    ensures
        items_json(messages) == message_json(messages[0]) + more_items_json(messages.drop_first()),
    decreases messages.len(),
{
    let rest = messages.drop_first();
    if messages.len() == 1 {
        assert(items_json(messages) =~= message_json(messages[0]) + more_items_json(rest));
    } else {
        lemma_items_front(messages.drop_last());
        assert(messages.drop_last().drop_first() =~= rest.drop_last());
        if rest.len() == 1 {
            assert(rest[0] == messages.last());
        }
        assert(items_json(messages) =~= message_json(messages[0]) + more_items_json(rest));
    }
}

/// A message starts with a brace.
proof fn lemma_message_start(message: HistoryView)
    ensures
        message_json(message).len() > 0,
        message_json(message)[0] == '{',
{
    reveal_strlit("{\"role\":");
}

/// The items of an array, up to its closing bracket, start with a brace unless there are none.
proof fn lemma_items_start(messages: Seq<HistoryView>, rest: Seq<char>)
    ensures
        ({
            let text = items_json(messages) + "]"@ + rest;
            &&& text.len() > 0
            &&& text[0] == if messages.len() == 0 {
                ']'
            } else {
                '{'
            }
        }),
{
    reveal_strlit("]");
    if messages.len() > 0 {
        lemma_items_front(messages);
        lemma_message_start(messages[0]);
    }
}

/// What follows the first item, up to the closing bracket, starts with a comma unless there is
/// none.
proof fn lemma_more_items_start(messages: Seq<HistoryView>, rest: Seq<char>)
    ensures
        ({
            let text = more_items_json(messages) + "]"@ + rest;
            &&& text.len() > 0
            &&& text[0] == if messages.len() == 0 {
                ']'
            } else {
                ','
            }
        }),
{
    reveal_strlit("]");
    reveal_strlit(",");
}

/// Two texts that start with the items of arrays, each up to its closing bracket, start with the
/// same items, and go on alike.
proof fn lemma_items_end(a: Seq<HistoryView>, x: Seq<char>, b: Seq<HistoryView>, y: Seq<char>)
    requires
        items_json(a) + "]"@ + x == items_json(b) + "]"@ + y,
    ensures
        a == b,
        x == y,
    decreases a.len(),
{
    lemma_items_start(a, x);
    lemma_items_start(b, y);
    let close = "]"@;
    if a.len() == 0 {
        assert(a =~= b);
        lemma_same_front(close, x, y);
    } else {
        let a1 = a.drop_first();
        let b1 = b.drop_first();
        let l = items_json(a1) + close + x;
        let r = items_json(b1) + close + y;
        assert(a[0] == b[0] && l == r) by {
            lemma_first_item(a, x, b, y);
        }
        lemma_items_end(a1, x, b1, y);
        assert(a =~= seq![a[0]] + a1);
        assert(b =~= seq![b[0]] + b1);
    }
}

/// Texts that follow each other can be read in any grouping.
proof fn lemma_regroup(p: Seq<char>, q: Seq<char>, r: Seq<char>, s: Seq<char>)
    ensures
        p + q + r + s == p + (q + r + s),
{
    assert(p + q + r + s =~= p + (q + r + s));
}

/// Two texts that start with the items of arrays have the first item in common, and behind it
/// either both more items or both none.
proof fn lemma_first_item(a: Seq<HistoryView>, x: Seq<char>, b: Seq<HistoryView>, y: Seq<char>)
    requires
        a.len() > 0,
        b.len() > 0,
        items_json(a) + "]"@ + x == items_json(b) + "]"@ + y,
    ensures
        a[0] == b[0],
        items_json(a.drop_first()) + "]"@ + x == items_json(b.drop_first()) + "]"@ + y,
{
    let close = "]"@;
    let a1 = a.drop_first();
    let b1 = b.drop_first();
    let l = more_items_json(a1) + close + x;
    let r = more_items_json(b1) + close + y;
    assert(message_json(a[0]) + l == message_json(b[0]) + r) by {
        lemma_items_front(a);
        lemma_items_front(b);
        lemma_regroup(message_json(a[0]), more_items_json(a1), close, x);
        lemma_regroup(message_json(b[0]), more_items_json(b1), close, y);
    }
    lemma_message_front(a[0], l, b[0], r);
    lemma_more_items_start(a1, x);
    lemma_more_items_start(b1, y);
    let l1 = items_json(a1) + close + x;
    let r1 = items_json(b1) + close + y;
    if a1.len() > 0 {
        lemma_regroup(","@, items_json(a1), close, x);
        lemma_regroup(","@, items_json(b1), close, y);
        lemma_same_front(","@, l1, r1);
    }
}

/// `a` and `b` are values of the same sort.
spec fn same_sort(a: WireValue, b: WireValue) -> bool {
    &&& (a is Text) == (b is Text)
    &&& (a is OptionalText) == (b is OptionalText)
    &&& (a is Flag) == (b is Flag)
    &&& (a is Number) == (b is Number)
    &&& (a is Messages) == (b is Messages)
}

/// Two texts that start with values of the same sort and go on with the rest of an object start
/// with the same value, and go on alike.
proof fn lemma_value_front(a: WireValue, x: Seq<char>, b: WireValue, y: Seq<char>)
    requires
        value_json(a) + x == value_json(b) + y,
        same_sort(a, b),
        x.len() > 0 && !is_digit(x[0]),
        y.len() > 0 && !is_digit(y[0]),
    ensures
        a == b,
        x == y,
{
    reveal_strlit("null");
    reveal_strlit("true");
    reveal_strlit("false");
    let l = value_json(a) + x;
    let r = value_json(b) + y;
    match (a, b) {
        (WireValue::Text(s), WireValue::Text(t)) => {
            lemma_json_string_front(s, x, t, y);
        },
        (WireValue::OptionalText(s), WireValue::OptionalText(t)) => {
            assert(l[0] == value_json(a)[0]);
            assert(r[0] == value_json(b)[0]);
            match (s, t) {
                (Some(s), Some(t)) => {
                    lemma_json_string_front(s, x, t, y);
                },
                (None, None) => {
                    lemma_same_front("null"@, x, y);
                },
                _ => {},
            }
        },
        (WireValue::Flag(s), WireValue::Flag(t)) => {
            assert(l[0] == value_json(a)[0]);
            assert(r[0] == value_json(b)[0]);
            lemma_same_front(value_json(a), x, y);
        },
        (WireValue::Number(s), WireValue::Number(t)) => {
            lemma_decimal_front(s as nat, x, t as nat, y);
        },
        (WireValue::Messages(s), WireValue::Messages(t)) => {
            let open = "["@;
            let close = "]"@;
            assert(l =~= open + (items_json(s) + close + x));
            assert(r =~= open + (items_json(t) + close + y));
            lemma_same_front(open, items_json(s) + close + x, items_json(t) + close + y);
            lemma_items_end(s, x, t, y);
        },
        _ => {},
    }
}

/// The first field of an object can be read off its front.
proof fn lemma_fields_front(fields: Seq<Field>)
    requires
        fields.len() > 0,
    ensures
        fields_json(fields) == field_json(fields[0]) + fields_json(fields.drop_first()),
    decreases fields.len(),
{
    let rest = fields.drop_first();
    if fields.len() == 1 {
        assert(fields.drop_last() =~= seq![]);
        assert(rest =~= seq![]);
        assert(fields_json(fields) =~= field_json(fields[0]) + fields_json(rest));
    } else {
        lemma_fields_front(fields.drop_last());
        assert(fields.drop_last().drop_first() =~= rest.drop_last());
        assert(fields_json(fields) =~= field_json(fields[0]) + fields_json(rest));
    }
}

/// Fields that follow each other are written one after the other.
proof fn lemma_fields_concat(a: Seq<Field>, b: Seq<Field>)
    ensures
        fields_json(a + b) == fields_json(a) + fields_json(b),
    decreases b.len(),
{
    if b.len() == 0 {
        assert(a + b =~= a);
        assert(fields_json(a + b) =~= fields_json(a) + fields_json(b));
    } else {
        lemma_fields_concat(a, b.drop_last());
        assert((a + b).drop_last() =~= a + b.drop_last());
        assert(fields_json(a + b) =~= fields_json(a) + fields_json(b));
    }
}

/// The rest of an object starts with a comma or ends it.
proof fn lemma_fields_start(fields: Seq<Field>, rest: Seq<char>)
    requires
        rest.len() > 0 && !is_digit(rest[0]),
    ensures
        ({
            let text = fields_json(fields) + rest;
            text.len() > 0 && !is_digit(text[0])
        }),
{
    reveal_strlit(",\"");
    if fields.len() > 0 {
        lemma_fields_front(fields);
        assert(field_json(fields[0])[0] == ',');
        assert((fields_json(fields) + rest)[0] == field_json(fields[0])[0]);
    } else {
        assert((fields_json(fields) + rest)[0] == rest[0]);
    }
}

/// `a` and `b` have the same names, and values of the same sorts.
spec fn same_shape(a: Seq<Field>, b: Seq<Field>) -> bool {
    &&& a.len() == b.len()
    &&& forall|i: int|
        0 <= i < a.len() ==> (#[trigger] a[i]).0 == b[i].0 && same_sort(a[i].1, b[i].1)
}

/// Two texts that start with fields of the same shape start with the same fields, and go on
/// alike.
proof fn lemma_fields_prefix(a: Seq<Field>, x: Seq<char>, b: Seq<Field>, y: Seq<char>)
    requires
        same_shape(a, b),
        fields_json(a) + x == fields_json(b) + y,
        x.len() > 0 && !is_digit(x[0]),
        y.len() > 0 && !is_digit(y[0]),
    ensures
        a == b,
        x == y,
    decreases a.len(),
{
    if a.len() == 0 {
        assert(a =~= b);
        assert(fields_json(a) + x =~= x);
        assert(fields_json(b) + y =~= y);
    } else {
        lemma_fields_front(a);
        lemma_fields_front(b);
        let a1 = a.drop_first();
        let b1 = b.drop_first();
        let l = fields_json(a1) + x;
        let r = fields_json(b1) + y;
        let name = ",\""@ + a[0].0 + "\":"@;
        assert(a[0].0 == b[0].0);
        assert(fields_json(a) + x =~= name + (value_json(a[0].1) + l));
        assert(fields_json(b) + y =~= name + (value_json(b[0].1) + r));
        lemma_same_front(name, value_json(a[0].1) + l, value_json(b[0].1) + r);
        lemma_fields_start(a1, x);
        lemma_fields_start(b1, y);
        lemma_value_front(a[0].1, l, b[0].1, r);
        assert forall|i: int| 0 <= i < a1.len() implies (#[trigger] a1[i]).0 == b1[i].0
            && same_sort(a1[i].1, b1[i].1) by {
            assert(a1[i] == a[i + 1]);
            assert(b1[i] == b[i + 1]);
        }
        lemma_fields_prefix(a1, x, b1, y);
        assert(a[0] == b[0]);
        assert(a =~= seq![a[0]] + a1);
        assert(b =~= seq![b[0]] + b1);
    }
}

/// `frame` gives a reason.
spec fn has_reason(frame: OutboundView) -> bool {
    frame matches OutboundView::NoReply { reason, .. } && reason is Some
}

/// Frames of the same kind that give a reason both or neither have the same shape.
proof fn lemma_same_shape(a: OutboundView, b: OutboundView)
    requires
        same_kind(a, b),
        has_reason(a) == has_reason(b),
    ensures
        same_shape(wire_fields(a), wire_fields(b)),
{
}

/// A frame is known by its kind and its fields.
proof fn lemma_fields_pin(a: OutboundView, b: OutboundView)
    requires
        same_kind(a, b),
        has_reason(a) == has_reason(b),
        wire_fields(a) == wire_fields(b),
    ensures
        a == b,
{
    let f = wire_fields(a);
    let g = wire_fields(b);
    assert(f[0] == g[0] && f[1] == g[1] && f[2] == g[2]);
    assert(f[3] == g[3] && f[4] == g[4] && f[5] == g[5]);
}

/// A `no_reply` that gives a reason is not written like one that gives none.
proof fn lemma_reason_shows(a: OutboundView, b: OutboundView)
    requires
        a is NoReply,
        b is NoReply,
        has_reason(a),
        !has_reason(b),
    ensures
        fields_json(wire_fields(a)) + "}"@ != fields_json(wire_fields(b)) + "}"@,
{
    let f = wire_fields(a);
    let g = wire_fields(b);
    let f1 = f.take(3);
    let f2 = f.skip(3);
    let g1 = g.take(3);
    let g2 = g.skip(3);
    assert(f =~= f1 + f2);
    assert(g =~= g1 + g2);
    lemma_fields_concat(f1, f2);
    lemma_fields_concat(g1, g2);
    let x = fields_json(f2) + "}"@;
    let y = fields_json(g2) + "}"@;
    if fields_json(f) + "}"@ == fields_json(g) + "}"@ {
        assert(fields_json(f) + "}"@ =~= fields_json(f1) + x);
        assert(fields_json(g) + "}"@ =~= fields_json(g1) + y);
        reveal_strlit("}");
        reveal_strlit(",\"");
        reveal_strlit("reason");
        reveal_strlit("elapsed_ms");
        lemma_fields_start(f2, "}"@);
        lemma_fields_start(g2, "}"@);
        lemma_fields_prefix(f1, x, g1, y);
        lemma_fields_front(f2);
        lemma_fields_front(g2);
        assert(f2[0].0 == "reason"@);
        assert(g2[0].0 == "elapsed_ms"@);
        assert(x[2] == field_json(f2[0])[2]);
        assert(y[2] == field_json(g2[0])[2]);
        assert(field_json(f2[0])[2] == 'r');
        assert(field_json(g2[0])[2] == 'e');
    }
}

/// No two frames are written alike: what a client reads off the wire is the frame that was sent.
pub proof fn law_wire_text_tells_frames_apart(a: OutboundView, b: OutboundView)
    requires
        wire_text(a) == wire_text(b),
    ensures
        a == b,
{
    reveal_strlit("\"");
    reveal_strlit("}");
    let open = "{\"type\":\""@;
    let x = fields_json(wire_fields(a)) + "}"@;
    let y = fields_json(wire_fields(b)) + "}"@;
    let quote = seq!['"'];
    assert("\""@ =~= quote);
    assert(wire_text(a) =~= open + (wire_tag(a) + quote + x));
    assert(wire_text(b) =~= open + (wire_tag(b) + quote + y));
    lemma_same_front(open, wire_tag(a) + quote + x, wire_tag(b) + quote + y);
    lemma_tag_marks(a);
    lemma_tag_marks(b);
    lemma_first_separator(wire_tag(a), x, wire_tag(b), y, '"');
    law_tags_tell_kinds_apart(a, b);
    if has_reason(a) != has_reason(b) {
        if has_reason(a) {
            lemma_reason_shows(a, b);
        } else {
            lemma_reason_shows(b, a);
        }
    }
    lemma_same_shape(a, b);
    lemma_fields_prefix(wire_fields(a), "}"@, wire_fields(b), "}"@);
    lemma_fields_pin(a, b);
}

/// How one field is written.
proof fn lemma_one_field(a: Field)
    ensures
        fields_json(seq![a]) == field_json(a),
{
    let none = Seq::<Field>::empty();
    assert(seq![a].drop_last() =~= none);
    assert(fields_json(none) =~= seq![]);
    assert(fields_json(seq![a]) =~= field_json(a));
}

/// How two fields are written.
proof fn lemma_two_fields(a: Field, b: Field)
    ensures
        fields_json(seq![a, b]) == field_json(a) + field_json(b),
{
    lemma_one_field(a);
    assert(seq![a, b].drop_last() =~= seq![a]);
    assert(fields_json(seq![a, b]) =~= field_json(a) + field_json(b));
}

/// How three fields are written.
proof fn lemma_three_fields(a: Field, b: Field, c: Field)
    ensures
        fields_json(seq![a, b, c]) == field_json(a) + field_json(b) + field_json(c),
{
    lemma_two_fields(a, b);
    assert(seq![a, b, c].drop_last() =~= seq![a, b]);
    assert(fields_json(seq![a, b, c]) =~= field_json(a) + field_json(b) + field_json(c));
}

/// How four fields are written.
proof fn lemma_four_fields(a: Field, b: Field, c: Field, d: Field)
    ensures
        fields_json(seq![a, b, c, d]) == field_json(a) + field_json(b) + field_json(c) + field_json(d),
{
    lemma_three_fields(a, b, c);
    assert(seq![a, b, c, d].drop_last() =~= seq![a, b, c]);
    assert(fields_json(seq![a, b, c, d]) =~= field_json(a) + field_json(b) + field_json(c) + field_json(d));
}

/// How five fields are written.
proof fn lemma_five_fields(a: Field, b: Field, c: Field, d: Field, e: Field)
    ensures
        fields_json(seq![a, b, c, d, e]) == field_json(a) + field_json(b) + field_json(c) + field_json(d) + field_json(e),
{
    lemma_four_fields(a, b, c, d);
    assert(seq![a, b, c, d, e].drop_last() =~= seq![a, b, c, d]);
    assert(fields_json(seq![a, b, c, d, e]) =~= field_json(a) + field_json(b) + field_json(c) + field_json(d) + field_json(e));
}


/// A member of a JSON object that follows another.
pub open spec fn member(name: Seq<char>, value: Seq<char>) -> Seq<char> {
    ",\""@ + name + "\":"@ + value
}

/// A JSON object whose first member is its `type`.
pub open spec fn object(tag: Seq<char>, members: Seq<char>) -> Seq<char> {
    "{\"type\":\""@ + tag + "\""@ + members + "}"@
}

/// A text as a JSON string, or `null` where there is none.
pub open spec fn text_or_null(text: Option<Seq<char>>) -> Seq<char> {
    match text {
        Some(t) => json_string(t),
        None => "null"@,
    }
}

/// How the fields of a `no_reply` are written.
proof fn lemma_no_reply_fields(frame: OutboundView)
    requires
        frame is NoReply,
    ensures
        frame matches OutboundView::NoReply {
            sender_id,
            message_id,
            kind,
            reason,
            elapsed_ms,
            display_text,
        } ==> fields_json(wire_fields(frame)) == member("sender_id"@, json_string(sender_id))
            + member("message_id"@, json_string(message_id)) + member("kind"@, json_string(kind)) + (
        match reason {
            Some(reason) => member("reason"@, json_string(reason)),
            None => seq![],
        }) + member("elapsed_ms"@, decimal(elapsed_ms as nat)) + member(
            "display_text"@,
            json_string(display_text),
        ),
{
    if let OutboundView::NoReply {
        sender_id,
        message_id,
        kind,
        reason,
        elapsed_ms,
        display_text,
    } = frame {
        let first = seq![
            ("sender_id"@, WireValue::Text(sender_id)),
            ("message_id"@, WireValue::Text(message_id)),
            ("kind"@, WireValue::Text(kind)),
        ];
        let middle = match reason {
            Some(reason) => seq![("reason"@, WireValue::Text(reason))],
            None => seq![],
        };
        let last = seq![
            ("elapsed_ms"@, WireValue::Number(elapsed_ms)),
            ("display_text"@, WireValue::Text(display_text)),
        ];
        assert(wire_fields(frame) =~= first + middle + last);
        lemma_fields_concat(first + middle, last);
        lemma_fields_concat(first, middle);
        lemma_three_fields(first[0], first[1], first[2]);
        if let Some(reason) = reason {
            lemma_one_field(middle[0]);
        }
        lemma_two_fields(last[0], last[1]);
        assert(fields_json(first + middle + last) =~= member(
            "sender_id"@,
            json_string(sender_id),
        ) + member("message_id"@, json_string(message_id)) + member(
            "kind"@,
            json_string(kind),
        ) + (match reason {
            Some(reason) => member("reason"@, json_string(reason)),
            None => seq![],
        }) + member("elapsed_ms"@, decimal(elapsed_ms as nat)) + member(
            "display_text"@,
            json_string(display_text),
        ));
    }
}

/// What goes over the wire for each kind of frame: its `type` and, under their own names and in
/// their order, its own fields.
#[verifier::rlimit(40)]
pub proof fn law_frames_are_written_under_their_names(frame: OutboundView)
    ensures
        match frame {
            OutboundView::HelloOk { daemon_version } => {
                wire_text(frame) == object(
                    "hello_ok"@,
                    member("daemon_version"@, json_string(daemon_version)),
                )
            },
            OutboundView::DraftStart { sender_id, draft_id, conversation_id } => {
                wire_text(frame) == object(
                    "draft_start"@,
                    member("sender_id"@, json_string(sender_id))
                    + member("draft_id"@, json_string(draft_id))
                    + member("conversation_id"@, json_string(conversation_id)),
                )
            },
            OutboundView::DraftDelta { draft_id, text } => {
                wire_text(frame) == object(
                    "draft_delta"@,
                    member("draft_id"@, json_string(draft_id))
                    + member("text"@, json_string(text)),
                )
            },
            OutboundView::ToolProgress { draft_id, text } => {
                wire_text(frame) == object(
                    "tool_progress"@,
                    member("draft_id"@, json_string(draft_id))
                    + member("text"@, json_string(text)),
                )
            },
            OutboundView::ToolCallStart { draft_id, tool_id, tool_name, arguments_json } => {
                wire_text(frame) == object(
                    "tool_call_start"@,
                    member("draft_id"@, json_string(draft_id))
                    + member("tool_id"@, text_or_null(tool_id))
                    + member("tool_name"@, json_string(tool_name))
                    + member("arguments_json"@, json_string(arguments_json)),
                )
            },
            OutboundView::ToolCallResult { draft_id, tool_id, tool_name, success, output } => {
                wire_text(frame) == object(
                    "tool_call_result"@,
                    member("draft_id"@, json_string(draft_id))
                    + member("tool_id"@, text_or_null(tool_id))
                    + member("tool_name"@, json_string(tool_name))
                    + member(
                    "success"@,
                    if success {
                        "true"@
                    } else {
                        "false"@
                    },
                )
                    + member("output"@, json_string(output)),
                )
            },
            OutboundView::DraftFinalize { draft_id, text } => {
                wire_text(frame) == object(
                    "draft_finalize"@,
                    member("draft_id"@, json_string(draft_id))
                    + member("text"@, json_string(text)),
                )
            },
            OutboundView::DraftCancel { draft_id } => {
                wire_text(frame) == object(
                    "draft_cancel"@,
                    member("draft_id"@, json_string(draft_id)),
                )
            },
            OutboundView::ApprovalRequest {
                sender_id,
                request_id,
                tool_name,
                arguments_summary,
            } => {
                wire_text(frame) == object(
                    "approval_request"@,
                    member("sender_id"@, json_string(sender_id))
                    + member("request_id"@, json_string(request_id))
                    + member("tool_name"@, json_string(tool_name))
                    + member("arguments_summary"@, json_string(arguments_summary)),
                )
            },
            OutboundView::TypingStart { sender_id } => {
                wire_text(frame) == object(
                    "typing_start"@,
                    member("sender_id"@, json_string(sender_id)),
                )
            },
            OutboundView::TypingStop { sender_id } => {
                wire_text(frame) == object(
                    "typing_stop"@,
                    member("sender_id"@, json_string(sender_id)),
                )
            },
            OutboundView::HistoryResponse { sender_id, reply_target, messages } => {
                wire_text(frame) == object(
                    "history_response"@,
                    member("sender_id"@, json_string(sender_id))
                    + member("reply_target"@, json_string(reply_target))
                    + member("messages"@, "["@ + items_json(messages) + "]"@),
                )
            },
            OutboundView::ModelSetOk { sender_id, reply_target, model } => {
                wire_text(frame) == object(
                    "model_set_ok"@,
                    member("sender_id"@, json_string(sender_id))
                    + member("reply_target"@, json_string(reply_target))
                    + member("model"@, json_string(model)),
                )
            },
            OutboundView::ModelGetOk { sender_id, reply_target, thread_ts, model } => {
                wire_text(frame) == object(
                    "model_get_ok"@,
                    member("sender_id"@, json_string(sender_id))
                    + member("reply_target"@, json_string(reply_target))
                    + member("thread_ts"@, text_or_null(thread_ts))
                    + member("model"@, text_or_null(model)),
                )
            },
            OutboundView::NoReply {
                sender_id,
                message_id,
                kind,
                reason,
                elapsed_ms,
                display_text,
            } => {
                wire_text(frame) == object(
                    "no_reply"@,
                    member("sender_id"@, json_string(sender_id)) + member(
                    "message_id"@,
                    json_string(message_id),
                ) + member("kind"@, json_string(kind)) + (match reason {
                    Some(reason) => member("reason"@, json_string(reason)),
                    None => seq![],
                }) + member("elapsed_ms"@, decimal(elapsed_ms as nat)) + member(
                    "display_text"@,
                    json_string(display_text),
                ),
                )
            },
            OutboundView::Pong => {
                wire_text(frame) == object(
                    "pong"@,
                    Seq::<char>::empty(),
                )
            },
        },
{
    match frame {
        OutboundView::HelloOk { daemon_version } => {
            lemma_one_field(
                ("daemon_version"@, WireValue::Text(daemon_version)),
            );
        },
        OutboundView::DraftStart { sender_id, draft_id, conversation_id } => {
            lemma_three_fields(
                ("sender_id"@, WireValue::Text(sender_id)),
                ("draft_id"@, WireValue::Text(draft_id)),
                ("conversation_id"@, WireValue::Text(conversation_id)),
            );
        },
        OutboundView::DraftDelta { draft_id, text } => {
            lemma_two_fields(
                ("draft_id"@, WireValue::Text(draft_id)),
                ("text"@, WireValue::Text(text)),
            );
        },
        OutboundView::ToolProgress { draft_id, text } => {
            lemma_two_fields(
                ("draft_id"@, WireValue::Text(draft_id)),
                ("text"@, WireValue::Text(text)),
            );
        },
        OutboundView::ToolCallStart { draft_id, tool_id, tool_name, arguments_json } => {
            lemma_four_fields(
                ("draft_id"@, WireValue::Text(draft_id)),
                ("tool_id"@, WireValue::OptionalText(tool_id)),
                ("tool_name"@, WireValue::Text(tool_name)),
                ("arguments_json"@, WireValue::Text(arguments_json)),
            );
        },
        OutboundView::ToolCallResult { draft_id, tool_id, tool_name, success, output } => {
            lemma_five_fields(
                ("draft_id"@, WireValue::Text(draft_id)),
                ("tool_id"@, WireValue::OptionalText(tool_id)),
                ("tool_name"@, WireValue::Text(tool_name)),
                ("success"@, WireValue::Flag(success)),
                ("output"@, WireValue::Text(output)),
            );
        },
        OutboundView::DraftFinalize { draft_id, text } => {
            lemma_two_fields(
                ("draft_id"@, WireValue::Text(draft_id)),
                ("text"@, WireValue::Text(text)),
            );
        },
        OutboundView::DraftCancel { draft_id } => {
            lemma_one_field(
                ("draft_id"@, WireValue::Text(draft_id)),
            );
        },
        OutboundView::ApprovalRequest {
            sender_id,
            request_id,
            tool_name,
            arguments_summary,
        } => {
            lemma_four_fields(
                ("sender_id"@, WireValue::Text(sender_id)),
                ("request_id"@, WireValue::Text(request_id)),
                ("tool_name"@, WireValue::Text(tool_name)),
                ("arguments_summary"@, WireValue::Text(arguments_summary)),
            );
        },
        OutboundView::TypingStart { sender_id } => {
            lemma_one_field(
                ("sender_id"@, WireValue::Text(sender_id)),
            );
        },
        OutboundView::TypingStop { sender_id } => {
            lemma_one_field(
                ("sender_id"@, WireValue::Text(sender_id)),
            );
        },
        OutboundView::HistoryResponse { sender_id, reply_target, messages } => {
            lemma_three_fields(
                ("sender_id"@, WireValue::Text(sender_id)),
                ("reply_target"@, WireValue::Text(reply_target)),
                ("messages"@, WireValue::Messages(messages)),
            );
        },
        OutboundView::ModelSetOk { sender_id, reply_target, model } => {
            lemma_three_fields(
                ("sender_id"@, WireValue::Text(sender_id)),
                ("reply_target"@, WireValue::Text(reply_target)),
                ("model"@, WireValue::Text(model)),
            );
        },
        OutboundView::ModelGetOk { sender_id, reply_target, thread_ts, model } => {
            lemma_four_fields(
                ("sender_id"@, WireValue::Text(sender_id)),
                ("reply_target"@, WireValue::Text(reply_target)),
                ("thread_ts"@, WireValue::OptionalText(thread_ts)),
                ("model"@, WireValue::OptionalText(model)),
            );
        },
        OutboundView::NoReply { .. } => {
            lemma_no_reply_fields(frame);
        },
        OutboundView::Pong => {},
    }
}

/// The number that decimal digits stand for.
pub open spec fn number_of(digits: Seq<char>) -> int
    decreases digits.len(),
{
    if digits.len() == 0 {
        0
    } else {
        number_of(digits.drop_last()) * 10 + (digits.last() as int - '0' as int)
    }
}

/// A number is written so that it reads back: in decimal digits, with no zero in front unless it is
/// zero.
pub proof fn law_numbers_read_back(n: nat)
    ensures
        number_of(decimal(n)) == n,
        forall|i: int|
            0 <= i < decimal(n).len() ==> '0' <= #[trigger] decimal(n)[i] && decimal(n)[i] <= '9',
        decimal(n).len() > 0,
        n > 0 ==> decimal(n)[0] != '0',
    decreases n,
{
    lemma_decimal_digits(n);
    assert forall|i: int| 0 <= i < decimal(n).len() implies '0' <= #[trigger] decimal(n)[i]
        && decimal(n)[i] <= '9' by {
        assert(is_digit(decimal(n)[i]));
    }
    reveal_with_fuel(number_of, 2);
    if n < 10 {
        assert(decimal(n).drop_last() =~= Seq::<char>::empty());
    } else {
        law_numbers_read_back(n / 10);
        assert(decimal(n).drop_last() =~= decimal(n / 10));
        assert(decimal(n)[0] == decimal(n / 10)[0]);
    }
}

/// The items of an array are its messages in their order, with commas between them, and each
/// message is an object of its role, its text and its time.
pub proof fn law_histories_are_written_in_order(
    messages: Seq<HistoryView>,
    message: HistoryView,
)
    ensures
        items_json(Seq::<HistoryView>::empty()).len() == 0,
        messages.len() == 0 ==> items_json(messages.push(message)) == message_json(message),
        messages.len() > 0 ==> items_json(messages.push(message)) == items_json(messages) + ","@
            + message_json(message),
        message_json(message) == "{\"role\":"@ + json_string(message.role) + ",\"content\":"@
            + json_string(message.content) + ",\"ts\":"@ + decimal(message.ts as nat) + "}"@,
{
    assert(messages.push(message).drop_last() =~= messages);
}

} // verus!
