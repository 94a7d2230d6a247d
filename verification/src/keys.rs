//! The text keys by which sessions, drafts and stored conversations are found.
use vstd::prelude::*;
use vstd::string::*;

verus! {

/// The view of an optional string.
pub open spec fn opt_text(s: Option<String>) -> Option<Seq<char>> {
    match s {
        Some(t) => Some(t@),
        None => None,
    }
}

/// The view of an optional string slice.
pub open spec fn opt_str(s: Option<&str>) -> Option<Seq<char>> {
    match s {
        Some(t) => Some(t@),
        None => None,
    }
}

/// `text` as a slice.
pub(crate) fn as_slice(text: &Option<String>) -> (slice: Option<&str>)
    ensures
        opt_str(slice) == opt_text(*text),
{
    match text {
        Some(t) => Some(t.as_str()),
        None => None,
    }
}

/// The parts of a session joined with `|`. No thread leaves nothing behind the second `|`.
pub open spec fn joined(
    sender_id: Seq<char>,
    reply_target: Seq<char>,
    thread_ts: Option<Seq<char>>,
) -> Seq<char> {
    sender_id + "|"@ + reply_target + "|"@ + (match thread_ts {
        Some(t) => t,
        None => seq![],
    })
}

/// The parts can be read back from where they are joined: neither the sender nor the target holds
/// a `|`, and the thread is not an empty one, which would be taken for none.
pub open spec fn joins_plainly(
    sender_id: Seq<char>,
    reply_target: Seq<char>,
    thread_ts: Option<Seq<char>>,
) -> bool {
    !sender_id.contains('|') && !reply_target.contains('|') && thread_ts != Some(
        Seq::<char>::empty(),
    )
}

/// How `c` is written in a key without `|`.
pub open spec fn escaped_char(c: char) -> Seq<char> {
    if c == '|' {
        seq!['\\', 'p']
    } else if c == '\\' {
        seq!['\\', '\\']
    } else {
        seq![c]
    }
}

/// The characters of `text`, each as it is written in a key without `|`.
pub open spec fn escaped(text: Seq<char>) -> Seq<char>
    decreases text.len(),
{
    if text.len() == 0 {
        seq![]
    } else {
        escaped(text.drop_last()) + escaped_char(text.last())
    }
}

/// The parts of a session written without any `|`, so that the whole is taken for no joined key:
/// `\,` ends the sender and the target, and `\=` stands before a thread.
pub open spec fn barless(
    sender_id: Seq<char>,
    reply_target: Seq<char>,
    thread_ts: Option<Seq<char>>,
) -> Seq<char> {
    escaped(sender_id) + "\\,"@ + escaped(reply_target) + "\\,"@ + (match thread_ts {
        Some(t) => "\\="@ + escaped(t),
        None => seq![],
    })
}

/// The key of the session of `sender_id` on `reply_target` in the thread `thread_ts`: its parts
/// joined with `|`, unless that would be the key of another session.
pub open spec fn session_key_text(
    sender_id: Seq<char>,
    reply_target: Seq<char>,
    thread_ts: Option<Seq<char>>,
) -> Seq<char> {
    if joins_plainly(sender_id, reply_target, thread_ts) {
        joined(sender_id, reply_target, thread_ts)
    } else {
        barless(sender_id, reply_target, thread_ts)
    }
}

/// Whether `text` holds a `|`.
fn has_bar(text: &str) -> (found: bool)
    ensures
        found == text@.contains('|'),
{
    let mut found = false;
    for c in it: text.chars()
        invariant
            it.seq() == text@,
            found == exists|i: int| 0 <= i < it.index() && text@[i] == '|',
    {
        assert(c == text@[it.index() as int]);
        found = found || c == '|';
    }
    found
}

/// Appends `text` as it is written in a key without `|`.
fn append_escaped(out: &mut String, text: &str)
    ensures
        final(out)@ == old(out)@ + escaped(text@),
{
    let ghost head = out@;
    assert(text@.take(0) =~= seq![]);
    for c in it: text.chars()
        invariant
            it.seq() == text@,
            out@ == head + escaped(text@.take(it.index() as int)),
    {
        let ghost n = it.index() as int;
        assert(text@.take(n + 1).drop_last() =~= text@.take(n));
        if c == '|' {
            out.push('\\');
            out.push('p');
        } else if c == '\\' {
            out.push('\\');
            out.push('\\');
        } else {
            out.push(c);
        }
        assert(out@ =~= head + escaped(text@.take(n + 1)));
    }
    assert(text@.take(text@.len() as int) =~= text@);
}

/// Composite key that scopes a model hint to one (sender, reply target, thread) session. The
/// parts are joined with `|`. Where that would be the key of another session, because the sender
/// or the target holds a `|` or the thread is empty, they are written without any `|` instead, so
/// different sessions never share a key.
pub fn session_key(sender_id: &str, reply_target: &str, thread_ts: Option<&str>) -> (key: String)
    ensures
        key@ == session_key_text(sender_id@, reply_target@, opt_str(thread_ts)),
        !sender_id@.contains('|') && !reply_target@.contains('|') ==> match thread_ts {
            Some(t) => t@.len() > 0 ==> key@ == sender_id@ + "|"@ + reply_target@ + "|"@ + t@,
            None => key@ == sender_id@ + "|"@ + reply_target@ + "|"@,
        },
{
    let empty_thread = match thread_ts {
        Some(t) => t.is_empty(),
        None => false,
    };
    proof {
        if let Some(t) = thread_ts {
            assert(t@.len() == 0 ==> t@ =~= Seq::<char>::empty());
        }
    }
    let mut key = String::new();
    if !has_bar(sender_id) && !has_bar(reply_target) && !empty_thread {
        key.append(sender_id);
        key.append("|");
        key.append(reply_target);
        key.append("|");
        if let Some(t) = thread_ts {
            key.append(t);
        }
        assert(key@ =~= joined(sender_id@, reply_target@, opt_str(thread_ts)));
        assert(thread_ts is None ==> key@ =~= sender_id@ + "|"@ + reply_target@ + "|"@);
    } else {
        append_escaped(&mut key, sender_id);
        key.append("\\,");
        append_escaped(&mut key, reply_target);
        key.append("\\,");
        if let Some(t) = thread_ts {
            key.append("\\=");
            append_escaped(&mut key, t);
        }
        assert(key@ =~= barless(sender_id@, reply_target@, opt_str(thread_ts)));
    }
    key
}

/// The id of the draft that answers `recipient` in `thread`.
pub open spec fn draft_id_text(recipient: Seq<char>, thread: Option<Seq<char>>) -> Seq<char> {
    match thread {
        Some(ts) => "brick-"@ + recipient + "-"@ + ts,
        None => "brick-"@ + recipient,
    }
}

/// The draft that answers `recipient` in `thread` always has this id.
pub fn derive_draft_id(recipient: &str, thread: Option<&str>) -> (id: String)
    ensures
        id@ == draft_id_text(recipient@, opt_str(thread)),
        match thread {
            Some(ts) => id@ == "brick-"@ + recipient@ + "-"@ + ts@,
            None => id@ == "brick-"@ + recipient@,
        },
{
    let mut id = "brick-".to_owned();
    id.append(recipient);
    if let Some(ts) = thread {
        id.append("-");
        id.append(ts);
    }
    id
}

/// The key under which the orchestrator stores the turns of a conversation.
pub open spec fn history_key_text(
    sender_id: Seq<char>,
    reply_target: Seq<char>,
    thread_ts: Option<Seq<char>>,
) -> Seq<char> {
    match thread_ts {
        Some(tid) => "brick_"@ + reply_target + "_"@ + tid + "_"@ + sender_id,
        None => "brick_"@ + reply_target + "_"@ + sender_id,
    }
}

/// The session store key of a conversation. Its shape is that of the keys the orchestrator writes
/// under, so a history request reads what the agent wrote.
pub fn history_key(sender_id: &str, reply_target: &str, thread_ts: Option<&str>) -> (key: String)
    ensures
        key@ == history_key_text(sender_id@, reply_target@, opt_str(thread_ts)),
        match thread_ts {
            Some(tid) => key@ == "brick_"@ + reply_target@ + "_"@ + tid@ + "_"@ + sender_id@,
            None => key@ == "brick_"@ + reply_target@ + "_"@ + sender_id@,
        },
{
    let mut key = "brick_".to_owned();
    key.append(reply_target);
    if let Some(tid) = thread_ts {
        key.append("_");
        key.append(tid);
    }
    key.append("_");
    key.append(sender_id);
    key
}

/// Texts that are equal behind the same front are equal.
pub(crate) proof fn lemma_same_front(front: Seq<char>, x: Seq<char>, y: Seq<char>)
    requires
        front + x == front + y,
    ensures
        x == y,
{
    assert((front + x).skip(front.len() as int) =~= x);
    assert((front + y).skip(front.len() as int) =~= y);
}

/// Two texts that agree up to and including the first `sep` of each agree on both sides of it.
pub(crate) proof fn lemma_first_separator(
    a1: Seq<char>,
    b1: Seq<char>,
    a2: Seq<char>,
    b2: Seq<char>,
    sep: char,
)
    requires
        !a1.contains(sep),
        !a2.contains(sep),
        a1 + seq![sep] + b1 == a2 + seq![sep] + b2,
    ensures
        a1 == a2,
        b1 == b2,
{
    let l = a1 + seq![sep] + b1;
    let r = a2 + seq![sep] + b2;
    if a1.len() < a2.len() {
        assert(l[a1.len() as int] == sep);
        assert(r[a1.len() as int] == a2[a1.len() as int]);
        assert(false);
    }
    if a2.len() < a1.len() {
        assert(r[a2.len() as int] == sep);
        assert(l[a2.len() as int] == a1[a2.len() as int]);
        assert(false);
    }
    assert forall|i: int| 0 <= i < a1.len() implies a1[i] == a2[i] by {
        assert(l[i] == r[i]);
    }
    assert(a1 =~= a2);
    assert(l.len() == a1.len() + 1 + b1.len());
    assert(r.len() == a2.len() + 1 + b2.len());
    assert forall|i: int| 0 <= i < b1.len() implies b1[i] == b2[i] by {
        assert(l[a1.len() + 1 + i] == r[a1.len() + 1 + i]);
    }
    assert(b1 =~= b2);
}

/// The first character of an escaped text can be read off its front.
proof fn lemma_escaped_front(s: Seq<char>)
    requires
        s.len() > 0,
    ensures
        escaped(s) == escaped_char(s[0]) + escaped(s.drop_first()),
    decreases s.len(),
{
    if s.len() == 1 {
        assert(s.drop_last() =~= seq![]);
        assert(s.drop_first() =~= seq![]);
    } else {
        lemma_escaped_front(s.drop_last());
        assert(s.drop_last().drop_first() =~= s.drop_first().drop_last());
    }
    assert(escaped(s) =~= escaped_char(s[0]) + escaped(s.drop_first()));
}

/// An escaped text holds no `|`.
proof fn lemma_escaped_has_no_bar(s: Seq<char>)
    ensures
        !escaped(s).contains('|'),
    decreases s.len(),
{
    if s.len() > 0 {
        lemma_escaped_has_no_bar(s.drop_last());
        let head = escaped(s.drop_last());
        assert forall|i: int| 0 <= i < escaped(s).len() implies escaped(s)[i] != '|' by {
            if i < head.len() {
                assert(head[i] != '|');
            }
        }
    }
}

/// Two texts that start with escaped characters start with the same character, and go on alike.
proof fn lemma_escaped_char_front(c: char, x: Seq<char>, d: char, y: Seq<char>)
    requires
        escaped_char(c) + x == escaped_char(d) + y,
    ensures
        c == d,
        x == y,
{
    let l = escaped_char(c) + x;
    let r = escaped_char(d) + y;
    assert(l[0] == escaped_char(c)[0]);
    assert(r[0] == escaped_char(d)[0]);
    if escaped_char(c).len() > 1 {
        assert(l[1] == escaped_char(c)[1]);
        assert(r[1] == escaped_char(d)[1]);
    }
    assert(c == d);
    lemma_same_front(escaped_char(c), x, y);
}

/// Two texts that start with escaped texts, each up to the `\,` behind it, start with the same
/// text, and go on alike.
proof fn lemma_escaped_end(a: Seq<char>, x: Seq<char>, b: Seq<char>, y: Seq<char>)
    requires
        escaped(a) + seq!['\\', ','] + x == escaped(b) + seq!['\\', ','] + y,
    ensures
        a == b,
        x == y,
    decreases a.len(),
{
    let stop = seq!['\\', ','];
    let l = escaped(a) + stop + x;
    let r = escaped(b) + stop + y;
    if a.len() == 0 || b.len() == 0 {
        if a.len() > 0 {
            lemma_escaped_front(a);
            assert(l[0] == escaped_char(a[0])[0]);
            assert(escaped_char(a[0]).len() > 1 ==> l[1] == escaped_char(a[0])[1]);
            assert(r[0] == '\\' && r[1] == ',');
        }
        if b.len() > 0 {
            lemma_escaped_front(b);
            assert(r[0] == escaped_char(b[0])[0]);
            assert(escaped_char(b[0]).len() > 1 ==> r[1] == escaped_char(b[0])[1]);
            assert(l[0] == '\\' && l[1] == ',');
        }
        assert(a =~= b);
        assert(l =~= stop + x);
        assert(r =~= stop + y);
        lemma_same_front(stop, x, y);
    } else {
        lemma_escaped_front(a);
        lemma_escaped_front(b);
        let l1 = escaped(a.drop_first()) + stop + x;
        let r1 = escaped(b.drop_first()) + stop + y;
        assert(l =~= escaped_char(a[0]) + l1);
        assert(r =~= escaped_char(b[0]) + r1);
        lemma_escaped_char_front(a[0], l1, b[0], r1);
        lemma_escaped_end(a.drop_first(), x, b.drop_first(), y);
        assert(a =~= seq![a[0]] + a.drop_first());
        assert(b =~= seq![b[0]] + b.drop_first());
    }
}

/// Keys that were joined plainly and are the same are of the same session.
proof fn lemma_joined_tells_apart(
    sender1: Seq<char>,
    target1: Seq<char>,
    thread1: Option<Seq<char>>,
    sender2: Seq<char>,
    target2: Seq<char>,
    thread2: Option<Seq<char>>,
)
    requires
        joins_plainly(sender1, target1, thread1),
        joins_plainly(sender2, target2, thread2),
        joined(sender1, target1, thread1) == joined(sender2, target2, thread2),
    ensures
        sender1 == sender2,
        target1 == target2,
        thread1 == thread2,
{
    reveal_strlit("|");
    let bar = seq!['|'];
    assert("|"@ =~= bar);
    let p1 = match thread1 {
        Some(t) => t,
        None => seq![],
    };
    let p2 = match thread2 {
        Some(t) => t,
        None => seq![],
    };
    let b1 = target1 + bar + p1;
    let b2 = target2 + bar + p2;
    assert(joined(sender1, target1, thread1) =~= sender1 + bar + b1);
    assert(joined(sender2, target2, thread2) =~= sender2 + bar + b2);
    lemma_first_separator(sender1, b1, sender2, b2, '|');
    lemma_first_separator(target1, p1, target2, p2, '|');
}

/// Keys without `|` that are the same are of the same session.
proof fn lemma_barless_tells_apart(
    sender1: Seq<char>,
    target1: Seq<char>,
    thread1: Option<Seq<char>>,
    sender2: Seq<char>,
    target2: Seq<char>,
    thread2: Option<Seq<char>>,
)
    requires
        barless(sender1, target1, thread1) == barless(sender2, target2, thread2),
    ensures
        sender1 == sender2,
        target1 == target2,
        thread1 == thread2,
{
    reveal_strlit("\\,");
    reveal_strlit("\\=");
    let stop = seq!['\\', ','];
    let mark = "\\="@;
    assert("\\,"@ =~= stop);
    let p1 = match thread1 {
        Some(t) => mark + escaped(t),
        None => seq![],
    };
    let p2 = match thread2 {
        Some(t) => mark + escaped(t),
        None => seq![],
    };
    let b1 = escaped(target1) + stop + p1;
    let b2 = escaped(target2) + stop + p2;
    assert(barless(sender1, target1, thread1) =~= escaped(sender1) + stop + b1);
    assert(barless(sender2, target2, thread2) =~= escaped(sender2) + stop + b2);
    lemma_escaped_end(sender1, b1, sender2, b2);
    lemma_escaped_end(target1, p1, target2, p2);
    match (thread1, thread2) {
        (Some(t1), Some(t2)) => {
            lemma_same_front(mark, escaped(t1), escaped(t2));
            lemma_escaped_end(t1, seq![], t2, seq![]);
        },
        _ => {},
    }
}

/// A joined key holds a `|`, and one that is written without holds none.
proof fn lemma_bar_shows(
    sender_id: Seq<char>,
    reply_target: Seq<char>,
    thread_ts: Option<Seq<char>>,
)
    ensures
        joined(sender_id, reply_target, thread_ts).contains('|'),
        !barless(sender_id, reply_target, thread_ts).contains('|'),
{
    reveal_strlit("|");
    reveal_strlit("\\,");
    reveal_strlit("\\=");
    assert(joined(sender_id, reply_target, thread_ts)[sender_id.len() as int] == '|');
    lemma_escaped_has_no_bar(sender_id);
    lemma_escaped_has_no_bar(reply_target);
    let rest = match thread_ts {
        Some(t) => "\\="@ + escaped(t),
        None => seq![],
    };
    assert(!rest.contains('|')) by {
        if let Some(t) = thread_ts {
            lemma_escaped_has_no_bar(t);
            lemma_no_bar_concat("\\="@, escaped(t));
        }
    }
    let s = escaped(sender_id);
    let r = escaped(reply_target);
    lemma_no_bar_concat(s, "\\,"@);
    lemma_no_bar_concat(s + "\\,"@, r);
    lemma_no_bar_concat(s + "\\,"@ + r, "\\,"@);
    lemma_no_bar_concat(s + "\\,"@ + r + "\\,"@, rest);
}

/// Texts without `|` make one without `|`.
proof fn lemma_no_bar_concat(a: Seq<char>, b: Seq<char>)
    requires
        !a.contains('|'),
        !b.contains('|'),
    ensures
        !(a + b).contains('|'),
{
    assert forall|i: int| 0 <= i < (a + b).len() implies (a + b)[i] != '|' by {
        if i < a.len() {
            assert(a[i] != '|');
        } else {
            assert(b[i - a.len()] != '|');
        }
    }
}

/// Different sessions have different keys, so what is kept for one session is never read by
/// another.
pub proof fn law_session_keys_isolate(
    sender1: Seq<char>,
    target1: Seq<char>,
    thread1: Option<Seq<char>>,
    sender2: Seq<char>,
    target2: Seq<char>,
    thread2: Option<Seq<char>>,
)
    requires
        sender1 != sender2 || target1 != target2 || thread1 != thread2,
    ensures
        session_key_text(sender1, target1, thread1) != session_key_text(sender2, target2, thread2),
{
    lemma_bar_shows(sender1, target1, thread1);
    lemma_bar_shows(sender2, target2, thread2);
    if session_key_text(sender1, target1, thread1) == session_key_text(sender2, target2, thread2) {
        if joins_plainly(sender1, target1, thread1) {
            lemma_joined_tells_apart(sender1, target1, thread1, sender2, target2, thread2);
        } else {
            lemma_barless_tells_apart(sender1, target1, thread1, sender2, target2, thread2);
        }
    }
}

/// The texts on both sides of the first `|` of `text`.
proof fn lemma_split_at_bar(text: Seq<char>) -> (sides: (Seq<char>, Seq<char>))
    requires
        text.contains('|'),
    ensures
        text == sides.0 + seq!['|'] + sides.1,
        !sides.0.contains('|'),
    decreases text.len(),
{
    if text[0] == '|' {
        let rest = text.drop_first();
        assert(text =~= Seq::<char>::empty() + seq!['|'] + rest);
        (Seq::<char>::empty(), rest)
    } else {
        let rest = text.drop_first();
        let i = choose|i: int| 0 <= i < text.len() && text[i] == '|';
        assert(rest[i - 1] == '|');
        let (left, right) = lemma_split_at_bar(rest);
        let first = seq![text[0]];
        lemma_no_bar_concat(first, left);
        assert(text =~= first + rest);
        assert(text =~= (first + left) + seq!['|'] + right);
        (first + left, right)
    }
}

/// Only where it has to be is a key not joined: the parts of a session that does not join plainly
/// make, when joined, the key of another session.
pub proof fn law_only_shared_joins_are_avoided(
    sender_id: Seq<char>,
    reply_target: Seq<char>,
    thread_ts: Option<Seq<char>>,
)
    requires
        !joins_plainly(sender_id, reply_target, thread_ts),
    ensures
        exists|s: Seq<char>, r: Seq<char>, t: Option<Seq<char>>|
            joins_plainly(s, r, t) && #[trigger] session_key_text(s, r, t) == joined(
                sender_id,
                reply_target,
                thread_ts,
            ),
{
    reveal_strlit("|");
    let bar = seq!['|'];
    assert("|"@ =~= bar);
    let whole = joined(sender_id, reply_target, thread_ts);
    let p = match thread_ts {
        Some(t) => t,
        None => seq![],
    };
    if sender_id.contains('|') {
        let (s, more) = lemma_split_at_bar(sender_id);
        if more.contains('|') {
            let (r, rest) = lemma_split_at_bar(more);
            let t = rest + bar + reply_target + bar + p;
            assert(whole =~= joined(s, r, Some(t)));
            assert(t.len() > 0);
            assert(session_key_text(s, r, Some(t)) == whole);
        } else {
            let t = reply_target + bar + p;
            assert(whole =~= joined(s, more, Some(t)));
            assert(t.len() > 0);
            assert(session_key_text(s, more, Some(t)) == whole);
        }
    } else if reply_target.contains('|') {
        let (r, rest) = lemma_split_at_bar(reply_target);
        let t = rest + bar + p;
        assert(whole =~= joined(sender_id, r, Some(t)));
        assert(t.len() > 0);
        assert(session_key_text(sender_id, r, Some(t)) == whole);
    } else {
        assert(whole =~= joined(sender_id, reply_target, None));
        assert(session_key_text(sender_id, reply_target, None) == whole);
    }
}

/// A session whose sender and target hold no `|`, in no thread or one that is not empty, has for
/// its key these parts joined with `|`.
pub proof fn law_plain_session_keys_are_joined(
    sender_id: Seq<char>,
    reply_target: Seq<char>,
    thread: Seq<char>,
)
    requires
        !sender_id.contains('|'),
        !reply_target.contains('|'),
    ensures
        session_key_text(sender_id, reply_target, None) == sender_id + "|"@ + reply_target + "|"@,
        thread.len() > 0 ==> session_key_text(sender_id, reply_target, Some(thread)) == sender_id
            + "|"@ + reply_target + "|"@ + thread,
{
    let plain = sender_id + "|"@ + reply_target + "|"@;
    assert(session_key_text(sender_id, reply_target, None) =~= plain);
}

/// An optional string shows the text it holds, if it holds one.
pub proof fn law_optional_texts_show_what_they_hold(text: String, slice: &str)
    ensures
        opt_text(Some(text)) == Some(text@),
        opt_text(None) is None,
        opt_str(Some(slice)) == Some(slice@),
        opt_str(None) is None,
{
}

} // verus!
