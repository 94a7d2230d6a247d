//! The keys of sessions, drafts and stored conversations, and the time stamps.
use brick_channel::clock::{now_secs, whole_seconds};
use brick_channel::keys::{derive_draft_id, history_key, session_key};

#[test]
fn session_key_isolates_by_sender_target_and_thread() {
    // Different (sender, target, thread) tuples must produce
    // distinct keys so a model set in one session can't bleed into
    // another. Two sessions that differ only by thread_ts (None vs.
    // Some(""), Some("a") vs. Some("b")) are also distinct.
    let a = session_key("u1:d1", "conv-A", None);
    let b = session_key("u1:d1", "conv-B", None);
    let c = session_key("u2:d1", "conv-A", None);
    let d = session_key("u1:d1", "conv-A", Some("t1"));
    let e = session_key("u1:d1", "conv-A", Some("t2"));
    assert_ne!(a, b);
    assert_ne!(a, c);
    assert_ne!(a, d);
    assert_ne!(d, e);
}

#[test]
fn session_keys_are_joined_with_bars() {
    assert_eq!(session_key("u1:d1", "conv-A", None), "u1:d1|conv-A|");
    assert_eq!(session_key("u1:d1", "conv-A", Some("t1")), "u1:d1|conv-A|t1");
    assert_eq!(session_key("", "", None), "||");
    assert_eq!(session_key("é", "🤖", Some("a|b")), "é|🤖|a|b");
}

#[test]
fn threads_alone_always_tell_sessions_apart() {
    let threads = [None, Some(""), Some("|"), Some("||"), Some("|||"), Some("a"), Some("a|"), Some("|a")];
    for (i, s) in threads.iter().enumerate() {
        for (j, t) in threads.iter().enumerate() {
            for (sender, target) in [("u1:d1", "conv-A"), ("u|1", "c|A"), ("", "")] {
                assert_eq!(
                    i == j,
                    session_key(sender, target, *s) == session_key(sender, target, *t)
                );
            }
        }
    }
    assert_eq!(session_key("u", "c", None), "u|c|");
    assert_eq!(session_key("u", "c", Some("|")), "u|c||");
    assert_eq!(session_key("u", "c", Some("||")), "u|c|||");
    assert_eq!(session_key("u", "c", Some("")), "u\\,c\\,\\=");
}

#[test]
fn bars_and_backslashes_in_names_keep_sessions_apart() {
    assert_ne!(session_key("a|b", "c", None), session_key("a", "b|c", None));
    // Joined, both would be the key of sender `a` and target `b` in the thread `c|`.
    assert_eq!(session_key("a", "b", Some("c|")), "a|b|c|");
    assert_eq!(session_key("a|b", "c", None), "a\\pb\\,c\\,");
    assert_eq!(session_key("a", "b|c", None), "a\\,b\\pc\\,");
    assert_eq!(session_key("a|", "\\", Some("|")), "a\\p\\,\\\\\\,\\=\\p");
    // A backslash alone is no reason to write a key otherwise.
    assert_eq!(session_key("a\\b", "c", None), "a\\b|c|");
    assert_eq!(session_key("a\\", "c\\p", Some("t\\")), "a\\|c\\p|t\\");
    let names = [
        "", "a", "|", "\\", "a|", "|a", "a|b", "a\\", "a\\|b", "\\|", "||", "\\\\", "\\,", "\\p", "\\=",
    ];
    let mut keys = Vec::new();
    for sender in names {
        for target in names {
            for thread in [None, Some(""), Some("|"), Some("a"), Some("a|b"), Some("\\=")] {
                keys.push(session_key(sender, target, thread));
            }
        }
    }
    let total = keys.len();
    keys.sort();
    keys.dedup();
    assert_eq!(keys.len(), total);
}

#[test]
fn draft_ids_name_the_recipient_and_the_thread() {
    assert_eq!(derive_draft_id("conv-42", None), "brick-conv-42");
    assert_eq!(derive_draft_id("conv-42", Some("7.1")), "brick-conv-42-7.1");
    assert_eq!(derive_draft_id("", Some("")), "brick--");
}

#[test]
fn history_keys_have_the_shape_of_the_store() {
    assert_eq!(history_key("user1:dev1", "conv-42", None), "brick_conv-42_user1:dev1");
    assert_eq!(history_key("user1:dev1", "conv-42", Some("t")), "brick_conv-42_t_user1:dev1");
    assert_eq!(history_key("u", "c", Some("")), "brick_c__u");
}

#[test]
fn only_whole_seconds_count() {
    assert_eq!(whole_seconds(Some((1_700_000_000, 999_999_999))), 1_700_000_000);
    assert_eq!(whole_seconds(Some((0, 1))), 0);
    assert_eq!(whole_seconds(None), 0);
}

#[test]
fn the_clock_is_read() {
    let before = std::time::SystemTime::now()
        .duration_since(std::time::UNIX_EPOCH)
        .unwrap()
        .as_secs();
    let now = now_secs();
    let after = std::time::SystemTime::now()
        .duration_since(std::time::UNIX_EPOCH)
        .unwrap()
        .as_secs();
    assert!(before <= now && now <= after);
}
