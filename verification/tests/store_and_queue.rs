//! The config store's replace-on-write semantics, the registration log, and
//! the queue's at-most-once, in-order draining.

use regbot::config::{ConfigStore, GuildConfig};
use regbot::queue::MessageQueue;
use regbot::registrations::{Registration, RegistrationLog};
use regbot::QueuedMessage;

fn cfg(a: u64, b: u64, c: u64, d: u64, e: u64) -> GuildConfig {
    GuildConfig {
        registration_channel: a,
        manual_channel: b,
        admin_channel: c,
        admin_role: d,
        advanced_role: e,
    }
}

fn msg(guild_id: u64, channel_id: u64, content: &str, author_id: u64) -> QueuedMessage {
    QueuedMessage {
        guild_id,
        channel_id,
        content: content.to_string(),
        author_id,
    }
}

#[test]
fn store_get_missing() {
    let store = ConfigStore::new();
    assert_eq!(store.get(5), None);
}

#[test]
fn store_roundtrip_and_replace() {
    let mut store = ConfigStore::new();
    let first = cfg(1, 2, 3, 4, 5);
    store.upsert(7, first);
    assert_eq!(store.get(7), Some(first));

    // A second upsert replaces the record whole; no merge.
    let second = cfg(9, 9, 9, 9, 9);
    store.upsert(7, second);
    assert_eq!(store.get(7), Some(second));

    // Other guilds are untouched.
    assert_eq!(store.get(8), None);
    store.upsert(8, first);
    assert_eq!(store.get(7), Some(second));
    assert_eq!(store.get(8), Some(first));
}

#[test]
fn registration_log_appends() {
    let mut log = RegistrationLog::new();
    assert_eq!(log.len(), 0);
    log.save(Registration {
        guild_id: 1,
        name: "Alice".to_string(),
        age: "30".to_string(),
    });
    log.save(Registration {
        guild_id: 1,
        name: "Alice".to_string(),
        age: "30".to_string(),
    });
    assert_eq!(log.len(), 2);
    assert_eq!(log.row(0).name, "Alice");
    assert_eq!(log.row(1).age, "30");
}

#[test]
fn queue_drains_in_order_and_once() {
    let mut q = MessageQueue::new(2);
    let m1 = msg(1, 10, "a", 100);
    let m2 = msg(1, 10, "b", 101);
    let m3 = msg(1, 10, "c", 102);

    assert!(q.try_enqueue(m1.clone()).is_ok());
    assert!(q.try_enqueue(m2.clone()).is_ok());

    // The queue is at capacity: the third message comes back refused.
    let refused = q.try_enqueue(m3.clone());
    match refused {
        Err(full) => assert_eq!(full.0, m3),
        Ok(()) => panic!("enqueue on a full queue must refuse"),
    }

    // The drain hands out exactly what was buffered, oldest first.
    let drained = q.drain_all();
    assert_eq!(drained, vec![m1, m2]);

    // A second drain delivers nothing: nothing is handed out twice.
    assert_eq!(q.drain_all(), Vec::<QueuedMessage>::new());

    // Capacity is freed: the refused message can be enqueued now.
    assert!(q.try_enqueue(m3.clone()).is_ok());
    assert_eq!(q.drain_all(), vec![m3]);
}
