use bevy_kot::auto_despawn::AutoDespawn;
use bevy_kot::channel::{new_channel, SendError};
use bevy_kot::io_channel::{new_io_channel, TrySendError};
use bevy_kot::line_position::LinePosition;
use bevy_kot::react::events::{ReactEventCounter, ReactEventInner, ReactEvents};
use bevy_kot::tree_node_meta::{TreeExt, TreeNodeMeta};
use std::sync::Arc;

#[test]
fn line_position_holds_file_and_line() {
    let p = LinePosition::new("src/ui.rs", 42);
    assert_eq!(p.file, "src/ui.rs");
    assert_eq!(p.line, 42);
}

#[test]
fn tree_node_meta_extensions() {
    let mut m: TreeNodeMeta<u32> = TreeNodeMeta::new(LinePosition::new("a.rs", 1), String::from("root/a"));
    assert_eq!(m.num_extensions(), 0);
    assert!(!m.is_changed());
    m.set_extension_data(7, 70);
    m.set_extension_data(8, 80);
    m.set_extension_data(7, 71);
    assert_eq!(m.num_extensions(), 2);
    assert_eq!(m.get_extension_data(7), Some(Arc::new(71)));
    assert_eq!(m.remove_extension_data(8), Some(Arc::new(80)));
    assert_eq!(m.get_extension_data(8), None);
    assert_eq!(m.remove_extension_data(8), None);
    m.mark_changed();
    assert!(m.is_changed());
}

#[test]
fn tree_ext_tracks_nodes() {
    let mut t: TreeExt<u32> = TreeExt::new();
    assert!(!t.set_node_extension_data(1, 5, 50));
    t.add_node(1, LinePosition::new("a.rs", 3), String::from("root"));
    assert!(t.contains_node(1));
    assert!(t.set_node_extension_data(1, 5, 50));
    assert!(t.remove_node_extension_data(1, 5));
    t.remove_node(1);
    assert!(!t.contains_node(1));
    assert!(!t.remove_node_extension_data(1, 5));
}

#[test]
fn react_events_skip_events_sent_before_setup() {
    let mut counter = ReactEventCounter::new();
    let a = counter.increment();
    let b = counter.increment();
    assert_eq!((a, b), (1, 2));
    let pending = vec![
        ReactEventInner { event_id: a, event: "old" },
        ReactEventInner { event_id: b, event: "older" },
    ];
    let mut events = ReactEvents::new(&counter, pending);
    let c = counter.increment();
    let d = counter.increment();
    events.pending.push(ReactEventInner { event_id: c, event: "new" });
    events.pending.push(ReactEventInner { event_id: d, event: "newer" });
    assert!(!events.is_empty());
    assert_eq!(events.next(), Some(&"new"));
    assert_eq!(events.iter(), vec![&"newer"]);
    assert!(events.is_empty());
    assert_eq!(events.next(), None);
    let e = counter.increment();
    events.pending.push(ReactEventInner { event_id: e, event: "latest" });
    assert!(!events.is_empty());
    events.clear();
    assert!(events.is_empty());
    assert_eq!(events.iter(), Vec::<&&str>::new());
}

#[test]
fn channel_round_trip() {
    let (tx, rx) = new_channel::<u32>();
    assert_eq!(tx.send(1), Ok(()));
    assert_eq!(tx.clone().send(2), Ok(()));
    assert_eq!(rx.len(), 2);
    assert_eq!(rx.try_recv(), Some(1));
    assert_eq!(rx.try_recv(), Some(2));
    assert_eq!(rx.try_recv(), None);
    drop(rx);
    assert_eq!(tx.send(3), Err(SendError(3)));
}

#[test]
fn io_channel_round_trip() {
    let (tx, mut rx) = new_io_channel::<u32>();
    assert_eq!(tx.send(5), Ok(()));
    assert_eq!(rx.try_recv(), Some(5));
    assert_eq!(rx.try_recv(), None);
    drop(rx);
    assert_eq!(tx.send(6), Err(TrySendError::Closed(6)));
}

#[test]
fn auto_despawn_reports_signalled_entities() {
    let despawns = AutoDespawn::new();
    let signal = despawns.sender();
    assert_eq!(signal.send(12), Ok(()));
    assert_eq!(despawns.clone().try_recv(), Some(12));
    assert_eq!(despawns.try_recv(), None);
}

#[test]
fn io_receiver_inner_is_the_wrapped_receiver() {
    let (tx, rx) = new_io_channel::<u32>();
    assert_eq!(tx.send(8), Ok(()));
    assert_eq!(rx.inner().len(), 1);
    assert_eq!(rx.inner().try_recv(), Ok(8));
}
