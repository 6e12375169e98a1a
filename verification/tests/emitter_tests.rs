use quilore::emitter::{emit_asset_batch, DebounceEmitter, Emitter, Tick, DEFAULT_DELAY_MILLIS};
use quilore::handler::AssetDownloadEvent;

fn event(name: &str, available: bool) -> AssetDownloadEvent {
    AssetDownloadEvent { aid: name.to_string(), available }
}

#[test]
fn burst_of_fifty_is_flushed_once_in_push_order() {
    let mut e: DebounceEmitter<u32> = DebounceEmitter::new(DEFAULT_DELAY_MILLIS, 0);
    let mut watchers = 0;
    for i in 0..50u32 {
        // fifty events within a window of 100 ms
        if e.push(i, 1000 + 2 * i as u64) {
            watchers += 1;
        }
    }
    assert_eq!(watchers, 1);
    assert!(e.is_watching());
    assert_eq!(e.buffered(), 50);
    // the watcher looks while events still arrive: nothing is sent
    assert!(matches!(e.tick(1100), Tick::Wait));
    assert_eq!(e.buffered(), 50);
    // 150 ms after the last push
    let last_push = 1000 + 2 * 49;
    match e.tick(last_push + 150) {
        Tick::Flush(items) => assert_eq!(items, (0..50).collect::<Vec<u32>>()),
        other => panic!("expected a flush, got {:?}", other),
    }
    assert_eq!(e.buffered(), 0);
    assert!(!e.is_watching());
    // no second flush
    assert!(matches!(e.tick(last_push + 400), Tick::Stop));
}

#[test]
fn steady_pushes_put_the_flush_off() {
    let mut e: DebounceEmitter<u8> = DebounceEmitter::new(100, 0);
    assert!(e.push(1, 0));
    assert!(matches!(e.tick(99), Tick::Wait));
    assert!(!e.push(2, 99));
    assert!(matches!(e.tick(198), Tick::Wait));
    assert!(!e.push(3, 198));
    match e.tick(298) {
        Tick::Flush(items) => assert_eq!(items, vec![1, 2, 3]),
        other => panic!("expected a flush, got {:?}", other),
    }
}

#[test]
fn a_look_at_an_empty_buffer_ends_the_watcher() {
    let mut e: DebounceEmitter<u8> = DebounceEmitter::new(100, 5);
    assert_eq!(e.delay_millis(), 100);
    assert!(matches!(e.tick(50), Tick::Wait));
    assert!(matches!(e.tick(105), Tick::Stop));
    assert!(!e.is_watching());
}

#[test]
fn a_clock_that_seems_to_run_backwards_counts_as_no_time() {
    let mut e: DebounceEmitter<u8> = DebounceEmitter::new(100, 0);
    e.push(1, 1000);
    assert!(matches!(e.tick(10), Tick::Wait));
    assert_eq!(e.buffered(), 1);
}

#[test]
fn after_a_flush_the_next_push_starts_a_watcher_again() {
    let mut e: DebounceEmitter<u8> = DebounceEmitter::new(10, 0);
    assert!(e.push(1, 0));
    assert!(matches!(e.tick(10), Tick::Flush(_)));
    assert!(e.push(2, 20));
    assert!(!e.push(3, 21));
}

#[test]
fn asset_events_are_scheduled_through_the_buffer() {
    let mut e: DebounceEmitter<AssetDownloadEvent> = DebounceEmitter::new(100, 0);
    assert!(event("a.jpg", true).schedule_emit(&mut e, 1));
    assert!(!event("b.jpg", false).schedule_emit(&mut e, 2));
    match e.tick(200) {
        Tick::Flush(items) => {
            let batch = emit_asset_batch(items);
            assert_eq!(batch.items.len(), 2);
            assert_eq!(batch.items[0].aid, "a.jpg");
            assert!(batch.items[0].available);
            assert_eq!(batch.items[1].aid, "b.jpg");
            assert!(!batch.items[1].available);
        }
        other => panic!("expected a flush, got {:?}", other),
    }
}
