use vstd::prelude::*;
use crate::handler::AssetDownloadEvent;

verus! {

/// The quiet gap, in milliseconds, after which buffered events are sent.
pub const DEFAULT_DELAY_MILLIS: u64 = 100;

/// Many asset events, sent to the interface as one.
#[derive(Debug)]
pub struct AssetDownloadBatchEvent {
    pub items: Vec<AssetDownloadEvent>,
}

/// The buffer's state as a mathematical value.
pub struct EmitterView<T> {
    /// The events that wait, in push order.
    pub buffer: Seq<T>,
    /// When the last event was pushed, in milliseconds of a clock that never
    /// runs backwards.
    pub last_push: u64,
    /// The quiet gap after which the buffer is sent.
    pub delay: u64,
    /// Whether a watcher is active.
    pub watching: bool,
}

/// What a watcher does after one look at the buffer.
#[derive(Debug)]
pub enum Tick<T> {
    /// Events were pushed less than the delay ago: sleep for the delay and
    /// look again.
    Wait,
    /// Send these events as one batch; the watcher ends.
    Flush(Vec<T>),
    /// Nothing waits; the watcher ends.
    Stop,
}

impl<T> EmitterView<T> {
    /// The time since the last push, as seen at `now`.
    pub open spec fn elapsed(self, now: u64) -> int {
        if now >= self.last_push {
            now - self.last_push
        } else {
            0
        }
    }

    /// Whether the quiet gap has passed at `now`.
    pub open spec fn idle(self, now: u64) -> bool {
        self.elapsed(now) >= self.delay
    }

    pub open spec fn push(self, item: T, now: u64) -> Self {
        EmitterView { buffer: self.buffer.push(item), last_push: now, watching: true, ..self }
    }

    /// The state after one look of a watcher at `now`.
    pub open spec fn tick(self, now: u64) -> Self {
        if self.idle(now) {
            EmitterView { buffer: Seq::empty(), watching: false, ..self }
        } else {
            self
        }
    }

    /// The events that a look at `now` sends, if it sends any.
    pub open spec fn flushed(self, now: u64) -> Option<Seq<T>> {
        if self.idle(now) && self.buffer.len() > 0 {
            Some(self.buffer)
        } else {
            None
        }
    }

    /// The state after the events `items` were pushed at the times `times`.
    pub open spec fn push_all(self, items: Seq<T>, times: Seq<u64>) -> Self
        recommends
            items.len() == times.len(),
        decreases items.len(),
    {
        if items.len() == 0 {
            self
        } else {
            self.push_all(items.drop_last(), times.drop_last()).push(items.last(), times.last())
        }
    }
}

/// A trailing debounce: events are buffered and sent as one batch once no
/// event has been pushed for the length of the delay. A steady stream of
/// pushes puts the batch off until a quiet gap occurs.
pub struct DebounceEmitter<T> {
    buffer: Vec<T>,
    last_push: u64,
    delay: u64,
    spawning: bool,
}

impl<T> View for DebounceEmitter<T> {
    type V = EmitterView<T>;

    closed spec fn view(&self) -> EmitterView<T> {
        EmitterView {
            buffer: self.buffer@,
            last_push: self.last_push,
            delay: self.delay,
            watching: self.spawning,
        }
    }
}

impl<T> DebounceEmitter<T> {
    /// An empty buffer with a quiet gap of `delay_ms` milliseconds, made at
    /// the time `now`.
    pub fn new(delay_ms: u64, now: u64) -> (e: Self)
        ensures
            e@ == (EmitterView { buffer: Seq::<T>::empty(), last_push: now, delay: delay_ms, watching: false }),
    {
        DebounceEmitter { buffer: Vec::new(), last_push: now, delay: delay_ms, spawning: false }
    }

    /// Buffers one event pushed at `now`. The result says whether the caller
    /// has to start a watcher: it does exactly when none is active, so that
    /// at most one is active at any time.
    pub fn push(&mut self, item: T, now: u64) -> (start_watcher: bool)
        ensures
            final(self)@ == old(self)@.push(item, now),
            start_watcher == !old(self)@.watching,
    {
        self.buffer.push(item);
        self.last_push = now;
        let was_watching = self.spawning;
        self.spawning = true;
        !was_watching
    }

    /// One look of the watcher at the buffer, at the time `now`, after it
    /// has slept for the delay.
    pub fn tick(&mut self, now: u64) -> (t: Tick<T>)
        ensures
            final(self)@ == old(self)@.tick(now),
            match t {
                Tick::Wait => !old(self)@.idle(now),
                Tick::Flush(items) => old(self)@.flushed(now) == Some(items@),
                Tick::Stop => old(self)@.idle(now) && old(self)@.buffer.len() == 0,
            },
    {
        let elapsed = if now >= self.last_push {
            now - self.last_push
        } else {
            0
        };
        if elapsed >= self.delay {
            let mut items: Vec<T> = Vec::new();
            std::mem::swap(&mut items, &mut self.buffer);
            self.spawning = false;
            if items.len() > 0 {
                Tick::Flush(items)
            } else {
                Tick::Stop
            }
        } else {
            Tick::Wait
        }
    }

    pub fn delay_millis(&self) -> (d: u64)
        ensures
            d == self@.delay,
    {
        self.delay
    }

    pub fn buffered(&self) -> (n: usize)
        ensures
            n == self@.buffer.len(),
    {
        self.buffer.len()
    }

    pub fn is_watching(&self) -> (b: bool)
        ensures
            b == self@.watching,
    {
        self.spawning
    }
}

/// An event that is sent to the interface through a debounce buffer.
pub trait Emitter: Sized {
    /// Buffers the event; the result says whether a watcher has to be
    /// started.
    fn schedule_emit(self, emitter: &mut DebounceEmitter<Self>, now: u64) -> (start_watcher: bool)
        ensures
            final(emitter)@ == old(emitter)@.push(self, now),
            start_watcher == !old(emitter)@.watching,
    ;
}

impl Emitter for AssetDownloadEvent {
    fn schedule_emit(self, emitter: &mut DebounceEmitter<Self>, now: u64) -> (start_watcher: bool) {
        emitter.push(self, now)
    }
}

/// Packs buffered asset events into the batch that the interface receives.
pub fn emit_asset_batch(items: Vec<AssetDownloadEvent>) -> (batch: AssetDownloadBatchEvent)
    ensures
        batch.items == items,
{
    AssetDownloadBatchEvent { items }
}

/// How many of the pushes of `push_all` ask for a watcher.
pub open spec fn watchers_started<T>(e: EmitterView<T>, items: Seq<T>, times: Seq<u64>) -> nat
    decreases items.len(),
{
    if items.len() == 0 {
        0
    } else {
        watchers_started(e, items.drop_last(), times.drop_last()) + if e.push_all(
            items.drop_last(),
            times.drop_last(),
        ).watching {
            0nat
        } else {
            1nat
        }
    }
}

proof fn lemma_push_all<T>(e: EmitterView<T>, items: Seq<T>, times: Seq<u64>)
    requires
        items.len() == times.len(),
    ensures
        e.push_all(items, times).buffer == e.buffer + items,
        e.push_all(items, times).delay == e.delay,
        items.len() > 0 ==> e.push_all(items, times).watching,
        items.len() > 0 ==> e.push_all(items, times).last_push == times.last(),
        items.len() == 0 ==> e.push_all(items, times) == e,
        items.len() > 0 && !e.watching ==> watchers_started(e, items, times) == 1,
        e.watching ==> watchers_started(e, items, times) == 0,
    decreases items.len(),
{
    if items.len() > 0 {
        lemma_push_all(e, items.drop_last(), times.drop_last());
        assert((e.buffer + items.drop_last()).push(items.last()) =~= e.buffer + items);
        if items.len() == 1 {
            assert(watchers_started(e, items.drop_last(), times.drop_last()) == 0);
        }
    } else {
        assert(e.buffer + items =~= e.buffer);
    }
}

/// Debounce coalescing: after a burst of pushes into an empty buffer, a
/// look before the quiet gap has passed sends nothing and changes nothing;
/// the first look after it sends every event of the burst, in push order,
/// as one batch, and leaves the buffer empty with no watcher, so that a
/// further look sends nothing. The burst starts exactly one watcher.
pub proof fn law_burst_is_flushed_once<T>(e: EmitterView<T>, items: Seq<T>, times: Seq<u64>, now: u64)
    requires
        e.buffer.len() == 0,
        !e.watching,
        items.len() == times.len(),
        items.len() > 0,
    ensures
        ({
            let burst = e.push_all(items, times);
            &&& burst.buffer == items
            &&& watchers_started(e, items, times) == 1
            &&& burst.elapsed(now) < e.delay ==> burst.flushed(now) is None && burst.tick(now) == burst
            &&& burst.elapsed(now) >= e.delay ==> {
                &&& burst.flushed(now) == Some(items)
                &&& burst.tick(now).buffer.len() == 0
                &&& !burst.tick(now).watching
                &&& forall|later: u64| burst.tick(now).flushed(later) is None
            }
        }),
{
    lemma_push_all(e, items, times);
    assert(e.buffer + items =~= items);
}

} // verus!
