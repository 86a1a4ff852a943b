use vstd::prelude::*;
use vstd::pervasive::VecAdditionalExecFns;

use crate::types::{PlaybackState, SpotifydStatus};

verus! {

/// How many unread snapshots each subscriber keeps; older ones are dropped first.
pub const SNAPSHOT_BACKLOG: usize = 16;

/// A subscriber's backlog after `s` is published to it: `s` is appended, and the
/// oldest entry leaves when the backlog is full.
pub open spec fn pushed_bounded(q: Seq<PlaybackState>, s: PlaybackState) -> Seq<PlaybackState> {
    if q.len() < SNAPSHOT_BACKLOG {
        q.push(s)
    } else {
        q.drop_first().push(s)
    }
}

/// The feed after `s` is published: every registered subscriber's backlog takes it.
pub open spec fn published_feed(f: FeedView, s: PlaybackState) -> FeedView {
    FeedView {
        queues: Seq::new(
            f.queues.len(),
            |i: int|
                if f.live[i] {
                    pushed_bounded(f.queues[i], s)
                } else {
                    f.queues[i]
                },
        ),
        live: f.live,
    }
}

/// A snapshot published while subscriber `id` is registered reaches it: its backlog is
/// not empty and ends with that snapshot.
pub proof fn lemma_published_reaches_subscriber(f: FeedView, s: PlaybackState, id: int)
    requires
        f.queues.len() == f.live.len(),
        0 <= id < f.live.len(),
        f.live[id],
    ensures
        published_feed(f, s).queues[id].len() > 0,
        published_feed(f, s).queues[id].last() == s,
        published_feed(f, s).live[id],
{
}

pub ghost struct FeedView {
    /// Unread snapshots of each subscriber, oldest first.
    pub queues: Seq<Seq<PlaybackState>>,
    /// Which subscribers are still registered.
    pub live: Seq<bool>,
}

/// A multi-subscriber stream of snapshots. A subscriber sees only what is published
/// after it subscribed, and keeps at most [`SNAPSHOT_BACKLOG`] unread snapshots, so a
/// slow one skips older snapshots rather than the freshest.
pub struct SnapshotFeed {
    queues: Vec<Vec<PlaybackState>>,
    live: Vec<bool>,
}

impl View for SnapshotFeed {
    type V = FeedView;

    closed spec fn view(&self) -> FeedView {
        FeedView {
            queues: self.queues@.map_values(|q: Vec<PlaybackState>| q@),
            live: self.live@,
        }
    }
}

impl SnapshotFeed {
    pub open spec fn wf(&self) -> bool {
        &&& self@.queues.len() == self@.live.len()
        &&& forall|i: int|
            0 <= i < self@.queues.len() ==> (#[trigger] self@.queues[i]).len()
                <= SNAPSHOT_BACKLOG
    }

    pub fn new() -> (r: SnapshotFeed)
        ensures
            r.wf(),
            r@.queues.len() == 0,
    {
        let r = SnapshotFeed { queues: Vec::new(), live: Vec::new() };
        assert(r@.queues =~= Seq::<Seq<PlaybackState>>::empty());
        r
    }

    /// Registers a subscriber, which will see what is published from now on.
    pub fn subscribe(&mut self) -> (id: usize)
        requires
            old(self).wf(),
        ensures
            final(self).wf(),
            id == old(self)@.queues.len(),
            final(self)@.queues == old(self)@.queues.push(Seq::empty()),
            final(self)@.live == old(self)@.live.push(true),
    {
        let id = self.queues.len();
        self.queues.push(Vec::new());
        self.live.push(true);
        assert(self@.queues =~= old(self)@.queues.push(Seq::empty()));
        id
    }

    /// Removes a subscriber; its unread snapshots are dropped.
    pub fn unsubscribe(&mut self, id: usize)
        requires
            old(self).wf(),
        ensures
            final(self).wf(),
            id < old(self)@.queues.len() ==> final(self)@.queues == old(self)@.queues.update(
                id as int,
                Seq::empty(),
            ) && final(self)@.live == old(self)@.live.update(id as int, false),
            id >= old(self)@.queues.len() ==> final(self)@ == old(self)@,
    {
        if id < self.queues.len() {
            self.queues.set(id, Vec::new());
            self.live.set(id, false);
            assert(self@.queues =~= old(self)@.queues.update(id as int, Seq::empty()));
        }
    }

    /// Hands `s` to every registered subscriber.
    pub fn publish(&mut self, s: &PlaybackState)
        requires
            old(self).wf(),
        ensures
            final(self).wf(),
            final(self)@ == published_feed(old(self)@, *s),
            final(self)@.live == old(self)@.live,
            final(self)@.queues.len() == old(self)@.queues.len(),
            forall|i: int|
                0 <= i < old(self)@.queues.len() ==> #[trigger] final(self)@.queues[i] == if old(
                    self,
                )@.live[i] {
                    pushed_bounded(old(self)@.queues[i], *s)
                } else {
                    old(self)@.queues[i]
                },
    {
        let n = self.queues.len();
        let mut i: usize = 0;
        while i < n
            invariant
                n == old(self)@.queues.len(),
                self.wf(),
                self@.live == old(self)@.live,
                self@.queues.len() == n,
                i <= n,
                forall|j: int|
                    0 <= j < i ==> #[trigger] self@.queues[j] == if old(self)@.live[j] {
                        pushed_bounded(old(self)@.queues[j], *s)
                    } else {
                        old(self)@.queues[j]
                    },
                forall|j: int| i <= j < n ==> #[trigger] self@.queues[j] == old(self)@.queues[j],
            decreases n - i,
        {
            if self.live[i] {
                let ghost before = self@.queues;
                let mut q: Vec<PlaybackState> = Vec::new();
                self.queues.set_and_swap(i, &mut q);
                assert(q@ == before[i as int]);
                q.push(s.copy());
                if q.len() > SNAPSHOT_BACKLOG {
                    q.remove(0);
                }
                proof {
                    let p = pushed_bounded(before[i as int], *s);
                    assert(q@ =~= p);
                }
                self.queues.set(i, q);
                assert(self@.queues =~= before.update(
                    i as int,
                    pushed_bounded(before[i as int], *s),
                ));
            }
            i = i + 1;
        }
        assert(self@.queues =~= published_feed(old(self)@, *s).queues);
    }

    /// Number of unread snapshots of subscriber `id`.
    pub fn pending(&self, id: usize) -> (r: usize)
        requires
            self.wf(),
        ensures
            id < self@.queues.len() ==> r == self@.queues[id as int].len(),
            id >= self@.queues.len() ==> r == 0,
    {
        if id < self.queues.len() {
            self.queues[id].len()
        } else {
            0
        }
    }

    /// Takes the oldest unread snapshot of subscriber `id`, if there is one.
    pub fn recv(&mut self, id: usize) -> (r: Option<PlaybackState>)
        requires
            old(self).wf(),
        ensures
            final(self).wf(),
            final(self)@.live == old(self)@.live,
            if id < old(self)@.queues.len() && old(self)@.queues[id as int].len() > 0 {
                r == Some(old(self)@.queues[id as int][0]) && final(self)@.queues == old(
                    self,
                )@.queues.update(id as int, old(self)@.queues[id as int].drop_first())
            } else {
                r is None && final(self)@ == old(self)@
            },
    {
        if id < self.queues.len() && self.queues[id].len() > 0 {
            let ghost before = self@.queues;
            let mut q: Vec<PlaybackState> = Vec::new();
            self.queues.set_and_swap(id, &mut q);
            assert(q@ == before[id as int]);
            let first = q.remove(0);
            assert(q@ =~= before[id as int].drop_first());
            self.queues.set(id, q);
            assert(self@.queues =~= before.update(id as int, before[id as int].drop_first()));
            Some(first)
        } else {
            None
        }
    }
}

pub ghost struct StatusSlotView {
    pub value: SpotifydStatus,
    /// For each watcher, whether a value was sent that it has not yet seen.
    pub unseen: Seq<bool>,
}

/// A single-slot, latest-value channel for the daemon's status: watchers learn that
/// the value changed and read the newest one; intermediate values are not queued.
pub struct StatusSlot {
    value: SpotifydStatus,
    unseen: Vec<bool>,
}

impl View for StatusSlot {
    type V = StatusSlotView;

    closed spec fn view(&self) -> StatusSlotView {
        StatusSlotView { value: self.value, unseen: self.unseen@ }
    }
}

impl StatusSlot {
    pub fn new(value: SpotifydStatus) -> (r: StatusSlot)
        ensures
            r@.value == value,
            r@.unseen.len() == 0,
    {
        StatusSlot { value, unseen: Vec::new() }
    }

    /// The latest value.
    pub fn get(&self) -> (r: SpotifydStatus)
        ensures
            r == self@.value,
    {
        self.value
    }

    /// Replaces the value and tells every watcher that it changed.
    pub fn send(&mut self, value: SpotifydStatus)
        ensures
            final(self)@.value == value,
            final(self)@.unseen == Seq::new(old(self)@.unseen.len(), |i: int| true),
    {
        let n = self.unseen.len();
        let mut fresh: Vec<bool> = Vec::new();
        let mut i: usize = 0;
        while i < n
            invariant
                i <= n,
                fresh@ == Seq::new(i as nat, |k: int| true),
            decreases n - i,
        {
            fresh.push(true);
            assert(fresh@ =~= Seq::new((i + 1) as nat, |k: int| true));
            i = i + 1;
        }
        self.value = value;
        self.unseen = fresh;
    }

    /// Registers a watcher; the current value counts as seen by it.
    pub fn subscribe(&mut self) -> (id: usize)
        ensures
            id == old(self)@.unseen.len(),
            final(self)@.value == old(self)@.value,
            final(self)@.unseen == old(self)@.unseen.push(false),
    {
        let id = self.unseen.len();
        self.unseen.push(false);
        id
    }

    /// Whether watcher `id` has a value that it has not seen.
    pub fn has_changed(&self, id: usize) -> (r: bool)
        ensures
            r == (id < self@.unseen.len() && self@.unseen[id as int]),
    {
        id < self.unseen.len() && self.unseen[id]
    }

    /// Reads the latest value for watcher `id`, which has then seen it.
    pub fn mark_seen(&mut self, id: usize) -> (r: SpotifydStatus)
        ensures
            r == old(self)@.value,
            final(self)@.value == old(self)@.value,
            id < old(self)@.unseen.len() ==> final(self)@.unseen == old(self)@.unseen.update(
                id as int,
                false,
            ),
            id >= old(self)@.unseen.len() ==> final(self)@.unseen == old(self)@.unseen,
    {
        if id < self.unseen.len() {
            self.unseen.set(id, false);
        }
        self.value
    }
}

} // verus!
