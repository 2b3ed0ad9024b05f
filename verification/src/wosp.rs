//! Queries that wait for their upstream reply.
//!
//! Each pending query owns the socket it was sent on and keeps the datagram
//! that asked, from which the reply's envelope is made. The queue is
//! bounded in length and in age: entries leave from the front when room is
//! needed or when they have waited too long. An entry that leaves is dropped,
//! which closes its socket.

use crate::clock::get_epoch_millis;
use vstd::prelude::*;

verus! {

/// Most queries that may wait at once.
pub const DNS_MAXIMUM_WAITING: usize = 1024;

/// Seconds after which a waiting query is given up.
pub const DNS_TIMEOUT_SEC: u128 = 10;

/// [`DNS_TIMEOUT_SEC`] in milliseconds, the unit of the entries' times.
pub const DNS_TIMEOUT_MILLIS: u128 = 10000;

/// A query sent upstream: the socket that the reply will arrive on, the
/// request datagram, and when it was sent (milliseconds since the epoch).
pub struct WaitingOnSocketPacket<S> {
    pub socket: S,
    pub packet: Vec<u8>,
    pub time: u128,
}

/// Milliseconds between `time` and `now`; 0 where `now` lies before `time`.
pub open spec fn age_millis_between(time: u128, now: u128) -> int {
    if now >= time {
        now - time
    } else {
        0
    }
}

/// Whole seconds between `time` and `now`; 0 where `now` lies before `time`.
pub open spec fn age_seconds_between(time: u128, now: u128) -> int {
    age_millis_between(time, now) / 1000
}

/// Whether an entry made at `time` has waited too long at `now`: for more
/// than [`DNS_TIMEOUT_MILLIS`] milliseconds.
pub open spec fn timed_out(time: u128, now: u128) -> bool {
    age_millis_between(time, now) > DNS_TIMEOUT_MILLIS
}

impl<S> WaitingOnSocketPacket<S> {
    /// A pending query made at `time`.
    pub fn at(socket: S, packet: Vec<u8>, time: u128) -> (wosp: Self)
        ensures
            wosp.socket == socket,
            wosp.packet == packet,
            wosp.time == time,
    {
        WaitingOnSocketPacket { socket, packet, time }
    }

    /// A pending query made now, by the system clock.
    pub fn new(socket: S, packet: Vec<u8>) -> (wosp: Self)
        ensures
            wosp.socket == socket,
            wosp.packet == packet,
    {
        Self::at(socket, packet, get_epoch_millis())
    }

    /// Whether this entry has waited too long at `now`.
    pub fn timed_out_at(&self, now: u128) -> (stale: bool)
        ensures
            stale == timed_out(self.time, now),
    {
        now >= self.time && now - self.time > DNS_TIMEOUT_MILLIS
    }

    /// The age of this entry at `now`, in whole seconds.
    pub fn age_seconds_at(&self, now: u128) -> (age: u128)
        ensures
            age == age_seconds_between(self.time, now),
    {
        if now >= self.time {
            (now - self.time) / 1000
        } else {
            0
        }
    }

    /// The age of this entry by the system clock, in whole seconds.
    pub fn age_seconds(&self) -> (age: u128)
        ensures
            exists|now: u128| age == age_seconds_between(self.time, now),
    {
        let now = get_epoch_millis();
        self.age_seconds_at(now)
    }
}

/// `list` without the entries at its front that have timed out at `now`.
pub open spec fn drop_timed_out<S>(list: Seq<WaitingOnSocketPacket<S>>, now: u128) -> Seq<
    WaitingOnSocketPacket<S>,
>
    decreases list.len(),
{
    if list.len() > 0 && timed_out(list[0].time, now) {
        drop_timed_out(list.drop_first(), now)
    } else {
        list
    }
}

/// `list` with room for one more entry: without its first entry where it is
/// full.
pub open spec fn make_room<S>(list: Seq<WaitingOnSocketPacket<S>>) -> Seq<
    WaitingOnSocketPacket<S>,
> {
    if list.len() >= DNS_MAXIMUM_WAITING {
        list.drop_first()
    } else {
        list
    }
}

/// The queue after `wosp` is added at `now`.
pub open spec fn after_add<S>(
    list: Seq<WaitingOnSocketPacket<S>>,
    wosp: WaitingOnSocketPacket<S>,
    now: u128,
) -> Seq<WaitingOnSocketPacket<S>> {
    drop_timed_out(make_room(list), now).push(wosp)
}

/// The entries of `list` whose flag in `ready` is `wanted`, in their order.
/// An entry without a flag counts as not ready.
pub open spec fn select_ready<S>(
    list: Seq<WaitingOnSocketPacket<S>>,
    ready: Seq<bool>,
    wanted: bool,
) -> Seq<WaitingOnSocketPacket<S>>
    decreases list.len(),
{
    if list.len() == 0 {
        list
    } else {
        let before = select_ready(list.drop_last(), ready, wanted);
        let flag = list.len() <= ready.len() && ready[list.len() - 1];
        if flag == wanted {
            before.push(list.last())
        } else {
            before
        }
    }
}

/// The pending queries, oldest first.
pub struct WospList<S> {
    list: Vec<WaitingOnSocketPacket<S>>,
}

impl<S> View for WospList<S> {
    type V = Seq<WaitingOnSocketPacket<S>>;

    closed spec fn view(&self) -> Seq<WaitingOnSocketPacket<S>> {
        self.list@
    }
}

impl<S> WospList<S> {
    #[verifier::type_invariant]
    spec fn bounded(&self) -> bool {
        self.list@.len() <= DNS_MAXIMUM_WAITING
    }

    /// An empty queue.
    pub fn new() -> (list: Self)
        ensures
            list@.len() == 0,
    {
        WospList { list: Vec::new() }
    }

    /// The number of pending queries, never more than
    /// [`DNS_MAXIMUM_WAITING`].
    pub fn len(&self) -> (len: usize)
        ensures
            len == self@.len(),
            len <= DNS_MAXIMUM_WAITING,
    {
        proof {
            use_type_invariant(self);
        }
        self.list.len()
    }

    /// The pending query at `index`, if there is one.
    pub fn get(&self, index: usize) -> (wosp: Option<&WaitingOnSocketPacket<S>>)
        ensures
            match wosp {
                Some(w) => index < self@.len() && *w == self@[index as int],
                None => index >= self@.len(),
            },
    {
        if index < self.list.len() {
            Some(&self.list[index])
        } else {
            None
        }
    }

    /// Adds a query at the time `now`. Where the queue is full, its oldest
    /// entry leaves first; then every entry at the front that has waited more
    /// than [`DNS_TIMEOUT_SEC`] seconds, to the millisecond, leaves; then
    /// `wosp` is appended.
    pub fn add_at(&mut self, wosp: WaitingOnSocketPacket<S>, now: u128)
        ensures
            final(self)@ == after_add(old(self)@, wosp, now),
            final(self)@.len() <= DNS_MAXIMUM_WAITING,
    {
        proof {
            use_type_invariant(&*self);
        }
        // the entries are moved out while they are edited, and back at the end
        let mut list: Vec<WaitingOnSocketPacket<S>> = Vec::new();
        std::mem::swap(&mut self.list, &mut list);
        if list.len() >= DNS_MAXIMUM_WAITING {
            list.remove(0);
        }
        assert(list@ =~= make_room(old(self)@));
        while list.len() > 0 && list[0].timed_out_at(now)
            invariant
                list@.len() < DNS_MAXIMUM_WAITING,
                drop_timed_out(list@, now) == drop_timed_out(make_room(old(self)@), now),
            decreases list@.len(),
        {
            assert(list@.remove(0) =~= list@.drop_first());
            list.remove(0);
        }
        list.push(wosp);
        std::mem::swap(&mut self.list, &mut list);
    }

    /// Adds a query at the time that the system clock shows: see
    /// [`WospList::add_at`].
    pub fn add(&mut self, wosp: WaitingOnSocketPacket<S>)
        ensures
            exists|now: u128| final(self)@ == after_add(old(self)@, wosp, now),
            final(self)@.len() <= DNS_MAXIMUM_WAITING,
    {
        let now = get_epoch_millis();
        self.add_at(wosp, now);
    }

    /// Takes the pending query at `index` out of the queue and hands it to
    /// the caller. The others keep their order. `None`, and no change, where
    /// the queue has no such entry.
    pub fn remove(&mut self, index: usize) -> (wosp: Option<WaitingOnSocketPacket<S>>)
        ensures
            match wosp {
                Some(w) => {
                    &&& index < old(self)@.len()
                    &&& w == old(self)@[index as int]
                    &&& final(self)@ == old(self)@.remove(index as int)
                },
                None => index >= old(self)@.len() && final(self)@ == old(self)@,
            },
    {
        proof {
            use_type_invariant(&*self);
        }
        if index >= self.list.len() {
            return None;
        }
        let mut list: Vec<WaitingOnSocketPacket<S>> = Vec::new();
        std::mem::swap(&mut self.list, &mut list);
        let wosp = list.remove(index);
        std::mem::swap(&mut self.list, &mut list);
        Some(wosp)
    }

    /// Takes out every pending query whose flag in `ready` is set, and hands
    /// them to the caller in queue order. The others stay, in their order.
    /// `ready[i]` speaks of the entry at index `i`.
    pub fn take_ready(&mut self, ready: &Vec<bool>) -> (taken: Vec<WaitingOnSocketPacket<S>>)
        ensures
            taken@ == select_ready(old(self)@, ready@, true),
            final(self)@ == select_ready(old(self)@, ready@, false),
    {
        proof {
            use_type_invariant(&*self);
        }
        let mut taken: Vec<WaitingOnSocketPacket<S>> = Vec::new();
        let mut kept: Vec<WaitingOnSocketPacket<S>> = Vec::new();
        let ghost all = self.list@;
        let mut rest: Vec<WaitingOnSocketPacket<S>> = Vec::new();
        std::mem::swap(&mut self.list, &mut rest);
        let mut i: usize = 0;
        let total = rest.len();
        assert(all.take(0) =~= Seq::<WaitingOnSocketPacket<S>>::empty());
        while i < total
            invariant
                i <= total == all.len(),
                total <= DNS_MAXIMUM_WAITING,
                rest@ == all.skip(i as int),
                taken@ == select_ready(all.take(i as int), ready@, true),
                kept@ == select_ready(all.take(i as int), ready@, false),
                kept@.len() <= i,
                self.list@.len() == 0,
            decreases total - i,
        {
            let flag = i < ready.len() && ready[i];
            let wosp = rest.remove(0);
            assert(all.take(i + 1).drop_last() =~= all.take(i as int));
            assert(rest@ =~= all.skip(i + 1));
            if flag {
                taken.push(wosp);
            } else {
                kept.push(wosp);
            }
            i += 1;
        }
        assert(all.take(i as int) =~= all);
        std::mem::swap(&mut self.list, &mut kept);
        taken
    }
}

/// Whether the entries stand in the order of their times.
pub open spec fn ordered_by_time<S>(list: Seq<WaitingOnSocketPacket<S>>) -> bool {
    forall|i: int, j: int| 0 <= i <= j < list.len() ==> list[i].time <= list[j].time
}

/// Dropping the timed-out front leaves the rest of the queue, and what then
/// stands at the front has not timed out.
pub proof fn lemma_drop_timed_out<S>(list: Seq<WaitingOnSocketPacket<S>>, now: u128)
    ensures
        drop_timed_out(list, now).len() <= list.len(),
        drop_timed_out(list, now) == list.skip(list.len() - drop_timed_out(list, now).len()),
        drop_timed_out(list, now).len() > 0 ==> !timed_out(drop_timed_out(list, now)[0].time, now),
    decreases list.len(),
{
    if list.len() > 0 && timed_out(list[0].time, now) {
        lemma_drop_timed_out(list.drop_first(), now);
        let kept = drop_timed_out(list.drop_first(), now);
        assert(list.drop_first().skip(list.drop_first().len() - kept.len()) =~= list.skip(
            list.len() - kept.len(),
        ));
    } else {
        assert(list.skip(0) =~= list);
    }
}

/// Where the queue stands in the order of its times, no entry that waits
/// behind a completed `add` is older than the limit at the time of that
/// `add`: none of those that waited before, and not the one just added
/// either, unless it was stale when it came.
pub proof fn lemma_add_leaves_no_timed_out_entry<S>(
    list: Seq<WaitingOnSocketPacket<S>>,
    wosp: WaitingOnSocketPacket<S>,
    now: u128,
)
    requires
        ordered_by_time(list),
    ensures
        forall|i: int|
            0 <= i < after_add(list, wosp, now).len() - 1 ==> !timed_out(
                (#[trigger] after_add(list, wosp, now)[i]).time,
                now,
            ),
        !timed_out(wosp.time, now) ==> forall|i: int|
            0 <= i < after_add(list, wosp, now).len() ==> age_millis_between(
                (#[trigger] after_add(list, wosp, now)[i]).time,
                now,
            ) <= DNS_TIMEOUT_MILLIS,
{
    let roomy = make_room(list);
    let kept = drop_timed_out(roomy, now);
    lemma_drop_timed_out(roomy, now);
    assert forall|i: int| 0 <= i < after_add(list, wosp, now).len() - 1 implies !timed_out(
        (#[trigger] after_add(list, wosp, now)[i]).time,
        now,
    ) by {
        let offset = list.len() - kept.len();
        assert(after_add(list, wosp, now)[i] == kept[i]);
        assert(kept[i] == list[i + offset]);
        assert(kept[0] == list[offset]);
        assert(list[offset].time <= list[i + offset].time);
    }
    assert(after_add(list, wosp, now)[after_add(list, wosp, now).len() - 1] == wosp);
}

} // verus!
