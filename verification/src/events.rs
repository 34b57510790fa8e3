use vstd::prelude::*;

use crate::attack::AttackType;
use crate::common::{Aura, PassiveEffect};

verus! {

/// What happened at a point of the simulated timeline.
#[derive(Clone, Copy, PartialEq, Eq, Structural, Debug)]
pub enum EventCategory {
    AttackCastStart,
    AttackCastEnd,
    // An aura is either a buff or a debuff
    AuraAttackerStart,
    AuraAttackerEnd,
    AuraTargetStart,
    AuraTargetEnd,
    CooldownEnded,
    PassiveTriggered,
    TargetDied,
}

/// An event of the simulated timeline.
#[derive(Clone, Copy, PartialEq, Eq, Structural, Debug)]
pub struct Event {
    pub time_ms: u64,
    pub category: EventCategory,
    pub attack_type: Option<AttackType>,
    pub passive_effect: Option<PassiveEffect>,
    pub aura: Option<Aura>,
}

/// Events are listed in nondecreasing time order.
pub open spec fn time_sorted(s: Seq<Event>) -> bool {
    forall|i: int, j: int| 0 <= i <= j < s.len() ==> s[i].time_ms <= s[j].time_ms
}

/// The position at which an event at time `t` is queued: after every event at or before `t`.
pub open spec fn insert_pos(s: Seq<Event>, t: u64) -> nat
    decreases s.len(),
{
    if s.len() == 0 {
        0
    } else if s.last().time_ms <= t {
        s.len()
    } else {
        insert_pos(s.drop_last(), t)
    }
}

/// The queue `s` once `e` has been queued.
pub open spec fn schedule(s: Seq<Event>, e: Event) -> Seq<Event> {
    s.insert(insert_pos(s, e.time_ms) as int, e)
}

/// Whether an event is the end (of the given category) of the given aura.
pub open spec fn is_aura_event(e: Event, category: EventCategory, aura: Aura) -> bool {
    e.category == category && e.aura == Some(aura)
}

/// The filter that keeps every event except those of the given category about the given aura.
pub open spec fn keeps_unless_aura_event(category: EventCategory, aura: Aura) -> spec_fn(
    Event,
) -> bool {
    |e: Event| !is_aura_event(e, category, aura)
}

/// In a time-ordered queue, an event at time `t` is queued after every event at or before
/// `t` and before every later event.
pub proof fn lemma_insert_pos(s: Seq<Event>, t: u64)
    requires
        time_sorted(s),
    ensures
        insert_pos(s, t) <= s.len(),
        forall|i: int| 0 <= i < insert_pos(s, t) ==> s[i].time_ms <= t,
        forall|i: int| insert_pos(s, t) <= i < s.len() ==> s[i].time_ms > t,
    decreases s.len(),
{
    if s.len() > 0 {
        if s.last().time_ms > t {
            let d = s.drop_last();
            assert(time_sorted(d));
            lemma_insert_pos(d, t);
            assert forall|i: int| 0 <= i < insert_pos(s, t) implies s[i].time_ms <= t by {
                assert(d[i] == s[i]);
            }
            assert forall|i: int| insert_pos(s, t) <= i < s.len() implies s[i].time_ms > t by {
                if i < s.len() - 1 {
                    assert(d[i] == s[i]);
                }
            }
        } else {
            assert forall|i: int| 0 <= i < insert_pos(s, t) implies s[i].time_ms <= t by {
                assert(s[i].time_ms <= s[s.len() - 1].time_ms);
            }
        }
    }
}

/// Queueing an event keeps the queue in time order, puts the new event after every event
/// at or before its time (so events of equal time come out in the order they were queued),
/// and keeps every other event in place relative to the others.
pub proof fn lemma_schedule(s: Seq<Event>, e: Event)
    requires
        time_sorted(s),
    ensures
        time_sorted(schedule(s, e)),
        schedule(s, e).len() == s.len() + 1,
        schedule(s, e)[insert_pos(s, e.time_ms) as int] == e,
        forall|i: int| 0 <= i < insert_pos(s, e.time_ms) ==> #[trigger] schedule(s, e)[i] == s[i]
            && s[i].time_ms <= e.time_ms,
        forall|i: int|
            insert_pos(s, e.time_ms) <= i < s.len() ==> #[trigger] schedule(s, e)[i + 1] == s[i]
                && s[i].time_ms > e.time_ms,
{
    lemma_insert_pos(s, e.time_ms);
}

/// Two events queued one after the other at the same time come out in the order they were
/// queued: the first stays where it was placed, and the second is placed after it.
pub proof fn lemma_equal_times_keep_queue_order(q: Seq<Event>, e1: Event, e2: Event)
    requires
        time_sorted(q),
        e1.time_ms == e2.time_ms,
    ensures
        insert_pos(q, e1.time_ms) < insert_pos(schedule(q, e1), e2.time_ms),
        schedule(schedule(q, e1), e2)[insert_pos(q, e1.time_ms) as int] == e1,
        schedule(schedule(q, e1), e2)[insert_pos(schedule(q, e1), e2.time_ms) as int] == e2,
{
    let q1 = schedule(q, e1);
    let p1 = insert_pos(q, e1.time_ms);
    lemma_insert_pos(q, e1.time_ms);
    lemma_schedule(q, e1);
    lemma_schedule(q1, e2);
    lemma_insert_pos(q1, e2.time_ms);
    let p2 = insert_pos(q1, e2.time_ms);
    assert(q1[p1 as int] == e1);
}

/// No event of the queue is before time `t`.
pub open spec fn none_before(q: Seq<Event>, t: u64) -> bool {
    forall|i: int| 0 <= i < q.len() ==> #[trigger] q[i].time_ms >= t
}

/// The position at which an event is queued is within the queue.
pub proof fn lemma_insert_pos_bound(s: Seq<Event>, t: u64)
    ensures
        insert_pos(s, t) <= s.len(),
    decreases s.len(),
{
    if s.len() > 0 && s.last().time_ms > t {
        lemma_insert_pos_bound(s.drop_last(), t);
    }
}

/// Queueing an event no earlier than `t` keeps every event of the queue at or after `t`.
pub proof fn lemma_schedule_none_before(q: Seq<Event>, e: Event, t: u64)
    requires
        none_before(q, t),
        e.time_ms >= t,
    ensures
        none_before(schedule(q, e), t),
{
    lemma_insert_pos_bound(q, e.time_ms);
    let p = insert_pos(q, e.time_ms) as int;
    let r = schedule(q, e);
    assert forall|i: int| 0 <= i < r.len() implies #[trigger] r[i].time_ms >= t by {
        if i < p {
            assert(r[i] == q[i]);
        } else if i > p {
            assert(r[i] == q[i - 1]);
        }
    }
}

/// Dropping events keeps every remaining event at or after `t`.
pub proof fn lemma_filter_none_before(q: Seq<Event>, f: spec_fn(Event) -> bool, t: u64)
    requires
        none_before(q, t),
    ensures
        none_before(q.filter(f), t),
{
    broadcast use vstd::seq_lib::group_filter_ensures;

    assert forall|i: int| 0 <= i < q.filter(f).len() implies #[trigger] q.filter(f)[i].time_ms
        >= t by {
        assert(q.filter(f).contains(q.filter(f)[i]));
        q.lemma_filter_contains_rev(f, q.filter(f)[i]);
    }
}

/// Once the earliest event is taken out of a time-ordered queue, no remaining event is
/// before it: moving the clock to its time never leaves an event in the past.
pub proof fn lemma_rest_not_before_popped(q: Seq<Event>)
    requires
        time_sorted(q),
        q.len() > 0,
    ensures
        none_before(q.drop_first(), q[0].time_ms),
{
    assert forall|i: int| 0 <= i < q.drop_first().len() implies #[trigger] q.drop_first()[i].time_ms
        >= q[0].time_ms by {
        assert(q.drop_first()[i] == q[i + 1]);
    }
}

/// A queue with no event before the clock gives out no event before the clock.
pub proof fn lemma_popped_not_before(q: Seq<Event>, t: u64)
    requires
        none_before(q, t),
        q.len() > 0,
    ensures
        q[0].time_ms >= t,
{
}

/// Popping the earliest event of a time-ordered queue that holds nothing before the clock
/// gives an event no earlier than the clock, and leaves nothing before that event's time:
/// moving the clock to each popped event in turn never moves it back.
pub proof fn lemma_clock_never_goes_back(q: Seq<Event>, clock: u64)
    requires
        time_sorted(q),
        none_before(q, clock),
        q.len() > 0,
    ensures
        clock <= q[0].time_ms,
        none_before(q.drop_first(), q[0].time_ms),
{
    lemma_popped_not_before(q, clock);
    lemma_rest_not_before_popped(q);
}

/// The queue of pending events, kept in time order. Events of equal time come out in the
/// order they were queued.
pub struct EventQueue {
    events: Vec<Event>,
}

impl View for EventQueue {
    type V = Seq<Event>;

    closed spec fn view(&self) -> Seq<Event> {
        self.events@
    }
}

impl EventQueue {
    #[verifier::type_invariant]
    spec fn sorted(self) -> bool {
        time_sorted(self.events@)
    }

    /// An empty queue.
    pub fn new() -> (q: EventQueue)
        ensures
            q@ == Seq::<Event>::empty(),
    {
        EventQueue { events: Vec::new() }
    }

    /// The number of pending events.
    pub fn len(&self) -> (n: usize)
        ensures
            n == self@.len(),
    {
        self.events.len()
    }

    /// The pending events are in time order.
    pub fn lemma_sorted(&self)
        ensures
            time_sorted(self@),
    {
        proof {
            use_type_invariant(self);
        }
    }

    /// A copy of the pending events, in the order they will come out.
    pub fn to_vec(&self) -> (v: Vec<Event>)
        ensures
            v@ == self@,
    {
        self.events.clone()
    }

    /// Queues an event after every pending event at or before its time.
    pub fn push(&mut self, e: Event)
        ensures
            final(self)@ == schedule(old(self)@, e),
    {
        proof {
            use_type_invariant(&*self);
        }
        let mut events: Vec<Event> = Vec::new();
        core::mem::swap(&mut events, &mut self.events);
        let ghost s = events@;
        let mut i: usize = events.len();
        proof {
            assert(s.take(s.len() as int) =~= s);
        }
        while i > 0 && events[i - 1].time_ms > e.time_ms
            invariant
                events@ == s,
                time_sorted(s),
                i <= s.len(),
                insert_pos(s, e.time_ms) == insert_pos(s.take(i as int), e.time_ms),
            decreases i,
        {
            proof {
                assert(s.take(i as int).drop_last() =~= s.take(i - 1));
            }
            i = i - 1;
        }
        proof {
            if i == 0 {
                assert(s.take(0) =~= Seq::<Event>::empty());
            }
            assert(s.take(i as int) =~= s.take(i as int));
            lemma_schedule(s, e);
        }
        events.insert(i, e);
        self.events = events;
    }

    /// Takes out the earliest pending event (the first queued among equally early ones).
    pub fn pop(&mut self) -> (r: Option<Event>)
        ensures
            old(self)@.len() == 0 ==> r is None && final(self)@ == old(self)@,
            old(self)@.len() > 0 ==> r == Some(old(self)@[0]) && final(self)@ == old(
                self,
            )@.drop_first(),
            forall|i: int| 0 <= i < old(self)@.len() ==> old(self)@[0].time_ms <= #[trigger] old(
                self,
            )@[i].time_ms,
    {
        proof {
            use_type_invariant(&*self);
        }
        if self.events.len() == 0 {
            return None;
        }
        let mut events: Vec<Event> = Vec::new();
        core::mem::swap(&mut events, &mut self.events);
        let first = events.remove(0);
        proof {
            assert(events@ =~= old(self)@.drop_first());
        }
        self.events = events;
        Some(first)
    }

    /// Drops every pending event of the given category about the given aura.
    pub fn remove_aura_events(&mut self, category: EventCategory, aura: Aura)
        ensures
            final(self)@ == old(self)@.filter(keeps_unless_aura_event(category, aura)),
    {
        proof {
            use_type_invariant(&*self);
        }
        let mut events: Vec<Event> = Vec::new();
        core::mem::swap(&mut events, &mut self.events);
        let ghost s = events@;
        let ghost pred = keeps_unless_aura_event(category, aura);
        let mut kept: Vec<Event> = Vec::new();
        let mut i: usize = 0;
        while i < events.len()
            invariant
                events@ == s,
                time_sorted(s),
                i <= s.len(),
                pred == keeps_unless_aura_event(category, aura),
                kept@ == s.take(i as int).filter(pred),
                time_sorted(kept@),
                forall|k: int, j: int|
                    0 <= k < kept@.len() && i <= j < s.len() ==> kept@[k].time_ms <= s[j].time_ms,
            decreases s.len() - i,
        {
            let ev = events[i];
            proof {
                assert(s.take(i + 1).drop_last() =~= s.take(i as int));
                assert(s.take(i + 1).last() == s[i as int]);
                reveal(Seq::filter);
                assert(s.take(i + 1).filter(pred) == (if pred(ev) {
                    s.take(i as int).filter(pred).push(ev)
                } else {
                    s.take(i as int).filter(pred)
                }));
            }
            let matches = ev.category == category && match ev.aura {
                Some(a) => a == aura,
                None => false,
            };
            assert(matches == is_aura_event(ev, category, aura));
            if !matches {
                kept.push(ev);
            }
            i = i + 1;
        }
        proof {
            assert(s.take(s.len() as int) =~= s);
        }
        self.events = kept;
    }
}

/// Queues the end of the cast started by `attack_cast_start_event`.
pub fn insert_attack_cast_end_event(
    attack_cast_start_event: &Event,
    events: &mut EventQueue,
    time_ms: u64,
)
    ensures
        final(events)@ == schedule(
            old(events)@,
            Event {
                attack_type: attack_cast_start_event.attack_type,
                category: EventCategory::AttackCastEnd,
                time_ms,
                passive_effect: None,
                aura: None,
            },
        ),
{
    let event = Event {
        attack_type: attack_cast_start_event.attack_type,
        category: EventCategory::AttackCastEnd,
        time_ms,
        passive_effect: None,
        aura: None,
    };
    events.push(event);
}

/// Queues the end of the cooldown of the attack of `event`.
pub fn insert_cooldown_ended_event(events: &mut EventQueue, event: &Event, time_ms: u64)
    ensures
        final(events)@ == schedule(
            old(events)@,
            Event {
                attack_type: event.attack_type,
                category: EventCategory::CooldownEnded,
                time_ms,
                passive_effect: None,
                aura: None,
            },
        ),
{
    let event = Event {
        attack_type: event.attack_type,
        category: EventCategory::CooldownEnded,
        time_ms,
        passive_effect: None,
        aura: None,
    };
    events.push(event);
}

/// Queues the record that a passive effect triggered.
pub fn insert_passive_triggered_event(
    events: &mut EventQueue,
    time_ms: u64,
    passive_effect: PassiveEffect,
)
    ensures
        final(events)@ == schedule(
            old(events)@,
            Event {
                attack_type: None,
                category: EventCategory::PassiveTriggered,
                time_ms,
                passive_effect: Some(passive_effect),
                aura: None,
            },
        ),
{
    let event = Event {
        attack_type: None,
        category: EventCategory::PassiveTriggered,
        time_ms,
        passive_effect: Some(passive_effect),
        aura: None,
    };
    events.push(event);
}

/// The event recording that an aura of the given category starts or ends.
pub open spec fn aura_event(category: EventCategory, time_ms: u64, aura: Aura) -> Event {
    Event { attack_type: None, category, time_ms, passive_effect: None, aura: Some(aura) }
}

/// Queues the start of an aura on the attacker.
pub fn insert_aura_attacker_start_event(events: &mut EventQueue, time_ms: u64, aura: Aura)
    ensures
        final(events)@ == schedule(
            old(events)@,
            aura_event(EventCategory::AuraAttackerStart, time_ms, aura),
        ),
{
    let event = Event {
        attack_type: None,
        category: EventCategory::AuraAttackerStart,
        time_ms,
        passive_effect: None,
        aura: Some(aura),
    };
    events.push(event);
}

/// Queues the end of an aura on the attacker.
pub fn insert_aura_attacker_end_event(events: &mut EventQueue, time_ms: u64, aura: Aura)
    ensures
        final(events)@ == schedule(
            old(events)@,
            aura_event(EventCategory::AuraAttackerEnd, time_ms, aura),
        ),
{
    let event = Event {
        attack_type: None,
        category: EventCategory::AuraAttackerEnd,
        time_ms,
        passive_effect: None,
        aura: Some(aura),
    };
    events.push(event);
}

/// Queues the start of an aura on the target.
pub fn insert_aura_target_start_event(events: &mut EventQueue, time_ms: u64, aura: Aura)
    ensures
        final(events)@ == schedule(
            old(events)@,
            aura_event(EventCategory::AuraTargetStart, time_ms, aura),
        ),
{
    let event = Event {
        attack_type: None,
        category: EventCategory::AuraTargetStart,
        time_ms,
        passive_effect: None,
        aura: Some(aura),
    };
    events.push(event);
}

/// Queues the end of an aura on the target.
pub fn insert_aura_target_end_event(events: &mut EventQueue, time_ms: u64, aura: Aura)
    ensures
        final(events)@ == schedule(
            old(events)@,
            aura_event(EventCategory::AuraTargetEnd, time_ms, aura),
        ),
{
    let event = Event {
        attack_type: None,
        category: EventCategory::AuraTargetEnd,
        time_ms,
        passive_effect: None,
        aura: Some(aura),
    };
    events.push(event);
}

} // verus!
