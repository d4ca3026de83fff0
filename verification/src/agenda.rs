//! The events that are still to come, in the order in which they start.

use vstd::prelude::*;
use crate::area_information::{AreaInformation, EventView};
use crate::evaluation::{is_soonest, is_upcoming, lemma_soonest, lemma_soonest_is, soonest};
use crate::timestamp::Timestamp;

verus! {

/// Whether the event at position `i` comes before the one at position `j`:
/// it starts earlier, or at the same instant and was received earlier.
pub open spec fn precedes(events: Seq<EventView>, i: int, j: int) -> bool {
    let a = events[i].start.instant();
    let b = events[j].start.instant();
    a < b || (a == b && i < j)
}

/// Whether `agenda` lists the positions of exactly the events that start
/// after `now`, each before every event that it precedes.
pub open spec fn is_agenda(events: Seq<EventView>, now: Timestamp, agenda: Seq<usize>) -> bool {
    &&& forall|k: int| 0 <= k < agenda.len() ==> is_upcoming(events, now, #[trigger] agenda[k] as int)
    &&& forall|i: int| #[trigger]
        is_upcoming(events, now, i) ==> exists|k: int|
            0 <= k < agenda.len() && #[trigger] agenda[k] == i
    &&& forall|k: int, l: int|
        0 <= k < l < agenda.len() ==> precedes(
            events,
            #[trigger] agenda[k] as int,
            #[trigger] agenda[l] as int,
        )
}

impl AreaInformation {
    /// The positions of the events that start strictly after `now`, sorted by
    /// start; events with the same start keep the order in which they were
    /// received.
    pub fn upcoming(&self, now: &Timestamp) -> (agenda: Vec<usize>)
        ensures
            is_agenda(self@, *now, agenda@),
    {
        let mut agenda: Vec<usize> = Vec::new();
        let mut i: usize = 0;
        while i < self.events.len()
            invariant
                0 <= i <= self.events.len(),
                is_agenda(self@.take(i as int), *now, agenda@),
                forall|k: int| 0 <= k < agenda@.len() ==> #[trigger] agenda@[k] < i,
            decreases self.events.len() - i,
        {
            let ghost shorter = self@.take(i as int);
            let ghost longer = self@.take(i + 1);
            let ghost before = agenda@;
            proof {
                assert forall|j: int| 0 <= j < i implies shorter[j] == longer[j] by {}
                assert forall|j: int| 0 <= j < i implies is_upcoming(shorter, *now, j)
                    == is_upcoming(longer, *now, j) by {}
                assert(longer[i as int] == self.events@[i as int]@);
            }
            if self.events[i].start.is_after(now) {
                let mut p: usize = 0;
                while p < agenda.len() && !(self.events[agenda[p]].start.nanos_since(
                    &self.events[i].start,
                ) > 0)
                    invariant
                        0 <= p <= agenda.len(),
                        i < self.events.len(),
                        agenda@ == before,
                        longer == self@.take(i + 1),
                        forall|k: int| 0 <= k < agenda@.len() ==> #[trigger] agenda@[k] < i,
                        forall|k: int|
                            0 <= k < p ==> precedes(longer, #[trigger] agenda@[k] as int, i as int),
                    decreases agenda.len() - p,
                {
                    proof {
                        assert(longer[agenda@[p as int] as int] == self.events@[agenda@[p as int] as int]@);
                        assert(longer[i as int] == self.events@[i as int]@);
                    }
                    p += 1;
                }
                proof {
                    if p < agenda.len() {
                        assert(longer[agenda@[p as int] as int] == self.events@[agenda@[
                            p as int
                        ] as int]@);
                        assert(longer[i as int] == self.events@[i as int]@);
                        assert(precedes(longer, i as int, agenda@[p as int] as int));
                    }
                }
                agenda.insert(p, i);
                proof {
                    let after = agenda@;
                    assert(after == before.insert(p as int, i));
                    before.insert_ensures(p as int, i);
                    assert forall|k: int| 0 <= k < after.len() implies is_upcoming(
                        longer,
                        *now,
                        #[trigger] after[k] as int,
                    ) by {
                        if k < p {
                            assert(after[k] == before[k]);
                            assert(is_upcoming(shorter, *now, before[k] as int));
                        } else if k > p {
                            assert(after[k] == before[k - 1]);
                            assert(is_upcoming(shorter, *now, before[k - 1] as int));
                        }
                    }
                    assert forall|j: int| #[trigger] is_upcoming(longer, *now, j) implies exists|
                        k: int,
                    |
                        0 <= k < after.len() && #[trigger] after[k] == j by {
                        if j < i {
                            assert(is_upcoming(shorter, *now, j));
                            let k0 = choose|k: int| 0 <= k < before.len() && #[trigger] before[k] == j;
                            if k0 < p {
                                assert(after[k0] == j);
                            } else {
                                assert(after[k0 + 1] == j);
                            }
                        } else {
                            assert(after[p as int] == j);
                        }
                    }
                    assert forall|k: int, l: int| 0 <= k < l < after.len() implies precedes(
                        longer,
                        #[trigger] after[k] as int,
                        #[trigger] after[l] as int,
                    ) by {
                        if l < p {
                            assert(after[k] == before[k] && after[l] == before[l]);
                            assert(precedes(shorter, before[k] as int, before[l] as int));
                        } else if l == p {
                            assert(after[k] == before[k]);
                        } else if k < p {
                            assert(after[k] == before[k] && after[l] == before[l - 1]);
                            if k < l - 1 {
                                assert(precedes(shorter, before[k] as int, before[l - 1] as int));
                            }
                        } else if k == p {
                            assert(after[l] == before[l - 1]);
                            if p < l - 1 {
                                assert(precedes(shorter, before[p as int] as int, before[l - 1] as int));
                            }
                        } else {
                            assert(after[k] == before[k - 1] && after[l] == before[l - 1]);
                            assert(precedes(shorter, before[k - 1] as int, before[l - 1] as int));
                        }
                    }
                    assert forall|k: int| 0 <= k < after.len() implies #[trigger] after[k] < i + 1 by {
                        if k < p {
                            assert(after[k] == before[k]);
                        } else if k > p {
                            assert(after[k] == before[k - 1]);
                        }
                    }
                }
            } else {
                proof {
                    assert forall|k: int| 0 <= k < before.len() implies is_upcoming(
                        longer,
                        *now,
                        #[trigger] before[k] as int,
                    ) by {
                        assert(is_upcoming(shorter, *now, before[k] as int));
                    }
                    assert forall|j: int| #[trigger] is_upcoming(longer, *now, j) implies exists|
                        k: int,
                    |
                        0 <= k < before.len() && #[trigger] before[k] == j by {
                        assert(is_upcoming(shorter, *now, j));
                    }
                    assert forall|k: int, l: int| 0 <= k < l < before.len() implies precedes(
                        longer,
                        #[trigger] before[k] as int,
                        #[trigger] before[l] as int,
                    ) by {
                        assert(precedes(shorter, before[k] as int, before[l] as int));
                    }
                }
            }
            i += 1;
        }
        proof {
            assert(self@.take(i as int) =~= self@);
        }
        agenda
    }
}

/// The agenda is empty exactly where no event is upcoming, and otherwise
/// begins with the soonest upcoming event.
pub proof fn law_agenda_begins_with_soonest(events: Seq<EventView>, now: Timestamp, agenda: Seq<usize>)
    requires
        is_agenda(events, now, agenda),
    ensures
        agenda.len() == 0 <==> soonest(events, now) is None,
        agenda.len() > 0 ==> soonest(events, now) == Some(agenda[0] as int),
{
    lemma_soonest(events, now);
    if agenda.len() > 0 {
        let first = agenda[0] as int;
        assert(is_upcoming(events, now, first));
        assert forall|j: int| #[trigger]
            is_upcoming(events, now, j) implies events[first].start.instant()
            <= events[j].start.instant() by {
            let k = choose|k: int| 0 <= k < agenda.len() && #[trigger] agenda[k] == j;
            if k > 0 {
                assert(precedes(events, agenda[0] as int, agenda[k] as int));
            }
        }
        assert forall|j: int|
            0 <= j < first && #[trigger] is_upcoming(events, now, j) implies events[first].start.instant()
            < events[j].start.instant() by {
            let k = choose|k: int| 0 <= k < agenda.len() && #[trigger] agenda[k] == j;
            if k > 0 {
                assert(precedes(events, agenda[0] as int, agenda[k] as int));
            }
        }
        assert(is_soonest(events, now, first));
        lemma_soonest_is(events, now, first);
    } else {
        assert forall|j: int| !is_upcoming(events, now, j) by {
            if is_upcoming(events, now, j) {
                let k = choose|k: int| 0 <= k < agenda.len() && #[trigger] agenda[k] == j;
            }
        }
    }
}

/// Two agendas of one schedule at one moment agree on their first `n`
/// positions.
proof fn lemma_agendas_agree_upto(
    events: Seq<EventView>,
    now: Timestamp,
    a: Seq<usize>,
    b: Seq<usize>,
    n: int,
)
    requires
        is_agenda(events, now, a),
        is_agenda(events, now, b),
        0 <= n <= a.len(),
        n <= b.len(),
    ensures
        forall|j: int| 0 <= j < n ==> a[j] == b[j],
    decreases n,
{
    if n > 0 {
        lemma_agendas_agree_upto(events, now, a, b, n - 1);
        let k = n - 1;
        assert(is_upcoming(events, now, a[k] as int));
        assert(is_upcoming(events, now, b[k] as int));
        let m = choose|m: int| 0 <= m < b.len() && #[trigger] b[m] == a[k] as int;
        let w = choose|w: int| 0 <= w < a.len() && #[trigger] a[w] == b[k] as int;
        if m < k {
            assert(a[m] == b[m]);
            assert(precedes(events, a[m] as int, a[k] as int));
        }
        if w < k {
            assert(a[w] == b[w]);
            assert(precedes(events, b[w] as int, b[k] as int));
        }
        if m > k {
            assert(precedes(events, b[k] as int, b[m] as int));
            if w > k {
                assert(precedes(events, a[k] as int, a[w] as int));
            }
        }
    }
}

/// A schedule has one agenda at any one moment.
pub proof fn law_agenda_is_unique(events: Seq<EventView>, now: Timestamp, a: Seq<usize>, b: Seq<usize>)
    requires
        is_agenda(events, now, a),
        is_agenda(events, now, b),
    ensures
        a == b,
{
    if a.len() <= b.len() {
        lemma_agendas_agree_upto(events, now, a, b, a.len() as int);
        if a.len() < b.len() {
            let extra = b[a.len() as int];
            assert(is_upcoming(events, now, extra as int));
            let w = choose|w: int| 0 <= w < a.len() && #[trigger] a[w] == extra as int;
            assert(a[w] == b[w]);
            assert(precedes(events, b[w] as int, b[a.len() as int] as int));
        }
    } else {
        lemma_agendas_agree_upto(events, now, a, b, b.len() as int);
        let extra = a[b.len() as int];
        assert(is_upcoming(events, now, extra as int));
        let m = choose|m: int| 0 <= m < b.len() && #[trigger] b[m] == extra as int;
        assert(a[m] == b[m]);
        assert(precedes(events, a[m] as int, a[b.len() as int] as int));
    }
    assert(a =~= b);
}

} // verus!
