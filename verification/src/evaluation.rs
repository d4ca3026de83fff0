//! The decision of one tick: which event comes next, how far away it is, and
//! whether the configured commands are due.

use vstd::prelude::*;
use crate::area_information::{AreaInformation, Event, EventView};
use crate::config::{texts, Config};
use crate::timestamp::{lemma_later_is_nonnegative, Timestamp};

verus! {

/// Whether position `i` holds an event that starts strictly after `now`.
pub open spec fn is_upcoming(events: Seq<EventView>, now: Timestamp, i: int) -> bool {
    0 <= i < events.len() && events[i].start.instant() > now.instant()
}

/// Whether position `i` holds the upcoming event that starts first; among
/// upcoming events with the same start, the one received first.
pub open spec fn is_soonest(events: Seq<EventView>, now: Timestamp, i: int) -> bool {
    &&& is_upcoming(events, now, i)
    &&& forall|j: int| #[trigger]
        is_upcoming(events, now, j) ==> events[i].start.instant() <= events[j].start.instant()
    &&& forall|j: int|
        0 <= j < i && #[trigger] is_upcoming(events, now, j) ==> events[i].start.instant()
            < events[j].start.instant()
}

/// The position of the soonest upcoming event, where there is an upcoming
/// event at all.
pub open spec fn soonest(events: Seq<EventView>, now: Timestamp) -> Option<int> {
    if exists|i: int| is_upcoming(events, now, i) {
        Some(choose|i: int| is_soonest(events, now, i))
    } else {
        None
    }
}

/// The rule of the threshold: commands are due when the event is strictly
/// fewer minutes away than the threshold.
pub open spec fn is_due(minutes: int, threshold: int) -> bool {
    minutes < threshold
}

/// What is known of the next event.
#[derive(Clone, Debug)]
pub struct Upcoming {
    /// Position of the event in the schedule.
    pub index: usize,
    /// The event's note.
    pub note: String,
    /// Whole minutes until the event starts.
    pub minutes: i64,
    /// Whole hours until the event starts.
    pub hours: i64,
    /// The commands to run now; `None` while the event is not yet within the
    /// threshold.
    pub dispatch: Option<Vec<String>>,
}

/// The outcome of evaluating a schedule at one moment.
#[derive(Clone, Debug)]
pub enum Evaluation {
    /// No event starts after the moment of evaluation.
    NoUpcomingEvent,
    /// The soonest event after the moment of evaluation.
    Upcoming(Upcoming),
}

/// `Upcoming` as contracts speak of it.
pub struct UpcomingView {
    pub index: int,
    pub note: Seq<char>,
    pub minutes: int,
    pub hours: int,
    pub dispatch: Option<Seq<Seq<char>>>,
}

/// `Evaluation` as contracts speak of it.
pub enum EvaluationView {
    NoUpcomingEvent,
    Upcoming(UpcomingView),
}

impl View for Upcoming {
    type V = UpcomingView;

    open spec fn view(&self) -> UpcomingView {
        UpcomingView {
            index: self.index as int,
            note: self.note@,
            minutes: self.minutes as int,
            hours: self.hours as int,
            dispatch: match self.dispatch {
                Some(c) => Some(texts(c@)),
                None => None,
            },
        }
    }
}

impl View for Evaluation {
    type V = EvaluationView;

    open spec fn view(&self) -> EvaluationView {
        match self {
            Evaluation::NoUpcomingEvent => EvaluationView::NoUpcomingEvent,
            Evaluation::Upcoming(u) => EvaluationView::Upcoming(u@),
        }
    }
}

/// What is reported of an event found at position `index`, at the moment
/// `now`: its note, the whole minutes and hours until it starts, and the
/// commands where it is within the threshold.
pub open spec fn assess_spec(
    event: EventView,
    index: int,
    now: Timestamp,
    threshold: int,
    commands: Seq<Seq<char>>,
) -> UpcomingView {
    let minutes = event.start.minutes_since_spec(&now);
    UpcomingView {
        index,
        note: event.note,
        minutes,
        hours: event.start.hours_since_spec(&now),
        dispatch: if is_due(minutes, threshold) {
            Some(commands)
        } else {
            None
        },
    }
}

/// The evaluation of a schedule at the moment `now`.
pub open spec fn evaluate_spec(
    events: Seq<EventView>,
    now: Timestamp,
    threshold: int,
    commands: Seq<Seq<char>>,
) -> EvaluationView {
    match soonest(events, now) {
        None => EvaluationView::NoUpcomingEvent,
        Some(i) => EvaluationView::Upcoming(assess_spec(events[i], i, now, threshold, commands)),
    }
}

/// At most one position holds the soonest upcoming event.
pub proof fn lemma_soonest_unique(events: Seq<EventView>, now: Timestamp, i: int, j: int)
    requires
        is_soonest(events, now, i),
        is_soonest(events, now, j),
    ensures
        i == j,
{
    if i < j {
        assert(is_upcoming(events, now, i));
    } else if j < i {
        assert(is_upcoming(events, now, j));
    }
}

/// Whether `found` names the soonest upcoming event among the first `n`
/// events, or nothing where none of them is upcoming.
spec fn is_soonest_of_first(
    events: Seq<EventView>,
    now: Timestamp,
    n: int,
    found: Option<int>,
) -> bool {
    match found {
        Some(i) => is_soonest(events.take(n), now, i),
        None => forall|j: int| !is_upcoming(events.take(n), now, j),
    }
}

/// The soonest among the first `n` events, given the soonest among the first
/// `n - 1`: the last of the `n` where it is upcoming and starts strictly
/// before the one found so far, else the one found so far.
spec fn with_next(
    events: Seq<EventView>,
    now: Timestamp,
    n: int,
    before: Option<int>,
) -> Option<int> {
    let last = n - 1;
    let sooner = match before {
        Some(i) => events[last].start.instant() < events[i].start.instant(),
        None => true,
    };
    if events[last].start.instant() > now.instant() && sooner {
        Some(last)
    } else {
        before
    }
}

/// One event more: what holds of `before` among the first `n - 1` events
/// holds of `with_next` among the first `n`.
proof fn lemma_soonest_step(
    events: Seq<EventView>,
    now: Timestamp,
    n: int,
    before: Option<int>,
)
    requires
        0 < n <= events.len(),
        is_soonest_of_first(events, now, n - 1, before),
    ensures
        is_soonest_of_first(events, now, n, with_next(events, now, n, before)),
{
    let shorter = events.take(n - 1);
    let longer = events.take(n);
    let last = n - 1;
    assert(longer[last] == events[last]);
    assert forall|j: int| 0 <= j < last implies shorter[j] == longer[j] && is_upcoming(
        shorter,
        now,
        j,
    ) == is_upcoming(longer, now, j) by {}
    match with_next(events, now, n, before) {
        Some(chosen) => {
            if before is Some {
                assert(longer[before->Some_0] == events[before->Some_0]);
            }
            assert(is_upcoming(longer, now, chosen));
            assert forall|j: int| #[trigger]
                is_upcoming(longer, now, j) implies longer[chosen].start.instant()
                <= longer[j].start.instant() by {
                if j < last {
                    assert(is_upcoming(shorter, now, j));
                }
            }
            assert forall|j: int|
                0 <= j < chosen && #[trigger] is_upcoming(
                    longer,
                    now,
                    j,
                ) implies longer[chosen].start.instant() < longer[j].start.instant() by {
                assert(is_upcoming(shorter, now, j));
            }
        },
        None => {
            assert forall|j: int| !is_upcoming(longer, now, j) by {
                if 0 <= j < last {
                    assert(!is_upcoming(shorter, now, j));
                }
            }
        },
    }
}

/// Among the first `n` events, either none is upcoming or one is the soonest.
proof fn lemma_soonest_within(events: Seq<EventView>, now: Timestamp, n: int) -> (r: Option<int>)
    requires
        0 <= n <= events.len(),
    ensures
        is_soonest_of_first(events, now, n, r),
    decreases n,
{
    if n == 0 {
        None
    } else {
        let before = lemma_soonest_within(events, now, n - 1);
        lemma_soonest_step(events, now, n, before);
        with_next(events, now, n, before)
    }
}

/// `soonest` names the soonest upcoming event exactly where an event is
/// upcoming, and names nothing where none is.
pub proof fn lemma_soonest(events: Seq<EventView>, now: Timestamp)
    ensures
        match soonest(events, now) {
            Some(i) => is_soonest(events, now, i),
            None => forall|j: int| !is_upcoming(events, now, j),
        },
{
    let found = lemma_soonest_within(events, now, events.len() as int);
    assert(events.take(events.len() as int) =~= events);
    match found {
        Some(i) => {
            assert(is_soonest(events, now, i));
        },
        None => {},
    }
}

/// The position that holds the soonest upcoming event is the one that
/// `soonest` names.
pub proof fn lemma_soonest_is(events: Seq<EventView>, now: Timestamp, i: int)
    requires
        is_soonest(events, now, i),
    ensures
        soonest(events, now) == Some(i),
{
    lemma_soonest(events, now);
    assert(is_upcoming(events, now, i));
    lemma_soonest_unique(events, now, i, soonest(events, now)->Some_0);
}

/// Whether every one of these events has started by `now`.
pub open spec fn all_started(events: Seq<Event>, now: Timestamp) -> bool {
    forall|j: int| 0 <= j < events.len() ==> (#[trigger] events[j]).start.instant() <= now.instant()
}

/// Whether position `i` holds the event that starts first after `now`; among
/// events with that start, the one received first.
pub open spec fn starts_next(events: Seq<Event>, now: Timestamp, i: int) -> bool {
    &&& 0 <= i < events.len()
    &&& events[i].start.instant() > now.instant()
    &&& forall|j: int|
        0 <= j < events.len() && (#[trigger] events[j]).start.instant() > now.instant()
            ==> events[i].start.instant() <= events[j].start.instant()
    &&& forall|j: int|
        0 <= j < i && (#[trigger] events[j]).start.instant() > now.instant()
            ==> events[i].start.instant() < events[j].start.instant()
}

/// `starts_next` and `all_started` say of the events as they are held what
/// `is_soonest` and `is_upcoming` say of their views.
pub proof fn lemma_held_events(area: AreaInformation, now: Timestamp)
    ensures
        all_started(area.events@, now) <==> forall|j: int| !is_upcoming(area@, now, j),
        forall|i: int| starts_next(area.events@, now, i) <==> is_soonest(area@, now, i),
{
    let events = area.events@;
    let views = area@;
    assert forall|j: int| 0 <= j < events.len() implies (#[trigger] views[j]).start == events[j].start by {}
    if all_started(events, now) {
        assert forall|j: int| !is_upcoming(views, now, j) by {
            if 0 <= j < events.len() {
                assert(events[j].start.instant() <= now.instant());
            }
        }
    }
    if forall|j: int| !is_upcoming(views, now, j) {
        assert forall|j: int| 0 <= j < events.len() implies (#[trigger] events[j]).start.instant()
            <= now.instant() by {
            assert(!is_upcoming(views, now, j));
        }
    }
    assert forall|i: int| starts_next(events, now, i) <==> is_soonest(views, now, i) by {
        if starts_next(events, now, i) {
            assert forall|j: int| #[trigger]
                is_upcoming(views, now, j) implies views[i].start.instant()
                <= views[j].start.instant() by {
                assert(events[j].start.instant() > now.instant());
            }
            assert forall|j: int|
                0 <= j < i && #[trigger] is_upcoming(views, now, j) implies views[i].start.instant()
                < views[j].start.instant() by {
                assert(events[j].start.instant() > now.instant());
            }
        }
        if is_soonest(views, now, i) {
            assert forall|j: int|
                0 <= j < events.len() && (#[trigger] events[j]).start.instant()
                    > now.instant() implies events[i].start.instant() <= events[j].start.instant() by {
                assert(is_upcoming(views, now, j));
            }
            assert forall|j: int|
                0 <= j < i && (#[trigger] events[j]).start.instant()
                    > now.instant() implies events[i].start.instant() < events[j].start.instant() by {
                assert(is_upcoming(views, now, j));
            }
        }
    }
}

/// A position in a schedule as contracts speak of it.
spec fn position(found: Option<usize>) -> Option<int> {
    match found {
        Some(i) => Some(i as int),
        None => None,
    }
}

/// Whether commands are due for an event `minutes` away under `threshold`.
pub fn threshold_reached(minutes: i64, threshold: u32) -> (r: bool)
    ensures
        r == is_due(minutes as int, threshold as int),
{
    minutes < threshold as i64
}

impl AreaInformation {
    /// The position of the soonest event that starts strictly after `now`;
    /// `None` where every event has started.
    pub fn soonest_after(&self, now: &Timestamp) -> (r: Option<usize>)
        ensures
            match r {
                Some(i) => soonest(self@, *now) == Some(i as int) && starts_next(
                    self.events@,
                    *now,
                    i as int,
                ),
                None => soonest(self@, *now) is None && all_started(self.events@, *now),
            },
    {
        let mut best: Option<usize> = None;
        let mut i: usize = 0;
        while i < self.events.len()
            invariant
                0 <= i <= self.events.len(),
                best matches Some(b) ==> b < i,
                is_soonest_of_first(self@, *now, i as int, position(best)),
            decreases self.events.len() - i,
        {
            let candidate = &self.events[i];
            let replace = candidate.start.is_after(now) && match best {
                Some(b) => self.events[b].start.nanos_since(&candidate.start) > 0,
                None => true,
            };
            proof {
                lemma_soonest_step(self@, *now, i + 1, position(best));
            }
            if replace {
                best = Some(i);
            }
            i += 1;
        }
        proof {
            assert(self@.take(i as int) =~= self@);
            lemma_held_events(*self, *now);
            match best {
                Some(b) => {
                    lemma_soonest_is(self@, *now, b as int);
                },
                None => {},
            }
        }
        best
    }
}

/// Reports on one event, found at position `index` of its schedule, at the
/// moment `now`. The event may have started already: the minutes are then
/// zero or negative, and the commands are due under any positive threshold.
pub fn assess(event: &Event, index: usize, now: &Timestamp, config: &Config) -> (r: Upcoming)
    ensures
        r@ == assess_spec(
            event@,
            index as int,
            *now,
            config.threshold as int,
            config.command_texts(),
        ),
{
    let minutes = event.start.minutes_since(now);
    let hours = event.start.hours_since(now);
    let dispatch = if threshold_reached(minutes, config.threshold) {
        Some(config.command_list())
    } else {
        None
    };
    Upcoming { index, note: event.note.clone(), minutes, hours, dispatch }
}

/// Evaluates a schedule at the moment `now`: selects the soonest event that
/// starts strictly after `now`, reports how far away it is, and hands out the
/// configured commands where it is fewer than `threshold` minutes away.
pub fn evaluate(schedule: &AreaInformation, now: &Timestamp, config: &Config) -> (r: Evaluation)
    ensures
        r@ == evaluate_spec(schedule@, *now, config.threshold as int, config.command_texts()),
        r is NoUpcomingEvent <==> all_started(schedule.events@, *now),
        r matches Evaluation::Upcoming(u) ==> starts_next(schedule.events@, *now, u.index as int)
            && u@ == assess_spec(
            schedule.events@[u.index as int]@,
            u.index as int,
            *now,
            config.threshold as int,
            config.command_texts(),
        ),
{
    match schedule.soonest_after(now) {
        None => Evaluation::NoUpcomingEvent,
        Some(i) => Evaluation::Upcoming(assess(&schedule.events[i], i, now, config)),
    }
}

/// Where some event starts after `now`, the evaluation reports an event that
/// starts after `now`, and no event after `now` starts before it.
pub proof fn law_selects_soonest_upcoming(
    events: Seq<EventView>,
    now: Timestamp,
    threshold: int,
    commands: Seq<Seq<char>>,
)
    requires
        exists|i: int| is_upcoming(events, now, i),
    ensures
        evaluate_spec(events, now, threshold, commands) matches EvaluationView::Upcoming(u)
            && is_upcoming(events, now, u.index) && u.note == events[u.index].note
            && forall|j: int| #[trigger]
            is_upcoming(events, now, j) ==> events[u.index].start.instant()
                <= events[j].start.instant(),
{
    lemma_soonest(events, now);
}

/// Where every event starts at or before `now`, the evaluation reports no
/// upcoming event, and with it no commands.
pub proof fn law_started_events_are_ignored(
    events: Seq<EventView>,
    now: Timestamp,
    threshold: int,
    commands: Seq<Seq<char>>,
)
    requires
        forall|i: int| 0 <= i < events.len() ==> events[i].start.instant() <= now.instant(),
    ensures
        evaluate_spec(events, now, threshold, commands) is NoUpcomingEvent,
{
    assert forall|i: int| !is_upcoming(events, now, i) by {}
}

/// The threshold is strict: commands are handed out for an event fewer
/// minutes away than the threshold, and for no event exactly as many or more
/// minutes away; an event that is a negative number of minutes away is within
/// every threshold.
pub proof fn law_threshold_is_strict(
    event: EventView,
    index: int,
    now: Timestamp,
    threshold: int,
    commands: Seq<Seq<char>>,
)
    requires
        0 <= threshold,
    ensures
        ({
            let report = assess_spec(event, index, now, threshold, commands);
            &&& report.minutes < threshold ==> report.dispatch == Some(commands)
            &&& report.minutes == threshold ==> report.dispatch is None
            &&& report.minutes > threshold ==> report.dispatch is None
            &&& report.minutes < 0 ==> report.dispatch == Some(commands)
        }),
{
}

/// An evaluation never reports an event that is a negative number of minutes
/// or hours away.
pub proof fn law_evaluation_is_nonnegative(
    events: Seq<EventView>,
    now: Timestamp,
    threshold: int,
    commands: Seq<Seq<char>>,
)
    ensures
        evaluate_spec(events, now, threshold, commands) matches EvaluationView::Upcoming(u) ==> 0
            <= u.minutes && 0 <= u.hours,
{
    lemma_soonest(events, now);
    match soonest(events, now) {
        Some(i) => {
            lemma_later_is_nonnegative(events[i].start, now);
        },
        None => {},
    }
}

} // verus!
