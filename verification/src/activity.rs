//! The activity screen: runtime operations, newest first, and cancelling them.
use vstd::prelude::*;

use crate::app::{App, Command};
use crate::input::KeyCode;
use crate::records::ActivityEvent;
use crate::text::equals;

verus! {

/// `sorted` with `event` inserted after every event updated at the same time or later.
pub open spec fn insert_by_recency(sorted: Seq<ActivityEvent>, event: ActivityEvent) -> Seq<ActivityEvent>
    decreases sorted.len(),
{
    if sorted.len() == 0 {
        seq![event]
    } else if sorted.last().updated_at_unix_ms >= event.updated_at_unix_ms {
        sorted.push(event)
    } else {
        insert_by_recency(sorted.drop_last(), event).push(sorted.last())
    }
}

/// `events` ordered by last update, newest first; events updated at the same time keep their
/// order.
pub open spec fn by_recency(events: Seq<ActivityEvent>) -> Seq<ActivityEvent>
    decreases events.len(),
{
    if events.len() == 0 {
        events
    } else {
        insert_by_recency(by_recency(events.drop_last()), events.last())
    }
}

/// Whether `events` are ordered newest first.
pub open spec fn newest_first(events: Seq<ActivityEvent>) -> bool {
    forall|i: int, j: int|
        0 <= i < j < events.len() ==> events[i].updated_at_unix_ms >= events[j].updated_at_unix_ms
}

/// Position of the first event of operation `id`.
pub open spec fn first_with_operation(events: Seq<ActivityEvent>, id: Seq<char>) -> Option<int> {
    if exists|i: int|
        0 <= i < events.len() && (#[trigger] events[i]).operation_id@ == id && forall|j: int|
            0 <= j < i ==> events[j].operation_id@ != id {
        Some(
            choose|i: int|
                0 <= i < events.len() && (#[trigger] events[i]).operation_id@ == id && forall|j: int|
                    0 <= j < i ==> events[j].operation_id@ != id,
        )
    } else {
        None
    }
}

/// `events` with the first event of `event`'s operation replaced by it, or with it appended.
pub open spec fn merged(events: Seq<ActivityEvent>, event: ActivityEvent) -> Seq<ActivityEvent> {
    match first_with_operation(events, event.operation_id@) {
        Some(i) => events.update(i, event),
        None => events.push(event),
    }
}

/// The position that the selection takes in `events` when it followed the operation at
/// `selected` of `before`.
pub open spec fn followed_selection(before: Seq<ActivityEvent>, selected: int, events: Seq<ActivityEvent>) -> int {
    let kept = if 0 <= selected < before.len() {
        first_with_operation(events, before[selected].operation_id@)
    } else {
        None
    };
    let position = match kept {
        Some(i) => i,
        None => 0,
    };
    if position <= events.len() - 1 {
        position
    } else if events.len() > 0 {
        events.len() - 1
    } else {
        0
    }
}

/// The activity list after `event`, and the selection that follows the selected operation.
pub open spec fn activity_applied(pre: App, event: ActivityEvent, post: App) -> bool {
    let events = by_recency(merged(pre.activities@, event));
    &&& post.activities@ == events
    &&& post.activity_selected == followed_selection(pre.activities@, pre.activity_selected as int, events)
    &&& post == App { activities: post.activities, activity_selected: post.activity_selected, ..pre }
}

/// Whether an operation in `state` may still be cancelled.
pub open spec fn cancellable_state(state: Seq<char>) -> bool {
    state == "queued"@ || state == "running"@ || state == "cancelling"@
}

proof fn lemma_insert_suffix(s: Seq<ActivityEvent>, event: ActivityEvent, j: int)
    requires
        0 <= j <= s.len(),
        forall|k: int| j <= k < s.len() ==> s[k].updated_at_unix_ms < event.updated_at_unix_ms,
    ensures
        insert_by_recency(s, event) == insert_by_recency(s.take(j), event) + s.skip(j),
    decreases s.len() - j,
{
    if j == s.len() {
        assert(s.take(j) =~= s);
        assert(s.skip(j) =~= Seq::<ActivityEvent>::empty());
        assert(insert_by_recency(s.take(j), event) + s.skip(j) =~= insert_by_recency(s.take(j), event));
    } else {
        lemma_insert_suffix(s, event, j + 1);
        let t = s.take(j + 1);
        assert(t.drop_last() =~= s.take(j));
        assert(t.last() == s[j]);
        assert(insert_by_recency(t, event) == insert_by_recency(s.take(j), event).push(s[j]));
        assert(insert_by_recency(s.take(j), event).push(s[j]) + s.skip(j + 1) =~= insert_by_recency(
            s.take(j),
            event,
        ) + s.skip(j));
    }
}

/// Inserts `event` into `sorted` after every event updated at the same time or later.
pub fn insert_event(sorted: &mut Vec<ActivityEvent>, event: ActivityEvent)
    ensures
        final(sorted)@ == insert_by_recency(old(sorted)@, event),
{
    let ghost pre = sorted@;
    let mut j = sorted.len();
    while j > 0 && sorted[j - 1].updated_at_unix_ms < event.updated_at_unix_ms
        invariant
            j <= pre.len(),
            sorted@ == pre,
            forall|k: int| j <= k < pre.len() ==> pre[k].updated_at_unix_ms < event.updated_at_unix_ms,
        decreases j,
    {
        j -= 1;
    }
    proof {
        lemma_insert_suffix(pre, event, j as int);
        let t = pre.take(j as int);
        if j > 0 {
            assert(t.last() == pre[j - 1]);
            assert(t.last().updated_at_unix_ms >= event.updated_at_unix_ms);
            assert(insert_by_recency(t, event) == t.push(event));
        } else {
            assert(insert_by_recency(t, event) == seq![event]);
        }
    }
    sorted.insert(j, event);
    proof {
        assert(sorted@ =~= pre.take(j as int).push(event) + pre.skip(j as int));
    }
}

/// `events` ordered newest first, keeping the order of events updated at the same time.
pub fn sort_by_recency(events: Vec<ActivityEvent>) -> (sorted: Vec<ActivityEvent>)
    ensures
        sorted@ == by_recency(events@),
{
    let ghost all = events@;
    let mut sorted: Vec<ActivityEvent> = Vec::new();
    let mut rest = events;
    let ghost mut consumed: Seq<ActivityEvent> = Seq::empty();
    proof {
        assert(all =~= consumed + rest@);
    }
    while rest.len() > 0
        invariant
            all == consumed + rest@,
            sorted@ == by_recency(consumed),
        decreases rest@.len(),
    {
        let event = rest.remove(0);
        proof {
            assert(consumed.push(event).drop_last() =~= consumed);
            assert(consumed.push(event).last() == event);
        }
        insert_event(&mut sorted, event);
        proof {
            consumed = consumed.push(event);
            assert(all =~= consumed + rest@);
        }
    }
    proof {
        assert(consumed =~= all);
    }
    sorted
}

/// Position of the first event of operation `id`.
pub fn operation_position(events: &Vec<ActivityEvent>, id: &str) -> (found: Option<usize>)
    ensures
        found == (match first_with_operation(events@, id@) {
            Some(i) => Some(i as usize),
            None => None,
        }),
{
    let mut i: usize = 0;
    while i < events.len()
        invariant
            i <= events@.len(),
            forall|j: int| 0 <= j < i ==> events@[j].operation_id@ != id@,
        decreases events@.len() - i,
    {
        if equals(events[i].operation_id.as_str(), id) {
            proof {
                let c = choose|c: int|
                    0 <= c < events@.len() && (#[trigger] events@[c]).operation_id@ == id@ && forall|j: int|
                        0 <= j < c ==> events@[j].operation_id@ != id@;
                assert(c == i);
            }
            return Some(i);
        }
        i += 1;
    }
    None
}

/// `events` with the first event of `event`'s operation replaced by it, or with it appended.
pub fn merge_event(events: &mut Vec<ActivityEvent>, event: ActivityEvent)
    ensures
        final(events)@ == merged(old(events)@, event),
{
    match operation_position(events, event.operation_id.as_str()) {
        Some(i) => {
            let ghost pre = events@;
            events.remove(i);
            events.insert(i, event);
            proof {
                assert(events@ =~= pre.update(i as int, event));
            }
        },
        None => events.push(event),
    }
}

/// The activity list after `event` and the selection that follows the operation at
/// `selected`.
pub fn activity_outcome(before: Vec<ActivityEvent>, selected: usize, event: ActivityEvent) -> (out: (
    Vec<ActivityEvent>,
    usize,
))
    ensures
        out.0@ == by_recency(merged(before@, event)),
        out.1 == followed_selection(before@, selected as int, out.0@),
{
    let id = if selected < before.len() {
        Some(before[selected].operation_id.clone())
    } else {
        None
    };
    let mut events = before;
    merge_event(&mut events, event);
    let events = sort_by_recency(events);
    let position = match id {
        Some(id) => match operation_position(&events, id.as_str()) {
            Some(i) => i,
            None => 0,
        },
        None => 0,
    };
    let count = events.len();
    let chosen = if count == 0 {
        0
    } else if position <= count - 1 {
        position
    } else {
        count - 1
    };
    (events, chosen)
}

/// `app` after a key on the activity screen: the arrows move the selection, `x` asks to
/// cancel the selected operation.
pub open spec fn activity_key_handled(pre: App, code: KeyCode, post: App, command: Option<Command>) -> bool {
    &&& (code == KeyCode::Up ==> command is None && post == (App {
        activity_selected: if pre.activity_selected > 0 {
            (pre.activity_selected - 1) as usize
        } else {
            0
        },
        ..pre
    }))
    &&& (code == KeyCode::Down ==> command is None && post == (App {
        activity_selected: (if pre.activity_selected + 1 <= pre.activities@.len() - 1 {
            pre.activity_selected + 1
        } else if pre.activities@.len() > 0 {
            pre.activities@.len() - 1
        } else {
            0
        }) as usize,
        ..pre
    }))
    &&& (!(code == KeyCode::Up || code == KeyCode::Down || code == KeyCode::Char('x') || code
        == KeyCode::Char('X')) ==> command is None && post == pre)
    &&& ((code == KeyCode::Char('x') || code == KeyCode::Char('X')) ==> activity_cancel_asked(
        pre,
        post,
        command,
    ))
}

/// `app` after `x` on the activity screen: the selected operation is asked to cancel when it
/// can still be cancelled; otherwise the activity error says it cannot.
pub open spec fn activity_cancel_asked(pre: App, post: App, command: Option<Command>) -> bool {
    &&& ((pre.activity_selected as int) >= pre.activities@.len() ==> command is None
        && post == pre)
    &&& ((pre.activity_selected as int) < pre.activities@.len() ==> {
        let event = pre.activities@[pre.activity_selected as int];
        if event.cancellable && cancellable_state(event.state@) {
            command == Some(Command::CancelOperation { operation_id: event.operation_id })
                && post == pre
        } else {
            command is None && post == (App {
                activity_error: post.activity_error,
                ..pre
            }) && (post.activity_error matches Some(m) && m@
                == "selected operation cannot be cancelled"@)
        }
    })
}

impl App {
    /// Takes an activity event: it replaces the earlier event of its operation or joins the
    /// list, the list is ordered newest first, and the selection follows the operation that
    /// was selected.
    pub fn apply_activity(&mut self, event: ActivityEvent)
        ensures
            activity_applied(*old(self), event, *final(self)),
    {
        let mut before: Vec<ActivityEvent> = Vec::new();
        std::mem::swap(&mut before, &mut self.activities);
        let (events, selected) = activity_outcome(before, self.activity_selected, event);
        self.activities = events;
        self.activity_selected = selected;
    }

    /// `x` asks to cancel the selected operation, when it can still be cancelled; otherwise
    /// the activity error says it cannot.
    pub fn cancel_selected_activity(&mut self) -> (command: Option<Command>)
        ensures
            activity_cancel_asked(*old(self), *final(self), command),
    {
        if self.activity_selected >= self.activities.len() {
            return None;
        }
        match self.selected_cancellable() {
            Some(operation_id) => Some(Command::CancelOperation { operation_id }),
            None => {
                self.activity_error = Some("selected operation cannot be cancelled".to_owned());
                None
            },
        }
    }

    /// The operation of the selected activity, when it can still be cancelled.
    fn selected_cancellable(&self) -> (id: Option<String>)
        requires
            (self.activity_selected as int) < self.activities@.len(),
        ensures
            ({
                let event = self.activities@[self.activity_selected as int];
                if event.cancellable && cancellable_state(event.state@) {
                    id == Some(event.operation_id)
                } else {
                    id is None
                }
            }),
    {
        let event = &self.activities[self.activity_selected];
        let state = event.state.as_str();
        let active = equals(state, "queued") || equals(state, "running") || equals(state, "cancelling");
        if event.cancellable && active {
            Some(event.operation_id.clone())
        } else {
            None
        }
    }

    /// Keys of the activity screen: arrows move the selection, `x` cancels the selected
    /// operation.
    pub fn handle_activity_key(&mut self, code: KeyCode) -> (command: Option<Command>)
        ensures
            activity_key_handled(*old(self), code, *final(self), command),
    {
        match code {
            KeyCode::Up => {
                self.activity_selected = if self.activity_selected > 0 {
                    self.activity_selected - 1
                } else {
                    0
                };
                None
            },
            KeyCode::Down => {
                let count = self.activities.len();
                let next = if self.activity_selected < usize::MAX {
                    self.activity_selected + 1
                } else {
                    usize::MAX
                };
                self.activity_selected = if count == 0 {
                    0
                } else if next <= count - 1 {
                    next
                } else {
                    count - 1
                };
                None
            },
            KeyCode::Char(c) => {
                if c == 'x' || c == 'X' {
                    self.cancel_selected_activity()
                } else {
                    None
                }
            },
            _ => None,
        }
    }

    /// Takes the answer to a cancellation of the selected operation.
    pub fn apply_activity_cancel(&mut self, result: Result<(bool, String), String>)
        ensures
            match result {
                Ok((accepted, state)) => if accepted {
                    *final(self) == (App { activity_error: None, ..*old(self) })
                } else {
                    *final(self) == (App { activity_error: final(self).activity_error, ..*old(self) })
                        && (final(self).activity_error matches Some(m) && m@
                        == "cancellation was not accepted ("@ + state@ + ")"@)
                },
                Err(e) => *final(self) == (App { activity_error: Some(e), ..*old(self) }),
            },
    {
        match result {
            Ok((accepted, state)) => {
                if accepted {
                    self.activity_error = None;
                } else {
                    self.activity_error = Some(
                        crate::text::join(
                            crate::text::join("cancellation was not accepted (", state.as_str()).as_str(),
                            ")",
                        ),
                    );
                }
            },
            Err(error) => self.activity_error = Some(error),
        }
    }
}

/// Inserting into a list that is newest first keeps it newest first, with the same events.
pub proof fn lemma_insert_sorted(s: Seq<ActivityEvent>, event: ActivityEvent)
    requires
        newest_first(s),
    ensures
        newest_first(insert_by_recency(s, event)),
        insert_by_recency(s, event).to_multiset() == s.to_multiset().insert(event),
    decreases s.len(),
{
    broadcast use vstd::seq_lib::group_to_multiset_ensures;
    if s.len() == 0 {
        assert(seq![event] =~= Seq::<ActivityEvent>::empty().push(event));
    } else if s.last().updated_at_unix_ms >= event.updated_at_unix_ms {
    } else {
        let init = s.drop_last();
        assert(newest_first(init));
        lemma_insert_sorted(init, event);
        let r = insert_by_recency(init, event);
        assert(forall|k: int| 0 <= k < r.len() ==> r[k].updated_at_unix_ms >= s.last().updated_at_unix_ms) by {
            assert forall|k: int| 0 <= k < r.len() implies r[k].updated_at_unix_ms >= s.last().updated_at_unix_ms by {
                assert(r.to_multiset().count(r[k]) > 0);
                assert(init.to_multiset().insert(event).count(r[k]) > 0);
                if r[k] != event {
                    assert(init.to_multiset().count(r[k]) > 0);
                    assert(init.contains(r[k]));
                    let m = choose|m: int| 0 <= m < init.len() && init[m] == r[k];
                    assert(s[m] == init[m]);
                }
            }
        }
        assert(s =~= init.push(s.last()));
    }
}

/// The activity list is always newest first and holds exactly the events it was given.
pub proof fn lemma_by_recency_sorted(events: Seq<ActivityEvent>)
    ensures
        newest_first(by_recency(events)),
        by_recency(events).to_multiset() == events.to_multiset(),
    decreases events.len(),
{
    broadcast use vstd::seq_lib::group_to_multiset_ensures;
    if events.len() > 0 {
        lemma_by_recency_sorted(events.drop_last());
        lemma_insert_sorted(by_recency(events.drop_last()), events.last());
        assert(events =~= events.drop_last().push(events.last()));
    }
}


/// Whether no two events of `events` belong to the same operation.
pub open spec fn distinct_operations(events: Seq<ActivityEvent>) -> bool {
    forall|i: int, j: int|
        0 <= i < events.len() && 0 <= j < events.len() && i != j ==> (#[trigger] events[i]).operation_id@
            != (#[trigger] events[j]).operation_id@
}

proof fn lemma_insert_distinct(s: Seq<ActivityEvent>, event: ActivityEvent)
    requires
        distinct_operations(s),
        forall|i: int| 0 <= i < s.len() ==> (#[trigger] s[i]).operation_id@ != event.operation_id@,
    ensures
        distinct_operations(insert_by_recency(s, event)),
        forall|k: int|
            0 <= k < insert_by_recency(s, event).len() ==> #[trigger] insert_by_recency(s, event)[k]
                == event || s.contains(insert_by_recency(s, event)[k]),
    decreases s.len(),
{
    let r = insert_by_recency(s, event);
    if s.len() == 0 {
    } else if s.last().updated_at_unix_ms >= event.updated_at_unix_ms {
        assert forall|k: int| 0 <= k < r.len() implies #[trigger] r[k] == event || s.contains(r[k]) by {
            if k < s.len() {
                assert(r[k] == s[k]);
            }
        }
    } else {
        let init = s.drop_last();
        assert forall|i: int| 0 <= i < init.len() implies (#[trigger] init[i]).operation_id@
            != event.operation_id@ by {
            assert(init[i] == s[i]);
        }
        lemma_insert_distinct(init, event);
        let inner = insert_by_recency(init, event);
        assert(r == inner.push(s.last()));
        assert forall|k: int| 0 <= k < inner.len() implies (#[trigger] inner[k]).operation_id@
            != s.last().operation_id@ by {
            if inner[k] == event {
                assert(s[s.len() - 1] == s.last());
            } else {
                assert(init.contains(inner[k]));
                let m = choose|m: int| 0 <= m < init.len() && init[m] == inner[k];
                assert(s[m] == init[m]);
                assert(s[s.len() - 1] == s.last());
            }
        }
        assert forall|i: int, j: int|
            0 <= i < r.len() && 0 <= j < r.len() && i != j implies (#[trigger] r[i]).operation_id@
                != (#[trigger] r[j]).operation_id@ by {
            if i == r.len() - 1 {
                assert(r[j] == inner[j]);
            } else if j == r.len() - 1 {
                assert(r[i] == inner[i]);
            } else {
                assert(r[i] == inner[i] && r[j] == inner[j]);
            }
        }
        assert forall|k: int| 0 <= k < r.len() implies #[trigger] r[k] == event || s.contains(r[k]) by {
            if k == r.len() - 1 {
                assert(s[s.len() - 1] == r[k]);
            } else {
                assert(r[k] == inner[k]);
                if inner[k] != event {
                    assert(init.contains(inner[k]));
                    let m = choose|m: int| 0 <= m < init.len() && init[m] == inner[k];
                    assert(s[m] == init[m]);
                }
            }
        }
    }
}

proof fn lemma_by_recency_distinct(events: Seq<ActivityEvent>)
    requires
        distinct_operations(events),
    ensures
        distinct_operations(by_recency(events)),
        forall|k: int| 0 <= k < by_recency(events).len() ==> events.contains(#[trigger] by_recency(events)[k]),
    decreases events.len(),
{
    if events.len() > 0 {
        let init = events.drop_last();
        let last = events.last();
        assert forall|i: int, j: int|
            0 <= i < init.len() && 0 <= j < init.len() && i != j implies (#[trigger] init[i]).operation_id@
                != (#[trigger] init[j]).operation_id@ by {
            assert(init[i] == events[i] && init[j] == events[j]);
        }
        lemma_by_recency_distinct(init);
        let sorted = by_recency(init);
        assert forall|i: int| 0 <= i < sorted.len() implies (#[trigger] sorted[i]).operation_id@
            != last.operation_id@ by {
            assert(init.contains(sorted[i]));
            let m = choose|m: int| 0 <= m < init.len() && init[m] == sorted[i];
            assert(events[m] == init[m]);
            assert(events[events.len() - 1] == last);
        }
        lemma_insert_distinct(sorted, last);
        let r = by_recency(events);
        assert(r == insert_by_recency(sorted, last));
        assert forall|k: int| 0 <= k < r.len() implies events.contains(#[trigger] r[k]) by {
            if r[k] == last {
                assert(events[events.len() - 1] == last);
            } else {
                assert(sorted.contains(r[k]));
                let q = choose|q: int| 0 <= q < sorted.len() && sorted[q] == r[k];
                assert(init.contains(sorted[q]));
                let m = choose|m: int| 0 <= m < init.len() && init[m] == sorted[q];
                assert(events[m] == init[m]);
            }
        }
    }
}

/// Merging an event into a list with one event per operation keeps one event per operation:
/// the event is the only one of its operation, every other event stays, and nothing else joins.
proof fn lemma_merged_operations(events: Seq<ActivityEvent>, event: ActivityEvent)
    requires
        distinct_operations(events),
    ensures
        distinct_operations(merged(events, event)),
        merged(events, event).contains(event),
        forall|k: int|
            0 <= k < merged(events, event).len() && (#[trigger] merged(events, event)[k]).operation_id@
                == event.operation_id@ ==> merged(events, event)[k] == event,
        forall|e: ActivityEvent|
            #[trigger] events.contains(e) && e.operation_id@ != event.operation_id@ ==> merged(
                events,
                event,
            ).contains(e),
        forall|e: ActivityEvent| #[trigger] merged(events, event).contains(e) ==> e == event || events.contains(e),
{
    let id = event.operation_id@;
    let m = merged(events, event);
    match first_with_operation(events, id) {
        Some(i) => {
            assert(0 <= i < events.len() && events[i].operation_id@ == id);
            assert(m == events.update(i, event));
            assert(m[i] == event);
            assert forall|a: int, b: int|
                0 <= a < m.len() && 0 <= b < m.len() && a != b implies (#[trigger] m[a]).operation_id@
                    != (#[trigger] m[b]).operation_id@ by {
                assert(m[a].operation_id@ == events[a].operation_id@);
                assert(m[b].operation_id@ == events[b].operation_id@);
            }
            assert forall|k: int|
                0 <= k < m.len() && (#[trigger] m[k]).operation_id@ == id implies m[k] == event by {
                if k != i {
                    assert(m[k] == events[k]);
                }
            }
            assert forall|e: ActivityEvent| #[trigger]
                events.contains(e) && e.operation_id@ != id implies m.contains(e) by {
                let q = choose|q: int| 0 <= q < events.len() && events[q] == e;
                assert(q != i);
                assert(m[q] == e);
            }
            assert forall|e: ActivityEvent| #[trigger] m.contains(e) implies e == event || events.contains(e) by {
                let q = choose|q: int| 0 <= q < m.len() && m[q] == e;
                if q != i {
                    assert(events[q] == e);
                }
            }
        },
        None => {
            assert forall|q: int| 0 <= q < events.len() implies (#[trigger] events[q]).operation_id@ != id by {
                if events[q].operation_id@ == id {
                    assert(forall|j: int| 0 <= j < q ==> events[j].operation_id@ != id);
                    assert(false);
                }
            }
            assert(m == events.push(event));
            assert(m[events.len() as int] == event);
            assert forall|a: int, b: int|
                0 <= a < m.len() && 0 <= b < m.len() && a != b implies (#[trigger] m[a]).operation_id@
                    != (#[trigger] m[b]).operation_id@ by {
                if a < events.len() {
                    assert(m[a] == events[a]);
                }
                if b < events.len() {
                    assert(m[b] == events[b]);
                }
            }
            assert forall|e: ActivityEvent| #[trigger]
                events.contains(e) && e.operation_id@ != id implies m.contains(e) by {
                let q = choose|q: int| 0 <= q < events.len() && events[q] == e;
                assert(m[q] == e);
            }
            assert forall|e: ActivityEvent| #[trigger] m.contains(e) implies e == event || events.contains(e) by {
                let q = choose|q: int| 0 <= q < m.len() && m[q] == e;
                if q < events.len() {
                    assert(events[q] == e);
                }
            }
        },
    }
}

/// Taking an activity event keeps one event per operation: the list is newest first, the
/// event is the only one of its operation, every other event stays and nothing else joins,
/// and the selection stays on the operation that was selected, or on the first row when none
/// was.
pub proof fn lemma_activity_keeps_operations(pre: App, event: ActivityEvent, post: App)
    requires
        activity_applied(pre, event, post),
        distinct_operations(pre.activities@),
    ensures
        distinct_operations(post.activities@),
        newest_first(post.activities@),
        post.activities@.contains(event),
        forall|k: int|
            0 <= k < post.activities@.len() && (#[trigger] post.activities@[k]).operation_id@
                == event.operation_id@ ==> post.activities@[k] == event,
        forall|e: ActivityEvent|
            #[trigger] pre.activities@.contains(e) && e.operation_id@ != event.operation_id@
                ==> post.activities@.contains(e),
        forall|e: ActivityEvent|
            #[trigger] post.activities@.contains(e) ==> e == event || pre.activities@.contains(e),
        (post.activity_selected as int) < post.activities@.len(),
        (pre.activity_selected as int) < pre.activities@.len() ==> post.activities@[post.activity_selected as int].operation_id@
            == pre.activities@[pre.activity_selected as int].operation_id@,
        (pre.activity_selected as int) >= pre.activities@.len() ==> post.activity_selected == 0,
{
    broadcast use vstd::seq_lib::group_to_multiset_ensures;

    let before = pre.activities@;
    let m = merged(before, event);
    let events = post.activities@;
    lemma_merged_operations(before, event);
    lemma_by_recency_distinct(m);
    lemma_by_recency_sorted(m);
    assert(events == by_recency(m));
    assert forall|e: ActivityEvent| m.contains(e) implies #[trigger] events.contains(e) by {
        assert(m.to_multiset().count(e) > 0);
        assert(events.to_multiset().count(e) > 0);
    }
    assert forall|e: ActivityEvent| #[trigger] events.contains(e) implies m.contains(e) by {
        assert(events.to_multiset().count(e) > 0);
        assert(m.to_multiset().count(e) > 0);
    }
    assert(events.contains(event));
    assert forall|k: int|
        0 <= k < events.len() && (#[trigger] events[k]).operation_id@ == event.operation_id@ implies events[k]
            == event by {
        assert(events.contains(events[k]));
        assert(m.contains(events[k]));
        let q = choose|q: int| 0 <= q < m.len() && m[q] == events[k];
        assert(m[q].operation_id@ == event.operation_id@);
    }
    assert forall|e: ActivityEvent|
        #[trigger] before.contains(e) && e.operation_id@ != event.operation_id@ implies events.contains(e) by {
        assert(m.contains(e));
    }
    assert(events.len() > 0) by {
        let q = choose|q: int| 0 <= q < events.len() && events[q] == event;
    }
    let selected = pre.activity_selected as int;
    if 0 <= selected < before.len() {
        let id = before[selected].operation_id@;
        let target = if id == event.operation_id@ {
            event
        } else {
            assert(before.contains(before[selected]));
            before[selected]
        };
        assert(events.contains(target));
        let q = choose|q: int| 0 <= q < events.len() && events[q] == target;
        assert(forall|j: int| 0 <= j < q ==> events[j].operation_id@ != id);
        assert(0 <= q < events.len() && (#[trigger] events[q]).operation_id@ == id && forall|j: int|
            0 <= j < q ==> events[j].operation_id@ != id);
        let c = first_with_operation(events, id)->Some_0;
        assert(first_with_operation(events, id) is Some);
        assert(0 <= c < events.len() && events[c].operation_id@ == id);
        assert(c == q);
    }
}


/// `x` on the activity screen asks to cancel the selected operation exactly when it is
/// cancellable and queued, running or cancelling, naming that operation and leaving the state
/// as it was; otherwise it asks nothing and says that the operation cannot be cancelled.
pub proof fn lemma_cancel_live_operations(pre: App, post: App, command: Option<Command>)
    requires
        activity_cancel_asked(pre, post, command),
        (pre.activity_selected as int) < pre.activities@.len(),
    ensures
        ({
            let event = pre.activities@[pre.activity_selected as int];
            if event.cancellable && (event.state@ == "queued"@ || event.state@ == "running"@
                || event.state@ == "cancelling"@) {
                command == Some(Command::CancelOperation { operation_id: event.operation_id })
                    && post == pre
            } else {
                command is None && (post.activity_error matches Some(m) && m@
                    == "selected operation cannot be cancelled"@)
            }
        }),
{
}

} // verus!
