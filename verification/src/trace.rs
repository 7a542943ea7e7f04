//! Runs of a sink: what a sequence of events leaves behind and asks for, and
//! what holds of every run.

use vstd::prelude::*;
use vstd::seq_lib::{lemma_multiset_commutative, to_multiset_contains, to_multiset_len, to_multiset_remove};
use crate::logger::{
    completion_outcome, emit_outcome, flush_outcome, Delivery, EmissionView, LoggerView,
};
use crate::record::{built_record, console_line_of, RecordView};
use crate::severity::Severity;

verus! {

/// What happens to a sink.
pub enum Event {
    /// A log statement reaches the sink.
    Emit { severity: Severity, source: Seq<char>, message: Seq<char>, now: i64 },
    /// The sink is flushed.
    Flush,
    /// The bulk write of the last batch has completed.
    FlushCompleted { succeeded: bool },
}

/// What a sink asks its caller to do.
pub enum Effect {
    /// Print a line on the console.
    Line(Seq<char>),
    /// Write one record to the store.
    InsertOne(RecordView),
    /// Write a batch of records to the store in one bulk write.
    InsertMany(Seq<RecordView>),
}

/// The effects of an emit, in the order in which they are due: the line first.
pub open spec fn emission_effects(emission: Option<EmissionView>) -> Seq<Effect> {
    match emission {
        None => seq![],
        Some(emission) => match emission.write {
            Some(record) => seq![Effect::Line(emission.line), Effect::InsertOne(record)],
            None => seq![Effect::Line(emission.line)],
        },
    }
}

/// The effect of a flush: one bulk write where a batch is handed out.
pub open spec fn batch_effects(batch: Option<Seq<RecordView>>) -> Seq<Effect> {
    match batch {
        None => seq![],
        Some(records) => seq![Effect::InsertMany(records)],
    }
}

/// The sink after one event, and the effects of the event.
pub open spec fn step(state: LoggerView, event: Event) -> (LoggerView, Seq<Effect>) {
    match event {
        Event::Emit { severity, source, message, now } => {
            let (next, emission) = emit_outcome(state, severity, source, message, now);
            (next, emission_effects(emission))
        },
        Event::Flush => {
            let (next, batch) = flush_outcome(state);
            (next, batch_effects(batch))
        },
        Event::FlushCompleted { succeeded } => (completion_outcome(state), seq![]),
    }
}

/// The sink after a sequence of events, and their effects in order.
pub open spec fn run(state: LoggerView, events: Seq<Event>) -> (LoggerView, Seq<Effect>)
    decreases events.len(),
{
    if events.len() == 0 {
        (state, seq![])
    } else {
        let (middle, earlier) = run(state, events.drop_last());
        let (end, latest) = step(middle, events.last());
        (end, earlier + latest)
    }
}

/// The records that an effect hands to the store.
pub open spec fn effect_records(effect: Effect) -> Seq<RecordView> {
    match effect {
        Effect::Line(_) => seq![],
        Effect::InsertOne(record) => seq![record],
        Effect::InsertMany(records) => records,
    }
}

/// The records that effects hand to the store, in order.
pub open spec fn written(effects: Seq<Effect>) -> Seq<RecordView>
    decreases effects.len(),
{
    if effects.len() == 0 {
        seq![]
    } else {
        written(effects.drop_last()) + effect_records(effects.last())
    }
}

/// The number of writes that effects ask for.
pub open spec fn write_count(effects: Seq<Effect>) -> nat
    decreases effects.len(),
{
    if effects.len() == 0 {
        0
    } else {
        write_count(effects.drop_last()) + if effects.last() is Line {
            0nat
        } else {
            1nat
        }
    }
}

/// The console lines among effects, in order.
pub open spec fn lines(effects: Seq<Effect>) -> Seq<Seq<char>>
    decreases effects.len(),
{
    if effects.len() == 0 {
        seq![]
    } else {
        lines(effects.drop_last()) + match effects.last() {
            Effect::Line(line) => seq![line],
            _ => seq![],
        }
    }
}

/// The record of an event, where it is an emit that a sink with the least
/// severity `minimum` accepts.
pub open spec fn accepted_record(minimum: Severity, event: Event) -> Seq<RecordView> {
    match event {
        Event::Emit { severity, source, message, now } => if severity.spec_at_least(minimum) {
            seq![built_record(severity, source, message, now)]
        } else {
            seq![]
        },
        _ => seq![],
    }
}

/// The records of the accepted emits among events, in order.
pub open spec fn accepted_records(minimum: Severity, events: Seq<Event>) -> Seq<RecordView>
    decreases events.len(),
{
    if events.len() == 0 {
        seq![]
    } else {
        accepted_records(minimum, events.drop_last()) + accepted_record(minimum, events.last())
    }
}

/// Whether two events differ at most in the outcome of a write.
pub open spec fn same_but_outcome(first: Event, second: Event) -> bool {
    first == second || (first is FlushCompleted && second is FlushCompleted)
}

proof fn lemma_written_concat(first: Seq<Effect>, second: Seq<Effect>)
    ensures
        written(first + second) == written(first) + written(second),
    decreases second.len(),
{
    if second.len() == 0 {
        assert(first + second =~= first);
    } else {
        assert((first + second).drop_last() =~= first + second.drop_last());
        lemma_written_concat(first, second.drop_last());
    }
}

proof fn lemma_write_count_concat(first: Seq<Effect>, second: Seq<Effect>)
    ensures
        write_count(first + second) == write_count(first) + write_count(second),
    decreases second.len(),
{
    if second.len() == 0 {
        assert(first + second =~= first);
    } else {
        assert((first + second).drop_last() =~= first + second.drop_last());
        lemma_write_count_concat(first, second.drop_last());
    }
}

proof fn lemma_lines_concat(first: Seq<Effect>, second: Seq<Effect>)
    ensures
        lines(first + second) == lines(first) + lines(second),
    decreases second.len(),
{
    if second.len() == 0 {
        assert(first + second =~= first);
    } else {
        assert((first + second).drop_last() =~= first + second.drop_last());
        lemma_lines_concat(first, second.drop_last());
    }
}

/// What the effects of one event amount to: the records they hand to the
/// store, the number of writes, and the lines.
proof fn lemma_step_effects(state: LoggerView, event: Event)
    ensures
        written(step(state, event).1) == match event {
            Event::Emit { .. } => if state.delivery == Delivery::Immediate {
                accepted_record(state.minimum, event)
            } else {
                seq![]
            },
            Event::Flush => if state.can_flush() {
                state.waiting
            } else {
                seq![]
            },
            Event::FlushCompleted { .. } => seq![],
        },
        write_count(step(state, event).1) == match event {
            Event::Emit { .. } => if state.delivery == Delivery::Immediate {
                accepted_record(state.minimum, event).len()
            } else {
                0
            },
            Event::Flush => if state.can_flush() {
                1nat
            } else {
                0
            },
            Event::FlushCompleted { .. } => 0,
        },
        lines(step(state, event).1) == accepted_record(state.minimum, event).map_values(
            |record: RecordView| console_line_of(record),
        ),
{
    reveal_with_fuel(written, 3);
    reveal_with_fuel(write_count, 3);
    reveal_with_fuel(lines, 3);
    let effects = step(state, event).1;
    let shown = accepted_record(state.minimum, event).map_values(
        |record: RecordView| console_line_of(record),
    );
    if effects.len() == 0 {
        assert(lines(effects) =~= shown);
    } else if effects.len() == 1 {
        assert(effects.drop_last().len() == 0);
        assert(written(effects) =~= effect_records(effects[0]));
        assert(lines(effects) =~= shown);
    } else {
        assert(effects.len() == 2);
        let head = effects.drop_last();
        assert(head.len() == 1);
        assert(head.drop_last().len() == 0);
        assert(written(head) =~= effect_records(effects[0]));
        assert(written(effects) =~= effect_records(effects[1]));
        assert(write_count(head) == 0);
        assert(lines(head) =~= seq![effects[0]->Line_0]);
        assert(lines(effects) =~= shown);
    }
}

/// An event below the least severity leaves no trace: the sink stays as it is,
/// no line is printed and nothing is written.
pub proof fn lemma_rejected_emit_is_silent(
    state: LoggerView,
    severity: Severity,
    source: Seq<char>,
    message: Seq<char>,
    now: i64,
)
    requires
        !severity.spec_at_least(state.minimum),
    ensures
        !state.accepts(severity),
        step(state, Event::Emit { severity, source, message, now }) == (state, Seq::<Effect>::empty()),
{
}

/// An event at or above the least severity is accepted. Its console line
/// comes first among its effects, before any write.
pub proof fn lemma_accepted_emit_prints_first(
    state: LoggerView,
    severity: Severity,
    source: Seq<char>,
    message: Seq<char>,
    now: i64,
)
    requires
        severity.spec_at_least(state.minimum),
    ensures
        state.accepts(severity),
        step(state, Event::Emit { severity, source, message, now }).1.len() >= 1,
        step(state, Event::Emit { severity, source, message, now }).1[0] == Effect::Line(
            console_line_of(built_record(severity, source, message, now)),
        ),
{
}

/// No event changes where a sink writes to, what it accepts or when it
/// delivers.
pub proof fn lemma_policy_is_fixed(state: LoggerView, events: Seq<Event>)
    ensures
        run(state, events).0.collection == state.collection,
        run(state, events).0.minimum == state.minimum,
        run(state, events).0.delivery == state.delivery,
    decreases events.len(),
{
    if events.len() > 0 {
        lemma_policy_is_fixed(state, events.drop_last());
    }
}

/// A sink stays valid, whatever happens to it.
pub proof fn lemma_run_stays_valid(state: LoggerView, events: Seq<Event>)
    requires
        state.valid(),
    ensures
        run(state, events).0.valid(),
    decreases events.len(),
{
    if events.len() > 0 {
        lemma_run_stays_valid(state, events.drop_last());
    }
}

/// Flushing a sink in which no record waits does nothing, however often: the
/// sink stays as it is and no write is asked for. An empty buffer is the
/// plainest such sink.
pub proof fn lemma_flush_of_empty_buffer_is_idle(state: LoggerView, events: Seq<Event>)
    requires
        state.waiting.len() == 0,
        forall|i: int| 0 <= i < events.len() ==> events[i] == Event::Flush,
    ensures
        run(state, events) == (state, Seq::<Effect>::empty()),
    decreases events.len(),
{
    if events.len() > 0 {
        lemma_flush_of_empty_buffer_is_idle(state, events.drop_last());
        assert(events.last() == Event::Flush);
        assert(run(state, events).1 =~= Seq::<Effect>::empty());
    }
}

/// Every accepted record is handed to the store exactly once or still waits:
/// the records written so far, followed by those that wait, are the records
/// that waited at the start, followed by the accepted ones, in the order of
/// the events.
pub proof fn lemma_accepted_records_are_written_once(state: LoggerView, events: Seq<Event>)
    requires
        state.valid(),
    ensures
        written(run(state, events).1) + run(state, events).0.waiting == state.waiting
            + accepted_records(state.minimum, events),
    decreases events.len(),
{
    if events.len() == 0 {
        assert(written(run(state, events).1) + run(state, events).0.waiting =~= state.waiting
            + accepted_records(state.minimum, events));
    } else {
        let earlier = events.drop_last();
        let (middle, effects) = run(state, earlier);
        lemma_accepted_records_are_written_once(state, earlier);
        lemma_run_stays_valid(state, earlier);
        lemma_policy_is_fixed(state, earlier);
        lemma_step_effects(middle, events.last());
        lemma_written_concat(effects, step(middle, events.last()).1);
        assert(written(run(state, events).1) + run(state, events).0.waiting =~= (written(effects)
            + middle.waiting) + accepted_record(state.minimum, events.last()));
        assert(state.waiting + accepted_records(state.minimum, events) =~= (state.waiting
            + accepted_records(state.minimum, earlier)) + accepted_record(
            state.minimum,
            events.last(),
        ));
    }
}

/// A sink that writes at once asks for exactly one write for each accepted
/// emit, whatever the order in which the emits arrive, and keeps nothing back.
pub proof fn lemma_immediate_sink_writes_each_accepted_emit(state: LoggerView, events: Seq<Event>)
    requires
        state.valid(),
        state.delivery == Delivery::Immediate,
    ensures
        write_count(run(state, events).1) == accepted_records(state.minimum, events).len(),
        written(run(state, events).1) == accepted_records(state.minimum, events),
        run(state, events).0.waiting.len() == 0,
    decreases events.len(),
{
    if events.len() > 0 {
        let earlier = events.drop_last();
        let (middle, effects) = run(state, earlier);
        lemma_immediate_sink_writes_each_accepted_emit(state, earlier);
        lemma_policy_is_fixed(state, earlier);
        lemma_step_effects(middle, events.last());
        lemma_write_count_concat(effects, step(middle, events.last()).1);
    }
    lemma_accepted_records_are_written_once(state, events);
    assert(written(run(state, events).1) =~= written(run(state, events).1) + run(
        state,
        events,
    ).0.waiting);
    assert(accepted_records(state.minimum, events) =~= state.waiting + accepted_records(
        state.minimum,
        events,
    ));
}

/// Where every event is an emit that the sink accepts, as many records are
/// accepted as there are events.
proof fn lemma_all_accepted(minimum: Severity, events: Seq<Event>)
    requires
        forall|i: int| 0 <= i < events.len() ==> accepted_record(minimum, #[trigger] events[i]).len() == 1,
    ensures
        accepted_records(minimum, events).len() == events.len(),
    decreases events.len(),
{
    if events.len() > 0 {
        let earlier = events.drop_last();
        assert forall|i: int| 0 <= i < earlier.len() implies accepted_record(
            minimum,
            #[trigger] earlier[i],
        ).len() == 1 by {
            assert(earlier[i] == events[i]);
        }
        lemma_all_accepted(minimum, earlier);
        assert(accepted_record(minimum, events[events.len() - 1]).len() == 1);
    }
}

/// Emits that a sink accepts and writes at once are as many writes as there are
/// emits, in whatever order the callers' emits reach the sink: no emit is
/// written twice and none is left out.
pub proof fn lemma_as_many_writes_as_accepted_emits(state: LoggerView, events: Seq<Event>)
    requires
        state.valid(),
        state.delivery == Delivery::Immediate,
        forall|i: int|
            0 <= i < events.len() ==> (#[trigger] events[i]) is Emit
                && events[i]->severity.spec_at_least(state.minimum),
    ensures
        write_count(run(state, events).1) == events.len(),
        written(run(state, events).1).len() == events.len(),
{
    lemma_immediate_sink_writes_each_accepted_emit(state, events);
    assert forall|i: int| 0 <= i < events.len() implies accepted_record(
        state.minimum,
        #[trigger] events[i],
    ).len() == 1 by {
        assert(events[i] is Emit);
    }
    lemma_all_accepted(state.minimum, events);
}

proof fn lemma_accepted_concat(minimum: Severity, first: Seq<Event>, second: Seq<Event>)
    ensures
        accepted_records(minimum, first + second) == accepted_records(minimum, first)
            + accepted_records(minimum, second),
    decreases second.len(),
{
    if second.len() == 0 {
        assert(first + second =~= first);
    } else {
        assert((first + second).drop_last() =~= first + second.drop_last());
        lemma_accepted_concat(minimum, first, second.drop_last());
    }
}

/// The accepted records of the same events in another order are the same
/// records, in another order.
proof fn lemma_accepted_in_any_order(minimum: Severity, first: Seq<Event>, second: Seq<Event>)
    requires
        first.to_multiset() == second.to_multiset(),
    ensures
        accepted_records(minimum, first).to_multiset() == accepted_records(
            minimum,
            second,
        ).to_multiset(),
    decreases first.len(),
{
    to_multiset_len(first);
    to_multiset_len(second);
    if first.len() > 0 {
        let last = first.last();
        let earlier = first.drop_last();
        assert(first.contains(last));
        to_multiset_contains(first, last);
        to_multiset_contains(second, last);
        let at = choose|at: int| 0 <= at < second.len() && second[at] == last;
        let others = second.remove(at);
        assert(earlier =~= first.remove(first.len() - 1));
        to_multiset_remove(first, first.len() - 1);
        to_multiset_remove(second, at);
        lemma_accepted_in_any_order(minimum, earlier, others);

        let before = second.subrange(0, at);
        let after = second.subrange(at + 1, second.len() as int);
        assert(second =~= (before + seq![last]) + after);
        assert(accepted_records(minimum, seq![last]) =~= accepted_record(minimum, last)) by {
            reveal_with_fuel(accepted_records, 2);
            assert(seq![last].last() == last);
        }
        lemma_accepted_concat(minimum, before, seq![last]);
        lemma_accepted_concat(minimum, before + seq![last], after);
        lemma_accepted_concat(minimum, before, after);
        let head = accepted_records(minimum, before);
        let one = accepted_record(minimum, last);
        let tail = accepted_records(minimum, after);
        lemma_multiset_commutative(head + one, tail);
        lemma_multiset_commutative(head, one);
        lemma_multiset_commutative(head, tail);
        lemma_multiset_commutative(accepted_records(minimum, earlier), one);
        assert(accepted_records(minimum, second).to_multiset() =~= accepted_records(
            minimum,
            others,
        ).to_multiset().add(one.to_multiset()));
    } else {
        assert(second.len() == 0);
    }
}

/// The order in which events reach a sink decides the order of its writes and
/// nothing else: the same events in another order give the same records to
/// the store or to the buffer, each as often as before.
pub proof fn lemma_order_of_events_does_not_change_what_is_written(
    state: LoggerView,
    first: Seq<Event>,
    second: Seq<Event>,
)
    requires
        state.valid(),
        first.to_multiset() == second.to_multiset(),
    ensures
        (written(run(state, first).1) + run(state, first).0.waiting).to_multiset() == (written(
            run(state, second).1,
        ) + run(state, second).0.waiting).to_multiset(),
        state.delivery == Delivery::Immediate ==> written(run(state, first).1).to_multiset()
            == written(run(state, second).1).to_multiset() && write_count(run(state, first).1)
            == write_count(run(state, second).1),
{
    lemma_accepted_records_are_written_once(state, first);
    lemma_accepted_records_are_written_once(state, second);
    lemma_accepted_in_any_order(state.minimum, first, second);
    lemma_multiset_commutative(state.waiting, accepted_records(state.minimum, first));
    lemma_multiset_commutative(state.waiting, accepted_records(state.minimum, second));
    if state.delivery == Delivery::Immediate {
        lemma_immediate_sink_writes_each_accepted_emit(state, first);
        lemma_immediate_sink_writes_each_accepted_emit(state, second);
        to_multiset_len(accepted_records(state.minimum, first));
        to_multiset_len(accepted_records(state.minimum, second));
    }
}

/// Every accepted emit has its console line, in the order of the events, and
/// nothing else is printed.
pub proof fn lemma_each_accepted_emit_is_printed(state: LoggerView, events: Seq<Event>)
    ensures
        lines(run(state, events).1) == accepted_records(state.minimum, events).map_values(
            |record: RecordView| console_line_of(record),
        ),
    decreases events.len(),
{
    let shown = |record: RecordView| console_line_of(record);
    if events.len() == 0 {
        assert(lines(run(state, events).1) =~= accepted_records(state.minimum, events).map_values(
            shown,
        ));
    } else {
        let earlier = events.drop_last();
        let (middle, effects) = run(state, earlier);
        lemma_each_accepted_emit_is_printed(state, earlier);
        lemma_policy_is_fixed(state, earlier);
        lemma_step_effects(middle, events.last());
        lemma_lines_concat(effects, step(middle, events.last()).1);
        assert(accepted_records(state.minimum, events).map_values(shown) =~= accepted_records(
            state.minimum,
            earlier,
        ).map_values(shown) + accepted_record(state.minimum, events.last()).map_values(shown));
    }
}

/// Whether writes succeed or fail does not show: two runs whose events differ
/// only in the outcomes of the writes leave the same sink and ask for the same
/// lines and writes.
pub proof fn lemma_write_outcomes_do_not_show(
    state: LoggerView,
    first: Seq<Event>,
    second: Seq<Event>,
)
    requires
        first.len() == second.len(),
        forall|i: int| 0 <= i < first.len() ==> same_but_outcome(first[i], second[i]),
    ensures
        run(state, first) == run(state, second),
    decreases first.len(),
{
    if first.len() > 0 {
        lemma_write_outcomes_do_not_show(state, first.drop_last(), second.drop_last());
        assert(same_but_outcome(first.last(), second.last()));
    }
}

} // verus!
