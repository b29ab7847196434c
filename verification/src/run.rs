use crate::alignment::aligned;
use crate::coordinator::{
    initial, transition, well_formed, ActionView, EventView, Machine, StageView, Task,
};
use crate::error::ErrorView;
use crate::table::{header, result_row_of, table};
use vstd::prelude::*;

verus! {

/// The rows that an action hands to the sink.
pub open spec fn rows_of(action: ActionView) -> Seq<Seq<Seq<char>>> {
    match action {
        ActionView::WriteHeader(row) => seq![row],
        ActionView::WriteRow(row) => seq![row],
        _ => Seq::empty(),
    }
}

/// The state that `m` is in after the given events, taken in order.
pub open spec fn after(m: Machine, events: Seq<EventView>) -> Machine
    decreases events.len(),
{
    if events.len() == 0 {
        m
    } else {
        transition(after(m, events.drop_last()), events.last()).0
    }
}

/// Every row handed to the sink while `m` takes the given events, in the
/// order in which they were handed out.
pub open spec fn written(m: Machine, events: Seq<EventView>) -> Seq<Seq<Seq<char>>>
    decreases events.len(),
{
    if events.len() == 0 {
        Seq::empty()
    } else {
        written(m, events.drop_last()) + rows_of(
            transition(after(m, events.drop_last()), events.last()).1,
        )
    }
}

/// The state and the rows written after a single event.
pub proof fn lemma_single_event(m: Machine, event: EventView)
    ensures
        after(m, seq![event]) == transition(m, event).0,
        written(m, seq![event]) == rows_of(transition(m, event).1),
{
    let events = seq![event];
    assert(events.drop_last() =~= Seq::<EventView>::empty());
    assert(events.last() == event);
    assert(after(m, events.drop_last()) == m);
    assert(written(m, events.drop_last()) =~= Seq::<Seq<Seq<char>>>::empty());
    let rows = rows_of(transition(m, event).1);
    assert(Seq::<Seq<Seq<char>>>::empty() + rows =~= rows);
}

/// Taking `first` and then `second` is taking their concatenation: the
/// states agree, and the rows written are those of `first` followed by
/// those of `second`.
pub proof fn lemma_run_splits(m: Machine, first: Seq<EventView>, second: Seq<EventView>)
    ensures
        after(m, first + second) == after(after(m, first), second),
        written(m, first + second) == written(m, first) + written(after(m, first), second),
    decreases second.len(),
{
    if second.len() == 0 {
        assert(first + second =~= first);
        assert(written(m, first) + Seq::<Seq<Seq<char>>>::empty() =~= written(m, first));
    } else {
        assert((first + second).drop_last() =~= first + second.drop_last());
        assert((first + second).last() == second.last());
        lemma_run_splits(m, first, second.drop_last());
        let middle = after(m, first);
        let tail = rows_of(transition(after(middle, second.drop_last()), second.last()).1);
        let head = written(m, first);
        let body = written(middle, second.drop_last());
        assert((head + body) + tail =~= head + (body + tail));
    }
}

/// A run starts in a well-formed state.
pub proof fn lemma_initial_is_well_formed()
    ensures
        well_formed(initial()),
{
}

/// No event leads out of the well-formed states.
pub proof fn lemma_transition_preserves_well_formed(m: Machine, event: EventView)
    requires
        well_formed(m),
    ensures
        well_formed(transition(m, event).0),
{
}

/// `Done` and `Failed` are terminal: whatever the event, the state stays
/// as it is and nothing is owed.
pub proof fn lemma_terminal_states_absorb(m: Machine, event: EventView)
    requires
        m.stage is Done || m.stage is Failed,
    ensures
        transition(m, event) == (m, ActionView::Nothing),
{
}

/// Once a run has failed or finished it stays so, and writes no further row.
pub proof fn lemma_nothing_follows_the_end(m: Machine, events: Seq<EventView>)
    requires
        m.stage is Done || m.stage is Failed,
    ensures
        after(m, events) == m,
        written(m, events) == Seq::<Seq<Seq<char>>>::empty(),
    decreases events.len(),
{
    if events.len() > 0 {
        lemma_nothing_follows_the_end(m, events.drop_last());
    }
}

/// The first failure is final. Whichever event makes a run fail, the run
/// is in that same failed state after any further events, and from the
/// failing event on nothing is written: no row is skipped and the next
/// one tried.
pub proof fn lemma_first_failure_ends_run(m: Machine, event: EventView, rest: Seq<EventView>)
    requires
        transition(m, event).0.stage is Failed,
    ensures
        after(m, seq![event] + rest) == transition(m, event).0,
        written(m, seq![event] + rest) == Seq::<Seq<Seq<char>>>::empty(),
{
    lemma_single_event(m, event);
    lemma_run_splits(m, seq![event], rest);
    lemma_nothing_follows_the_end(transition(m, event).0, rest);
    let nothing = Seq::<Seq<Seq<char>>>::empty();
    assert(written(m, seq![event]) + nothing =~= nothing);
}

/// The row names are set once, by the name pass, and never change afterwards.
pub proof fn lemma_names_are_fixed(m: Machine, event: EventView)
    requires
        !(m.stage is Start),
    ensures
        transition(m, event).0.control_names == m.control_names,
        transition(m, event).0.case_names == m.case_names,
        !(transition(m, event).0.stage is Start),
{
}

/// What links a reachable state to the rows written on the way to it.
spec fn accounts_for(m: Machine, out: Seq<Seq<Seq<char>>>) -> bool {
    &&& well_formed(m)
    &&& match m.stage {
        StageView::Start => out.len() == 0,
        StageView::NamesExtracted => out.len() == 0,
        StageView::Failed(_) => {
            ||| out.len() == 0
            ||| out.len() == m.issued + 1 && aligned(m.control_names, m.case_names)
        },
        _ => out.len() == m.issued + 1,
    }
    &&& out.len() >= 1 ==> out[0] == header()
    &&& forall|k: int|
        1 <= k < out.len() ==> {
            &&& (#[trigger] out[k]).len() == 2
            &&& out[k][0] == m.control_names[k - 1]
        }
}

proof fn lemma_transition_accounts(m: Machine, out: Seq<Seq<Seq<char>>>, event: EventView)
    requires
        accounts_for(m, out),
    ensures
        accounts_for(transition(m, event).0, out + rows_of(transition(m, event).1)),
{
    let next = transition(m, event);
    let out2 = out + rows_of(next.1);
    assert forall|k: int| 1 <= k < out2.len() implies {
        &&& (#[trigger] out2[k]).len() == 2
        &&& out2[k][0] == next.0.control_names[k - 1]
    } by {
        if k < out.len() {
            assert(out2[k] == out[k]);
        }
    }
}

proof fn lemma_run_accounts(events: Seq<EventView>)
    ensures
        accounts_for(after(initial(), events), written(initial(), events)),
    decreases events.len(),
{
    if events.len() > 0 {
        lemma_run_accounts(events.drop_last());
        lemma_transition_accounts(
            after(initial(), events.drop_last()),
            written(initial(), events.drop_last()),
            events.last(),
        );
    }
}

/// Whatever the events, a run writes a prefix of the result table, in
/// table order, and only for aligned names.
///
/// Of the rows written from the start: the first is the header, and the
/// row after `k` others carries the `k`-th row name (counting the data
/// rows from one), so result rows come in the order of the input rows.
/// Nothing at all is written unless the row names are aligned. There are
/// never more data rows than names, and a run that is `Done` has written
/// one row for every name.
pub proof fn lemma_run_writes_table_prefix(events: Seq<EventView>)
    ensures
        ({
            let end = after(initial(), events);
            let out = written(initial(), events);
            &&& well_formed(end)
            &&& out.len() <= end.control_names.len() + 1
            &&& out.len() >= 1 ==> {
                &&& out[0] == header()
                &&& aligned(end.control_names, end.case_names)
            }
            &&& forall|k: int|
                1 <= k < out.len() ==> {
                    &&& (#[trigger] out[k]).len() == 2
                    &&& out[k][0] == end.control_names[k - 1]
                }
            &&& end.stage is Done ==> out.len() == end.control_names.len() + 1
        }),
{
    lemma_run_accounts(events);
}

/// A run over misaligned row names fails with `AlignmentMismatch` as soon
/// as the inputs are rewound, and writes nothing, neither then nor later:
/// no header and no data row.
pub proof fn lemma_mismatch_halts_unwritten(
    control_names: Seq<Seq<char>>,
    case_names: Seq<Seq<char>>,
    rest: Seq<EventView>,
)
    requires
        !aligned(control_names, case_names),
    ensures
        ({
            let events = seq![
                EventView::NamesRead { control_names, case_names },
                EventView::Completed,
            ] + rest;
            &&& after(initial(), events).stage == StageView::Failed(ErrorView::AlignmentMismatch)
            &&& written(initial(), events) == Seq::<Seq<Seq<char>>>::empty()
        }),
{
    let names_read = EventView::NamesRead { control_names, case_names };
    let first = seq![names_read];
    let second = seq![EventView::Completed];
    lemma_single_event(initial(), names_read);
    let extracted = after(initial(), first);
    lemma_single_event(extracted, EventView::Completed);
    lemma_run_splits(initial(), first, second);
    let halted = after(initial(), first + second);
    assert(halted.stage == StageView::Failed(ErrorView::AlignmentMismatch));
    assert(written(initial(), first + second) =~= Seq::<Seq<Seq<char>>>::empty());
    lemma_nothing_follows_the_end(halted, rest);
    lemma_run_splits(initial(), first + second, rest);
    assert(first + second =~= seq![names_read, EventView::Completed]);
}

/// The events of the first `count` rows of a value pass in which every
/// row is read, evaluated and written.
pub open spec fn row_events(
    case_records: Seq<Seq<Seq<char>>>,
    control_records: Seq<Seq<Seq<char>>>,
    values: Seq<Seq<char>>,
    count: nat,
) -> Seq<EventView>
    decreases count,
{
    if count == 0 {
        Seq::empty()
    } else {
        row_events(case_records, control_records, values, (count - 1) as nat) + seq![
            EventView::RowRead {
                case_record: case_records[count - 1],
                control_record: control_records[count - 1],
            },
            EventView::Evaluated(values[count - 1]),
            EventView::Completed,
        ]
    }
}

/// The events of a run in which nothing goes wrong: the names are read,
/// the inputs rewound, the header written, every row read, evaluated and
/// written in turn, and the end of the input found.
pub open spec fn complete_run(
    control_names: Seq<Seq<char>>,
    case_names: Seq<Seq<char>>,
    case_records: Seq<Seq<Seq<char>>>,
    control_records: Seq<Seq<Seq<char>>>,
    values: Seq<Seq<char>>,
) -> Seq<EventView> {
    seq![
        EventView::NamesRead { control_names, case_names },
        EventView::Completed,
        EventView::Completed,
    ] + row_events(case_records, control_records, values, control_names.len()) + seq![
        EventView::EndOfRows,
    ]
}

proof fn lemma_one_row(
    m: Machine,
    case_record: Seq<Seq<char>>,
    control_record: Seq<Seq<char>>,
    value: Seq<char>,
)
    requires
        m.stage == StageView::Processing(Task::Read),
        m.issued < m.control_names.len(),
    ensures
        ({
            let events = seq![
                EventView::RowRead { case_record, control_record },
                EventView::Evaluated(value),
                EventView::Completed,
            ];
            &&& after(m, events) == Machine { issued: m.issued + 1, ..m }
            &&& written(m, events) == seq![
                result_row_of(m.control_names[m.issued as int], value),
            ]
        }),
{
    let read = EventView::RowRead { case_record, control_record };
    let evaluated = EventView::Evaluated(value);
    let events = seq![read, evaluated, EventView::Completed];
    assert(events =~= seq![read] + seq![evaluated] + seq![EventView::Completed]);
    lemma_single_event(m, read);
    let in_hand = after(m, seq![read]);
    lemma_single_event(in_hand, evaluated);
    lemma_run_splits(m, seq![read], seq![evaluated]);
    let writing = after(m, seq![read] + seq![evaluated]);
    lemma_single_event(writing, EventView::Completed);
    lemma_run_splits(m, seq![read] + seq![evaluated], seq![EventView::Completed]);
    assert(written(m, events) =~= seq![result_row_of(m.control_names[m.issued as int], value)]);
}

proof fn lemma_rows_in_order(
    m: Machine,
    case_records: Seq<Seq<Seq<char>>>,
    control_records: Seq<Seq<Seq<char>>>,
    values: Seq<Seq<char>>,
    count: nat,
)
    requires
        m.stage == StageView::Processing(Task::Read),
        m.issued == 0,
        count <= m.control_names.len(),
    ensures
        ({
            let events = row_events(case_records, control_records, values, count);
            &&& after(m, events) == Machine { issued: count, ..m }
            &&& written(m, events) == Seq::new(
                count,
                |i: int| result_row_of(m.control_names[i], values[i]),
            )
        }),
    decreases count,
{
    let rows = Seq::new(count, |i: int| result_row_of(m.control_names[i], values[i]));
    if count == 0 {
        assert(written(m, Seq::<EventView>::empty()) =~= rows);
    } else {
        let before = (count - 1) as nat;
        lemma_rows_in_order(m, case_records, control_records, values, before);
        let earlier = row_events(case_records, control_records, values, before);
        let reached = after(m, earlier);
        lemma_one_row(
            reached,
            case_records[count - 1],
            control_records[count - 1],
            values[count - 1],
        );
        let last = seq![
            EventView::RowRead {
                case_record: case_records[count - 1],
                control_record: control_records[count - 1],
            },
            EventView::Evaluated(values[count - 1]),
            EventView::Completed,
        ];
        lemma_run_splits(m, earlier, last);
        assert(written(m, earlier + last) =~= rows);
    }
}

/// A run in which nothing goes wrong ends in `Done` and has written
/// exactly the result table: the header, then for every input row, in
/// input order, its name and the value that was computed for it.
pub proof fn lemma_complete_run_writes_table(
    control_names: Seq<Seq<char>>,
    case_names: Seq<Seq<char>>,
    case_records: Seq<Seq<Seq<char>>>,
    control_records: Seq<Seq<Seq<char>>>,
    values: Seq<Seq<char>>,
)
    requires
        aligned(control_names, case_names),
        values.len() == control_names.len(),
    ensures
        ({
            let events = complete_run(
                control_names,
                case_names,
                case_records,
                control_records,
                values,
            );
            &&& after(initial(), events).stage is Done
            &&& written(initial(), events) == table(control_names, values)
        }),
{
    let names_read = EventView::NamesRead { control_names, case_names };
    let opening = seq![names_read, EventView::Completed, EventView::Completed];
    assert(opening =~= seq![names_read] + seq![EventView::Completed] + seq![EventView::Completed]);
    lemma_single_event(initial(), names_read);
    let extracted = after(initial(), seq![names_read]);
    lemma_single_event(extracted, EventView::Completed);
    lemma_run_splits(initial(), seq![names_read], seq![EventView::Completed]);
    let validated = after(initial(), seq![names_read] + seq![EventView::Completed]);
    lemma_single_event(validated, EventView::Completed);
    lemma_run_splits(
        initial(),
        seq![names_read] + seq![EventView::Completed],
        seq![EventView::Completed],
    );
    let reading = after(initial(), opening);
    assert(written(initial(), opening) =~= seq![header()]);

    let rows = row_events(case_records, control_records, values, control_names.len());
    lemma_rows_in_order(reading, case_records, control_records, values, control_names.len());
    lemma_run_splits(initial(), opening, rows);
    let finished = after(initial(), opening + rows);
    lemma_single_event(finished, EventView::EndOfRows);
    lemma_run_splits(initial(), opening + rows, seq![EventView::EndOfRows]);
    assert(written(
        initial(),
        complete_run(control_names, case_names, case_records, control_records, values),
    ) =~= table(control_names, values));
}

} // verus!
