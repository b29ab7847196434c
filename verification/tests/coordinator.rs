use cohend::coordinator::{Action, Coordinator, Event, Stage, Task};
use cohend::error::PipelineError;

fn texts(items: &[&str]) -> Vec<String> {
    items.iter().map(|item| String::from(*item)).collect()
}

fn names_read(control: &[&str], case: &[&str]) -> Event {
    Event::NamesRead { control_names: texts(control), case_names: texts(case) }
}

fn row_read(case: &[&str], control: &[&str]) -> Event {
    Event::RowRead { case_record: texts(case), control_record: texts(control) }
}

fn drive(coordinator: Coordinator, events: Vec<Event>) -> (Coordinator, Vec<Action>) {
    let mut coordinator = coordinator;
    let mut actions = Vec::new();
    for event in events {
        let (next, action) = coordinator.step(event);
        coordinator = next;
        actions.push(action);
    }
    (coordinator, actions)
}

fn reading(names: &[&str]) -> Coordinator {
    let (coordinator, _) = drive(
        Coordinator::new(),
        vec![names_read(names, names), Event::Completed, Event::Completed],
    );
    assert_eq!(coordinator.stage(), &Stage::Processing(Task::Read));
    coordinator
}

fn every_event() -> Vec<Event> {
    vec![
        names_read(&["a"], &["a"]),
        Event::Completed,
        row_read(&["a", "1"], &["a", "2"]),
        Event::EndOfRows,
        Event::Evaluated(String::from("1")),
        Event::Rejected(PipelineError::InsufficientSamples),
        Event::SourceFailed(String::from("broken")),
    ]
}

#[test]
fn a_run_begins_at_the_start() {
    let coordinator = Coordinator::new();
    assert_eq!(coordinator.stage(), &Stage::Start);
    assert_eq!(coordinator.rows_issued(), 0);
    assert!(coordinator.row_names().is_empty());
}

#[test]
fn names_lead_to_a_rewind() {
    let (coordinator, action) =
        Coordinator::new().step(names_read(&["g1", "g2"], &["g1", "g2"]));
    assert_eq!(action, Action::Rewind);
    assert_eq!(coordinator.stage(), &Stage::NamesExtracted);
    assert_eq!(coordinator.row_names(), &texts(&["g1", "g2"]));
    assert_eq!(coordinator.rows_issued(), 0);
}

#[test]
fn aligned_names_lead_to_the_header() {
    let (coordinator, actions) = drive(
        Coordinator::new(),
        vec![names_read(&["g1", "g2"], &["g1", "g2"]), Event::Completed],
    );
    assert_eq!(actions[1], Action::WriteHeader(texts(&["row_names", "cohen_d"])));
    assert_eq!(coordinator.stage(), &Stage::Validated);
}

#[test]
fn misaligned_names_halt_the_run() {
    let (coordinator, actions) = drive(
        Coordinator::new(),
        vec![names_read(&["g9", "g2"], &["g1", "g2"]), Event::Completed],
    );
    assert_eq!(actions, vec![Action::Rewind, Action::Halt]);
    assert_eq!(coordinator.stage(), &Stage::Failed(PipelineError::AlignmentMismatch));
    assert_eq!(coordinator.rows_issued(), 0);
}

#[test]
fn names_of_unequal_number_halt_the_run() {
    let (coordinator, actions) = drive(
        Coordinator::new(),
        vec![names_read(&["g1"], &["g1", "g2"]), Event::Completed],
    );
    assert_eq!(actions[1], Action::Halt);
    assert_eq!(coordinator.into_stage(), Stage::Failed(PipelineError::AlignmentMismatch));
}

#[test]
fn a_failed_run_writes_nothing_afterwards() {
    let (coordinator, _) = drive(
        Coordinator::new(),
        vec![names_read(&["g9"], &["g1"]), Event::Completed],
    );
    let (coordinator, actions) = drive(coordinator, every_event());
    assert!(actions.iter().all(|action| action == &Action::Nothing));
    assert_eq!(coordinator.stage(), &Stage::Failed(PipelineError::AlignmentMismatch));
    assert_eq!(coordinator.rows_issued(), 0);
}

#[test]
fn the_header_leads_to_the_first_row() {
    let (coordinator, actions) = drive(
        Coordinator::new(),
        vec![names_read(&["g1"], &["g1"]), Event::Completed, Event::Completed],
    );
    assert_eq!(actions[2], Action::ReadRow);
    assert_eq!(coordinator.stage(), &Stage::Processing(Task::Read));
}

#[test]
fn a_row_is_handed_out_without_its_name() {
    let (coordinator, action) = reading(&["g1"])
        .step(row_read(&["g1", "2.2", "1.3", "3.1"], &["g1", "12.6", "11.1"]));
    assert_eq!(
        action,
        Action::Evaluate {
            case_fields: texts(&["2.2", "1.3", "3.1"]),
            control_fields: texts(&["12.6", "11.1"]),
        }
    );
    assert_eq!(coordinator.stage(), &Stage::Processing(Task::Evaluate));
    assert_eq!(coordinator.rows_issued(), 0);
}

#[test]
fn a_row_of_a_name_alone_has_no_samples() {
    let (_, action) = reading(&["g1"]).step(row_read(&["g1"], &[]));
    assert_eq!(action, Action::Evaluate { case_fields: texts(&[]), control_fields: texts(&[]) });
}

#[test]
fn a_value_leads_to_its_result_row() {
    let (coordinator, actions) = drive(
        reading(&["g1", "g2"]),
        vec![row_read(&["g1", "1", "2"], &["g1", "3", "4"]), Event::Evaluated(String::from("-1.5"))],
    );
    assert_eq!(actions[1], Action::WriteRow(texts(&["g1", "-1.5"])));
    assert_eq!(coordinator.stage(), &Stage::Processing(Task::Write));
    assert_eq!(coordinator.rows_issued(), 1);
}

#[test]
fn a_written_row_leads_to_the_next() {
    let (coordinator, actions) = drive(
        reading(&["g1", "g2"]),
        vec![
            row_read(&["g1", "1", "2"], &["g1", "3", "4"]),
            Event::Evaluated(String::from("-1.5")),
            Event::Completed,
        ],
    );
    assert_eq!(actions[2], Action::ReadRow);
    assert_eq!(coordinator.stage(), &Stage::Processing(Task::Read));
    assert_eq!(coordinator.rows_issued(), 1);
}

#[test]
fn the_result_row_is_named_by_the_name_pass() {
    let (_, actions) = drive(
        reading(&["g1"]),
        vec![row_read(&["other", "1", "2"], &["another", "3", "4"]), Event::Evaluated(String::from("7"))],
    );
    assert_eq!(actions[1], Action::WriteRow(texts(&["g1", "7"])));
}

#[test]
fn a_complete_run_writes_the_table_in_input_order() {
    let (coordinator, actions) = drive(
        Coordinator::new(),
        vec![
            names_read(&["g1", "g2", "g3"], &["g1", "g2", "g3"]),
            Event::Completed,
            Event::Completed,
            row_read(&["g1", "1", "2"], &["g1", "3", "4"]),
            Event::Evaluated(String::from("v1")),
            Event::Completed,
            row_read(&["g2", "1", "2"], &["g2", "3", "4"]),
            Event::Evaluated(String::from("v2")),
            Event::Completed,
            row_read(&["g3", "1", "2"], &["g3", "3", "4"]),
            Event::Evaluated(String::from("v3")),
            Event::Completed,
            Event::EndOfRows,
        ],
    );
    let mut written: Vec<Vec<String>> = Vec::new();
    for action in &actions {
        match action {
            Action::WriteHeader(row) | Action::WriteRow(row) => written.push(row.clone()),
            _ => {}
        }
    }
    assert_eq!(
        written,
        vec![
            texts(&["row_names", "cohen_d"]),
            texts(&["g1", "v1"]),
            texts(&["g2", "v2"]),
            texts(&["g3", "v3"]),
        ]
    );
    assert_eq!(actions.last(), Some(&Action::Finish));
    assert_eq!(coordinator.stage(), &Stage::Done);
    assert_eq!(coordinator.rows_issued(), 3);
}

#[test]
fn a_run_without_rows_finishes_after_the_header() {
    let (coordinator, actions) = drive(
        Coordinator::new(),
        vec![names_read(&[], &[]), Event::Completed, Event::Completed, Event::EndOfRows],
    );
    assert_eq!(
        actions,
        vec![
            Action::Rewind,
            Action::WriteHeader(texts(&["row_names", "cohen_d"])),
            Action::ReadRow,
            Action::Finish,
        ]
    );
    assert_eq!(coordinator.stage(), &Stage::Done);
}

#[test]
fn a_finished_run_stays_finished() {
    let (coordinator, _) = drive(
        Coordinator::new(),
        vec![names_read(&[], &[]), Event::Completed, Event::Completed, Event::EndOfRows],
    );
    let (coordinator, actions) = drive(coordinator, every_event());
    assert!(actions.iter().all(|action| action == &Action::Nothing));
    assert_eq!(coordinator.stage(), &Stage::Done);
}

#[test]
fn a_rejected_row_halts_the_run() {
    let (coordinator, actions) = drive(
        reading(&["g1", "g2"]),
        vec![
            row_read(&["g1", "1", "abc"], &["g1", "3", "4"]),
            Event::Rejected(PipelineError::NonNumericField(String::from("abc"))),
        ],
    );
    assert_eq!(actions[1], Action::Halt);
    assert_eq!(
        coordinator.stage(),
        &Stage::Failed(PipelineError::NonNumericField(String::from("abc")))
    );
    assert_eq!(coordinator.rows_issued(), 0);
}

#[test]
fn too_few_samples_halt_the_run() {
    let (coordinator, actions) = drive(
        reading(&["g1"]),
        vec![row_read(&["g1", "1"], &["g1", "3", "4"]), Event::Rejected(PipelineError::InsufficientSamples)],
    );
    assert_eq!(actions[1], Action::Halt);
    assert_eq!(coordinator.into_stage(), Stage::Failed(PipelineError::InsufficientSamples));
}

#[test]
fn a_row_after_a_failure_is_not_evaluated() {
    let (coordinator, actions) = drive(
        reading(&["g1", "g2"]),
        vec![
            row_read(&["g1", "1", "2"], &["g1", "3", "4"]),
            Event::Rejected(PipelineError::InsufficientSamples),
            row_read(&["g2", "1", "2"], &["g2", "3", "4"]),
            Event::Evaluated(String::from("1")),
            Event::Completed,
        ],
    );
    assert_eq!(actions[2..], [Action::Nothing, Action::Nothing, Action::Nothing]);
    assert_eq!(coordinator.stage(), &Stage::Failed(PipelineError::InsufficientSamples));
}

#[test]
fn a_failing_source_halts_the_run_at_any_point() {
    let prefixes: Vec<Vec<Event>> = vec![
        vec![],
        vec![names_read(&["g1"], &["g1"])],
        vec![names_read(&["g1"], &["g1"]), Event::Completed],
        vec![names_read(&["g1"], &["g1"]), Event::Completed, Event::Completed],
        vec![
            names_read(&["g1"], &["g1"]),
            Event::Completed,
            Event::Completed,
            row_read(&["g1", "1", "2"], &["g1", "3", "4"]),
        ],
        vec![
            names_read(&["g1"], &["g1"]),
            Event::Completed,
            Event::Completed,
            row_read(&["g1", "1", "2"], &["g1", "3", "4"]),
            Event::Evaluated(String::from("1")),
        ],
    ];
    for prefix in prefixes {
        let (coordinator, _) = drive(Coordinator::new(), prefix);
        let (coordinator, action) = coordinator.step(Event::SourceFailed(String::from("unreadable")));
        assert_eq!(action, Action::Halt);
        assert_eq!(
            coordinator.stage(),
            &Stage::Failed(PipelineError::Io(String::from("unreadable")))
        );
    }
}

#[test]
fn a_row_beyond_the_names_is_a_mismatch() {
    let (coordinator, actions) = drive(
        reading(&["g1"]),
        vec![
            row_read(&["g1", "1", "2"], &["g1", "3", "4"]),
            Event::Evaluated(String::from("1")),
            Event::Completed,
            row_read(&["g2", "1", "2"], &["g2", "3", "4"]),
        ],
    );
    assert_eq!(actions[3], Action::Halt);
    assert_eq!(coordinator.stage(), &Stage::Failed(PipelineError::AlignmentMismatch));
    assert_eq!(coordinator.rows_issued(), 1);
}

#[test]
fn an_end_before_the_last_name_is_a_mismatch() {
    let (coordinator, actions) = drive(
        reading(&["g1", "g2"]),
        vec![
            row_read(&["g1", "1", "2"], &["g1", "3", "4"]),
            Event::Evaluated(String::from("1")),
            Event::Completed,
            Event::EndOfRows,
        ],
    );
    assert_eq!(actions[3], Action::Halt);
    assert_eq!(coordinator.stage(), &Stage::Failed(PipelineError::AlignmentMismatch));
}

#[test]
fn an_event_that_is_not_awaited_changes_nothing() {
    let (coordinator, action) = Coordinator::new().step(Event::Completed);
    assert_eq!(action, Action::Nothing);
    assert_eq!(coordinator.stage(), &Stage::Start);

    let (coordinator, action) = coordinator.step(Event::Evaluated(String::from("1")));
    assert_eq!(action, Action::Nothing);
    assert_eq!(coordinator.stage(), &Stage::Start);

    let (coordinator, _) = coordinator.step(names_read(&["g1"], &["g1"]));
    let (coordinator, action) = coordinator.step(names_read(&["g2"], &["g3"]));
    assert_eq!(action, Action::Nothing);
    assert_eq!(coordinator.stage(), &Stage::NamesExtracted);
    assert_eq!(coordinator.row_names(), &texts(&["g1"]));

    let (coordinator, action) = reading(&["g1"]).step(Event::Completed);
    assert_eq!(action, Action::Nothing);
    assert_eq!(coordinator.stage(), &Stage::Processing(Task::Read));

    let (coordinator, _) = coordinator.step(row_read(&["g1", "1", "2"], &["g1", "3", "4"]));
    let (coordinator, action) = coordinator.step(Event::EndOfRows);
    assert_eq!(action, Action::Nothing);
    assert_eq!(coordinator.stage(), &Stage::Processing(Task::Evaluate));
    assert_eq!(coordinator.rows_issued(), 0);
}
