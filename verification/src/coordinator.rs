use crate::alignment::{aligned, validate_alignment};
use crate::error::{ErrorView, PipelineError};
use crate::record::{sample_fields, sample_fields_of};
use crate::table::{header, header_row, result_row, result_row_of};
use vstd::prelude::*;

verus! {

/// What is under way for the current row while a run is processing rows.
#[derive(Debug, Clone, Copy, PartialEq, Eq, Structural)]
pub enum Task {
    /// The next pair of records is being read.
    Read,
    /// The effect size of the row in hand is being computed.
    Evaluate,
    /// The result row is being written.
    Write,
}

/// Where a run stands.
#[derive(Debug, PartialEq, Eq)]
pub enum Stage {
    /// Nothing has been read yet.
    Start,
    /// The row names of both matrices are known; the inputs are being
    /// rewound to their first data row.
    NamesExtracted,
    /// The row names are aligned; the header is being written.
    Validated,
    /// Rows are being read, evaluated and written, one at a time.
    Processing(Task),
    /// Every row has been written. Terminal.
    Done,
    /// The run has stopped for the given reason. Terminal.
    Failed(PipelineError),
}

/// What the driver reports back after carrying out an action.
#[derive(Debug, PartialEq, Eq)]
pub enum Event {
    /// The name pass is over: the first field of every data row of each
    /// matrix, in input order.
    NamesRead { control_names: Vec<String>, case_names: Vec<String> },
    /// The last action was carried out and has nothing to report.
    Completed,
    /// The next data row of each matrix, each with all of its fields.
    RowRead { case_record: Vec<String>, control_record: Vec<String> },
    /// One of the matrices has no further data row.
    EndOfRows,
    /// The effect size of the row in hand, as text.
    Evaluated(String),
    /// The row in hand has no effect size, for the given reason.
    Rejected(PipelineError),
    /// A row source or the row sink failed, with its message.
    SourceFailed(String),
}

/// What the driver is to do next. Each action but the last three is
/// answered by exactly one event.
#[derive(Debug, PartialEq, Eq)]
pub enum Action {
    /// Set both inputs back to their first data row; answer `Completed`.
    Rewind,
    /// Write the header row; answer `Completed`.
    WriteHeader(Vec<String>),
    /// Read the next data row of each matrix; answer `RowRead` or `EndOfRows`.
    ReadRow,
    /// Parse both sample vectors and compute the effect size; answer
    /// `Evaluated` or `Rejected`.
    Evaluate { case_fields: Vec<String>, control_fields: Vec<String> },
    /// Write a result row; answer `Completed`.
    WriteRow(Vec<String>),
    /// Flush and close the sink: the run is complete.
    Finish,
    /// Stop: the run has failed and nothing more is to be written.
    Halt,
    /// The event was not awaited and has changed nothing.
    Nothing,
}

/// The mathematical value of a [`Stage`].
pub enum StageView {
    Start,
    NamesExtracted,
    Validated,
    Processing(Task),
    Done,
    Failed(ErrorView),
}

/// The mathematical value of an [`Event`]: text as character sequences.
pub enum EventView {
    NamesRead { control_names: Seq<Seq<char>>, case_names: Seq<Seq<char>> },
    Completed,
    RowRead { case_record: Seq<Seq<char>>, control_record: Seq<Seq<char>> },
    EndOfRows,
    Evaluated(Seq<char>),
    Rejected(ErrorView),
    SourceFailed(Seq<char>),
}

/// The mathematical value of an [`Action`]: text as character sequences.
pub enum ActionView {
    Rewind,
    WriteHeader(Seq<Seq<char>>),
    ReadRow,
    Evaluate { case_fields: Seq<Seq<char>>, control_fields: Seq<Seq<char>> },
    WriteRow(Seq<Seq<char>>),
    Finish,
    Halt,
    Nothing,
}

/// The state of a run as a mathematical value.
pub struct Machine {
    pub stage: StageView,
    /// The row names of the control matrix, which name the result rows.
    pub control_names: Seq<Seq<char>>,
    /// The row names of the case matrix.
    pub case_names: Seq<Seq<char>>,
    /// How many result rows have been handed out for writing.
    pub issued: nat,
}

impl View for Stage {
    type V = StageView;

    open spec fn view(&self) -> StageView {
        match self {
            Stage::Start => StageView::Start,
            Stage::NamesExtracted => StageView::NamesExtracted,
            Stage::Validated => StageView::Validated,
            Stage::Processing(task) => StageView::Processing(*task),
            Stage::Done => StageView::Done,
            Stage::Failed(reason) => StageView::Failed(reason@),
        }
    }
}

impl View for Event {
    type V = EventView;

    open spec fn view(&self) -> EventView {
        match self {
            Event::NamesRead { control_names, case_names } => EventView::NamesRead {
                control_names: control_names.deep_view(),
                case_names: case_names.deep_view(),
            },
            Event::Completed => EventView::Completed,
            Event::RowRead { case_record, control_record } => EventView::RowRead {
                case_record: case_record.deep_view(),
                control_record: control_record.deep_view(),
            },
            Event::EndOfRows => EventView::EndOfRows,
            Event::Evaluated(value) => EventView::Evaluated(value@),
            Event::Rejected(reason) => EventView::Rejected(reason@),
            Event::SourceFailed(detail) => EventView::SourceFailed(detail@),
        }
    }
}

impl View for Action {
    type V = ActionView;

    open spec fn view(&self) -> ActionView {
        match self {
            Action::Rewind => ActionView::Rewind,
            Action::WriteHeader(row) => ActionView::WriteHeader(row.deep_view()),
            Action::ReadRow => ActionView::ReadRow,
            Action::Evaluate { case_fields, control_fields } => ActionView::Evaluate {
                case_fields: case_fields.deep_view(),
                control_fields: control_fields.deep_view(),
            },
            Action::WriteRow(row) => ActionView::WriteRow(row.deep_view()),
            Action::Finish => ActionView::Finish,
            Action::Halt => ActionView::Halt,
            Action::Nothing => ActionView::Nothing,
        }
    }
}

/// The state in which every run begins.
pub open spec fn initial() -> Machine {
    Machine {
        stage: StageView::Start,
        control_names: Seq::empty(),
        case_names: Seq::empty(),
        issued: 0,
    }
}

/// The machine `m` moved to `stage`, all else unchanged.
pub open spec fn at_stage(m: Machine, stage: StageView) -> Machine {
    Machine { stage, ..m }
}

/// The machine `m` stopped for `reason`.
pub open spec fn failed(m: Machine, reason: ErrorView) -> (Machine, ActionView) {
    (at_stage(m, StageView::Failed(reason)), ActionView::Halt)
}

/// The transition function of a run: the state after an event, and the
/// action that the driver owes next.
///
/// `Done` and `Failed` are terminal. In any other state a failure of a
/// source or of the sink ends the run. Otherwise each state awaits the
/// answer to the action that led to it, and an event that is not awaited
/// changes nothing.
///
/// The value pass has to deliver as many rows as the name pass found
/// names: a row too many, or an end too early, is an alignment mismatch.
pub open spec fn transition(m: Machine, event: EventView) -> (Machine, ActionView) {
    match (m.stage, event) {
        (StageView::Done, _) => (m, ActionView::Nothing),
        (StageView::Failed(_), _) => (m, ActionView::Nothing),
        (_, EventView::SourceFailed(detail)) => failed(m, ErrorView::Io(detail)),
        (StageView::Start, EventView::NamesRead { control_names, case_names }) => (
            Machine { stage: StageView::NamesExtracted, control_names, case_names, issued: 0 },
            ActionView::Rewind,
        ),
        (StageView::NamesExtracted, EventView::Completed) => {
            if aligned(m.control_names, m.case_names) {
                (at_stage(m, StageView::Validated), ActionView::WriteHeader(header()))
            } else {
                failed(m, ErrorView::AlignmentMismatch)
            }
        },
        (StageView::Validated, EventView::Completed) => (
            at_stage(m, StageView::Processing(Task::Read)),
            ActionView::ReadRow,
        ),
        (StageView::Processing(Task::Read), EventView::RowRead { case_record, control_record }) => {
            if m.issued < m.control_names.len() {
                (
                    at_stage(m, StageView::Processing(Task::Evaluate)),
                    ActionView::Evaluate {
                        case_fields: sample_fields_of(case_record),
                        control_fields: sample_fields_of(control_record),
                    },
                )
            } else {
                failed(m, ErrorView::AlignmentMismatch)
            }
        },
        (StageView::Processing(Task::Read), EventView::EndOfRows) => {
            if m.issued == m.control_names.len() {
                (at_stage(m, StageView::Done), ActionView::Finish)
            } else {
                failed(m, ErrorView::AlignmentMismatch)
            }
        },
        (StageView::Processing(Task::Evaluate), EventView::Evaluated(value)) => (
            Machine { stage: StageView::Processing(Task::Write), issued: m.issued + 1, ..m },
            ActionView::WriteRow(result_row_of(m.control_names[m.issued as int], value)),
        ),
        (StageView::Processing(Task::Evaluate), EventView::Rejected(reason)) => failed(m, reason),
        (StageView::Processing(Task::Write), EventView::Completed) => (
            at_stage(m, StageView::Processing(Task::Read)),
            ActionView::ReadRow,
        ),
        _ => (m, ActionView::Nothing),
    }
}

/// What holds of every state that a run can reach: names are only held
/// once read, rows are only under way once the names are aligned, and no
/// more rows are handed out than there are names.
pub open spec fn well_formed(m: Machine) -> bool {
    match m.stage {
        StageView::Start => {
            &&& m.control_names.len() == 0
            &&& m.case_names.len() == 0
            &&& m.issued == 0
        },
        StageView::NamesExtracted => m.issued == 0,
        StageView::Validated => m.issued == 0 && aligned(m.control_names, m.case_names),
        StageView::Processing(Task::Read) => {
            &&& m.issued <= m.control_names.len()
            &&& aligned(m.control_names, m.case_names)
        },
        StageView::Processing(Task::Evaluate) => {
            &&& m.issued < m.control_names.len()
            &&& aligned(m.control_names, m.case_names)
        },
        StageView::Processing(Task::Write) => {
            &&& 1 <= m.issued <= m.control_names.len()
            &&& aligned(m.control_names, m.case_names)
        },
        StageView::Done => {
            &&& m.issued == m.control_names.len()
            &&& aligned(m.control_names, m.case_names)
        },
        StageView::Failed(_) => m.issued <= m.control_names.len(),
    }
}

/// The coordinator of one run: it holds the state, takes the driver's
/// events and answers each with the next action. It reads no input and
/// writes no output itself.
#[derive(Debug)]
pub struct Coordinator {
    stage: Stage,
    control_names: Vec<String>,
    case_names: Vec<String>,
    issued: usize,
}

impl View for Coordinator {
    type V = Machine;

    closed spec fn view(&self) -> Machine {
        Machine {
            stage: self.stage@,
            control_names: self.control_names.deep_view(),
            case_names: self.case_names.deep_view(),
            issued: self.issued as nat,
        }
    }
}

impl Coordinator {
    #[verifier::type_invariant]
    spec fn reachable(self) -> bool {
        well_formed(self@)
    }

    /// A coordinator at the start of a run. The driver begins by reading
    /// the row names of both matrices and reports them with `NamesRead`.
    pub fn new() -> (coordinator: Coordinator)
        ensures
            coordinator@ == initial(),
    {
        let coordinator = Coordinator {
            stage: Stage::Start,
            control_names: Vec::new(),
            case_names: Vec::new(),
            issued: 0,
        };
        assert(coordinator@.control_names =~= Seq::empty());
        assert(coordinator@.case_names =~= Seq::empty());
        coordinator
    }

    /// Where the run stands.
    pub fn stage(&self) -> (stage: &Stage)
        ensures
            stage@ == self@.stage,
    {
        &self.stage
    }

    /// Gives up the coordinator for the stage it is in, and with it the
    /// reason of a failed run.
    pub fn into_stage(self) -> (stage: Stage)
        ensures
            stage@ == self@.stage,
    {
        self.stage
    }

    /// The names of the result rows: the row names of the control matrix.
    pub fn row_names(&self) -> (names: &Vec<String>)
        ensures
            names.deep_view() == self@.control_names,
    {
        &self.control_names
    }

    /// How many result rows have been handed out for writing.
    pub fn rows_issued(&self) -> (count: usize)
        ensures
            count == self@.issued,
    {
        self.issued
    }

    /// Takes one event and answers with the state that follows and the
    /// action that the driver owes next, as `transition` defines them.
    pub fn step(self, event: Event) -> (next: (Coordinator, Action))
        ensures
            next.0@ == transition(self@, event@).0,
            next.1@ == transition(self@, event@).1,
            well_formed(self@),
            well_formed(next.0@),
    {
        proof {
            use_type_invariant(&self);
        }
        let Coordinator { stage, control_names, case_names, issued } = self;
        match (stage, event) {
            (Stage::Done, _) => (
                Coordinator { stage: Stage::Done, control_names, case_names, issued },
                Action::Nothing,
            ),
            (Stage::Failed(reason), _) => (
                Coordinator { stage: Stage::Failed(reason), control_names, case_names, issued },
                Action::Nothing,
            ),
            (_, Event::SourceFailed(detail)) => (
                Coordinator {
                    stage: Stage::Failed(PipelineError::Io(detail)),
                    control_names,
                    case_names,
                    issued,
                },
                Action::Halt,
            ),
            (Stage::Start, Event::NamesRead { control_names: control, case_names: case }) => (
                Coordinator {
                    stage: Stage::NamesExtracted,
                    control_names: control,
                    case_names: case,
                    issued: 0,
                },
                Action::Rewind,
            ),
            (Stage::NamesExtracted, Event::Completed) => {
                if validate_alignment(&control_names, &case_names) {
                    (
                        Coordinator { stage: Stage::Validated, control_names, case_names, issued },
                        Action::WriteHeader(header_row()),
                    )
                } else {
                    (
                        Coordinator {
                            stage: Stage::Failed(PipelineError::AlignmentMismatch),
                            control_names,
                            case_names,
                            issued,
                        },
                        Action::Halt,
                    )
                }
            },
            (Stage::Validated, Event::Completed) => (
                Coordinator {
                    stage: Stage::Processing(Task::Read),
                    control_names,
                    case_names,
                    issued,
                },
                Action::ReadRow,
            ),
            (Stage::Processing(Task::Read), Event::RowRead { case_record, control_record }) => {
                if issued < control_names.len() {
                    (
                        Coordinator {
                            stage: Stage::Processing(Task::Evaluate),
                            control_names,
                            case_names,
                            issued,
                        },
                        Action::Evaluate {
                            case_fields: sample_fields(case_record),
                            control_fields: sample_fields(control_record),
                        },
                    )
                } else {
                    (
                        Coordinator {
                            stage: Stage::Failed(PipelineError::AlignmentMismatch),
                            control_names,
                            case_names,
                            issued,
                        },
                        Action::Halt,
                    )
                }
            },
            (Stage::Processing(Task::Read), Event::EndOfRows) => {
                if issued == control_names.len() {
                    (
                        Coordinator { stage: Stage::Done, control_names, case_names, issued },
                        Action::Finish,
                    )
                } else {
                    (
                        Coordinator {
                            stage: Stage::Failed(PipelineError::AlignmentMismatch),
                            control_names,
                            case_names,
                            issued,
                        },
                        Action::Halt,
                    )
                }
            },
            (Stage::Processing(Task::Evaluate), Event::Evaluated(value)) => {
                let name = control_names[issued].clone();
                assert(issued < control_names.len());
                (
                    Coordinator {
                        stage: Stage::Processing(Task::Write),
                        control_names,
                        case_names,
                        issued: issued + 1,
                    },
                    Action::WriteRow(result_row(name, value)),
                )
            },
            (Stage::Processing(Task::Evaluate), Event::Rejected(reason)) => (
                Coordinator { stage: Stage::Failed(reason), control_names, case_names, issued },
                Action::Halt,
            ),
            (Stage::Processing(Task::Write), Event::Completed) => (
                Coordinator {
                    stage: Stage::Processing(Task::Read),
                    control_names,
                    case_names,
                    issued,
                },
                Action::ReadRow,
            ),
            (stage, _) => (Coordinator { stage, control_names, case_names, issued }, Action::Nothing),
        }
    }
}

} // verus!
