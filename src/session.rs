use vstd::prelude::*;
use vstd::string::StringExecFns;
use crate::config::{Config, ConfigModel};
use crate::emit::{formatted_line, is_nonblank, LineCounter};

verus! {

/// The diagnostic written when the input `name` cannot be opened for `cause`.
pub open spec fn open_failure_text(name: Seq<char>, cause: Seq<char>) -> Seq<char> {
    "Failed to open "@ + name + ": "@ + cause
}

/// Builds the diagnostic for an input that could not be opened.
pub fn open_failure_message(name: &String, cause: &String) -> (r: String)
    ensures
        r@ == open_failure_text(name@, cause@),
{
    let mut out = String::from_str("Failed to open ");
    out.append(name.as_str());
    out.append(": ");
    out.append(cause.as_str());
    out
}

/// Where a run stands.
#[derive(Debug, Clone, Copy, PartialEq, Eq, Structural)]
pub enum Phase {
    /// The current input is to be opened.
    Opening,
    /// The current input is open and its lines are being read.
    Reading,
    /// The run is over.
    Finished,
}

/// What the caller does next.
#[derive(Debug, Clone, Copy, PartialEq, Eq, Structural)]
pub enum Next {
    /// Open the current input and report `Opened` or `OpenFailed`.
    Open,
    /// Read the next line of the current input and report `Line`,
    /// `ReadFailed` or `EndOfSource`.
    ReadLine,
    /// End the process with this exit status.
    Exit(i32),
}

/// What happened when the caller carried out the last `Next`.
pub enum Event {
    /// The current input was opened.
    Opened,
    /// The current input could not be opened, for the cause given.
    OpenFailed(String),
    /// A line was read, with its line boundary stripped.
    Line(String),
    /// Reading a line failed, with the message given.
    ReadFailed(String),
    /// The current input has no more lines.
    EndOfSource,
}

/// An `Event` as plain values.
pub enum EventModel {
    Opened,
    OpenFailed(Seq<char>),
    Line(Seq<char>),
    ReadFailed(Seq<char>),
    EndOfSource,
}

impl View for Event {
    type V = EventModel;

    open spec fn view(&self) -> EventModel {
        match self {
            Event::Opened => EventModel::Opened,
            Event::OpenFailed(c) => EventModel::OpenFailed(c@),
            Event::Line(t) => EventModel::Line(t@),
            Event::ReadFailed(m) => EventModel::ReadFailed(m@),
            Event::EndOfSource => EventModel::EndOfSource,
        }
    }
}

/// What one step asks of the caller: text for standard output, text for
/// standard error, and what to do next.
pub struct Step {
    pub stdout: Option<String>,
    pub stderr: Option<String>,
    pub next: Next,
}

/// A `Step` as plain values.
pub struct StepModel {
    pub stdout: Option<Seq<char>>,
    pub stderr: Option<Seq<char>>,
    pub next: Next,
}

impl View for Step {
    type V = StepModel;

    open spec fn view(&self) -> StepModel {
        StepModel {
            stdout: match self.stdout {
                Some(s) => Some(s@),
                None => None,
            },
            stderr: match self.stderr {
                Some(s) => Some(s@),
                None => None,
            },
            next: self.next,
        }
    }
}

/// The state of a run as plain values: the configuration, the index of the
/// current input, the counters of that input and the phase.
pub struct SessionModel {
    pub config: ConfigModel,
    pub index: nat,
    pub lines: nat,
    pub nonblank: nat,
    pub phase: Phase,
}

impl SessionModel {
    /// A valid configuration, and a current input whenever the run is not
    /// over.
    pub open spec fn wf(self) -> bool {
        &&& self.config.wf()
        &&& self.phase != Phase::Finished ==> self.index < self.config.files.len()
    }

    /// Whether `e` is an answer to what this state last asked for.
    pub open spec fn accepts(self, e: EventModel) -> bool {
        match self.phase {
            Phase::Opening => e is Opened || e is OpenFailed,
            Phase::Reading => e is Line || e is ReadFailed || e is EndOfSource,
            Phase::Finished => false,
        }
    }

    /// The name of the current input.
    pub open spec fn current_name(self) -> Seq<char> {
        self.config.files[self.index as int]
    }

    /// The state after the current input is done with: the next input is to
    /// be opened, or the run is over when there is none.
    pub open spec fn advanced(self) -> SessionModel {
        if self.index + 1 < self.config.files.len() {
            SessionModel { index: self.index + 1, lines: 0, nonblank: 0, phase: Phase::Opening, ..self }
        } else {
            SessionModel { index: self.index + 1, lines: 0, nonblank: 0, phase: Phase::Finished, ..self }
        }
    }

    /// What is done after the current input: open the next, or exit with
    /// success.
    pub open spec fn next_after_input(self) -> Next {
        if self.index + 1 < self.config.files.len() {
            Next::Open
        } else {
            Next::Exit(0)
        }
    }
}

/// The state that a run starts in under `c`: its first input is to be opened.
pub open spec fn initial(c: ConfigModel) -> SessionModel {
    SessionModel { config: c, index: 0, lines: 0, nonblank: 0, phase: Phase::Opening }
}

/// One step of a run: the state after `e` and what is asked of the caller.
pub open spec fn transition(s: SessionModel, e: EventModel) -> (SessionModel, StepModel) {
    match e {
        EventModel::Opened => (
            SessionModel { phase: Phase::Reading, lines: 0, nonblank: 0, ..s },
            StepModel { stdout: None, stderr: None, next: Next::ReadLine },
        ),
        EventModel::OpenFailed(cause) => (
            s.advanced(),
            StepModel {
                stdout: None,
                stderr: Some(open_failure_text(s.current_name(), cause)),
                next: s.next_after_input(),
            },
        ),
        EventModel::Line(text) => {
            let lines = s.lines + 1;
            let nonblank = s.nonblank + if is_nonblank(text) { 1nat } else { 0nat };
            (
                SessionModel { lines, nonblank, ..s },
                StepModel {
                    stdout: Some(formatted_line(s.config, lines, nonblank, text)),
                    stderr: None,
                    next: Next::ReadLine,
                },
            )
        },
        EventModel::ReadFailed(message) => (
            SessionModel { phase: Phase::Finished, ..s },
            StepModel { stdout: None, stderr: Some(message), next: Next::Exit(1) },
        ),
        EventModel::EndOfSource => (
            s.advanced(),
            StepModel { stdout: None, stderr: None, next: s.next_after_input() },
        ),
    }
}

/// The steps of a run from state `s` on the events `es`, up to the first event
/// that `s` does not accept.
pub open spec fn run_steps(s: SessionModel, es: Seq<EventModel>) -> Seq<StepModel>
    decreases es.len(),
{
    if es.len() == 0 || !s.accepts(es[0]) {
        Seq::empty()
    } else {
        let (s2, st) = transition(s, es[0]);
        seq![st] + run_steps(s2, es.drop_first())
    }
}

} // verus!

verus! {

/// A run over the inputs of a configuration. It decides what is written and
/// when the run ends; the caller opens inputs, reads lines and writes, and
/// reports back what happened.
pub struct Session {
    config: Config,
    index: usize,
    counter: LineCounter,
    phase: Phase,
}

impl View for Session {
    type V = SessionModel;

    closed spec fn view(&self) -> SessionModel {
        SessionModel {
            config: self.config@,
            index: self.index as nat,
            lines: self.counter@.lines,
            nonblank: self.counter@.nonblank,
            phase: self.phase,
        }
    }
}

impl Session {
    #[verifier::type_invariant]
    spec fn inv(&self) -> bool {
        self@.wf()
    }

    /// A run that starts with the first input of `config`.
    pub fn new(config: Config) -> (r: Session)
        ensures
            r@ == initial(config@),
    {
        proof {
            use_type_invariant(&config);
        }
        Session { config, index: 0, counter: LineCounter::new(), phase: Phase::Opening }
    }

    /// The configuration of the run.
    pub fn config(&self) -> (r: &Config)
        ensures
            r@ == self@.config,
    {
        &self.config
    }

    /// Where the run stands.
    pub fn phase(&self) -> (r: Phase)
        ensures
            r == self@.phase,
    {
        self.phase
    }

    /// Lines of the current input read so far.
    pub fn lines_read(&self) -> (r: u64)
        ensures
            r == self@.lines,
    {
        self.counter.lines()
    }

    /// The name of the input that is being opened or read.
    pub fn current_name(&self) -> (r: &String)
        requires
            self@.phase != Phase::Finished,
        ensures
            r@ == self@.current_name(),
    {
        proof {
            use_type_invariant(self);
        }
        &self.config.files()[self.index]
    }

    /// Moves on from the current input.
    fn advance(&mut self) -> (r: Next)
        requires
            old(self)@.phase != Phase::Finished,
        ensures
            final(self)@ == old(self)@.advanced(),
            r == old(self)@.next_after_input(),
    {
        proof {
            use_type_invariant(&*self);
        }
        let count = self.config.files().len();
        let index = self.index + 1;
        self.counter = LineCounter::new();
        if index < count {
            self.index = index;
            self.phase = Phase::Opening;
            Next::Open
        } else {
            self.phase = Phase::Finished;
            self.index = index;
            Next::Exit(0)
        }
    }

    /// Takes in what happened and says what to write and what to do next.
    pub fn step(&mut self, event: Event) -> (r: Step)
        requires
            old(self)@.accepts(event@),
            event is Line ==> old(self)@.lines < u64::MAX,
        ensures
            (final(self)@, r@) == transition(old(self)@, event@),
    {
        proof {
            use_type_invariant(&*self);
        }
        match event {
            Event::Opened => {
                self.counter = LineCounter::new();
                self.phase = Phase::Reading;
                Step { stdout: None, stderr: None, next: Next::ReadLine }
            },
            Event::OpenFailed(cause) => {
                let message = open_failure_message(self.current_name(), &cause);
                let next = self.advance();
                Step { stdout: None, stderr: Some(message), next }
            },
            Event::Line(text) => {
                let mut counter = self.counter;
                let out = counter.format_line(&self.config, &text);
                self.counter = counter;
                Step { stdout: Some(out), stderr: None, next: Next::ReadLine }
            },
            Event::ReadFailed(message) => {
                self.phase = Phase::Finished;
                Step { stdout: None, stderr: Some(message), next: Next::Exit(1) }
            },
            Event::EndOfSource => {
                let next = self.advance();
                Step { stdout: None, stderr: None, next }
            },
        }
    }
}

} // verus!

verus! {

/// An input that cannot be opened is reported on standard error under its
/// exact name, nothing is written to standard output for it, and the run goes
/// on with the next input, or ends with success when it was the last.
pub proof fn lemma_open_failure_is_reported_and_skipped(s: SessionModel, cause: Seq<char>)
    requires
        s.wf(),
        s.phase == Phase::Opening,
    ensures
        ({
            let (s2, st) = transition(s, EventModel::OpenFailed(cause));
            &&& st.stdout is None
            &&& st.stderr == Some(open_failure_text(s.current_name(), cause))
            &&& s2.wf()
            &&& s2.index == s.index + 1
            &&& s.index + 1 < s.config.files.len() ==> st.next == Next::Open && s2.phase == Phase::Opening
            &&& s.index + 1 == s.config.files.len() ==> st.next == Next::Exit(0) && s2.phase == Phase::Finished
        }),
{
}

/// A run ends with a failing status only on a read error: on events that hold
/// none, no step asks to exit with status 1.
pub proof fn lemma_exit_failure_only_on_read_error(s: SessionModel, es: Seq<EventModel>)
    requires
        forall|i: int| 0 <= i < es.len() ==> !(#[trigger] es[i] is ReadFailed),
    ensures
        forall|k: int| 0 <= k < run_steps(s, es).len() ==> #[trigger] run_steps(s, es)[k].next != Next::Exit(1),
    decreases es.len(),
{
    if es.len() > 0 && s.accepts(es[0]) {
        let (s2, st) = transition(s, es[0]);
        let rest = es.drop_first();
        assert forall|i: int| 0 <= i < rest.len() implies !(#[trigger] rest[i] is ReadFailed) by {
            assert(rest[i] == es[i + 1]);
        }
        lemma_exit_failure_only_on_read_error(s2, rest);
        assert(!(es[0] is ReadFailed));
        assert forall|k: int| 0 <= k < run_steps(s, es).len() implies #[trigger] run_steps(s, es)[k].next != Next::Exit(1) by {
            if k > 0 {
                assert(run_steps(s, es)[k] == run_steps(s2, rest)[k - 1]);
            }
        }
    }
}

} // verus!
