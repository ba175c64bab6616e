use vstd::prelude::*;
use vstd::string::*;
use crate::error::{result_view, BrewError, BrewErrorView};
use crate::exec::{views, Mode, Step, StepView};
use crate::judge::{judge, judged, Exit, ExitView};

verus! {

/// What the host is asked to do next.
#[derive(Debug, PartialEq, Eq)]
pub enum Action {
    /// Show the command line. Nothing is spawned.
    Preview { line: String },
    /// Show the command line and ask for a yes or no.
    Confirm { line: String },
    /// Show the command line, then run the program with the arguments and
    /// wait for it. The standard error is captured; the standard output is
    /// captured where `quiet` is set and passed through where it is not.
    Spawn { line: String, program: String, args: Vec<String>, quiet: bool },
    /// Nothing is left to do: the operation ended with `result`.
    Finish { result: Result<(), BrewError> },
}

/// What an [`Action`] stands for in contracts.
pub enum ActionView {
    Preview { line: Seq<char> },
    Confirm { line: Seq<char> },
    Spawn { line: Seq<char>, program: Seq<char>, args: Seq<Seq<char>>, quiet: bool },
    Finish { result: Result<(), BrewErrorView> },
}

impl View for Action {
    type V = ActionView;

    open spec fn view(&self) -> ActionView {
        match *self {
            Action::Preview { line } => ActionView::Preview { line: line@ },
            Action::Confirm { line } => ActionView::Confirm { line: line@ },
            Action::Spawn { line, program, args, quiet } => ActionView::Spawn {
                line: line@,
                program: program@,
                args: args.deep_view(),
                quiet,
            },
            Action::Finish { result } => ActionView::Finish { result: result_view(result) },
        }
    }
}

/// What the host reports back.
#[derive(Debug, PartialEq, Eq)]
pub enum Event {
    /// The command line of a preview was shown.
    Previewed,
    /// The user answered the question: `true` for yes.
    Answered(bool),
    /// The program that was spawned has ended.
    Exited(Exit),
}

/// What an [`Event`] stands for in contracts.
pub enum EventView {
    Previewed,
    Answered(bool),
    Exited(ExitView),
}

impl View for Event {
    type V = EventView;

    open spec fn view(&self) -> EventView {
        match *self {
            Event::Previewed => EventView::Previewed,
            Event::Answered(yes) => EventView::Answered(yes),
            Event::Exited(exit) => EventView::Exited(exit@),
        }
    }
}

/// The answer to an event: lines to print, notices to show, and then the
/// next action.
#[derive(Debug, PartialEq, Eq)]
pub struct Turn {
    pub output: Vec<String>,
    pub notes: Vec<String>,
    pub next: Action,
}

/// What a [`Turn`] stands for in contracts.
pub struct TurnView {
    pub output: Seq<Seq<char>>,
    pub notes: Seq<Seq<char>>,
    pub next: ActionView,
}

impl View for Turn {
    type V = TurnView;

    open spec fn view(&self) -> TurnView {
        TurnView {
            output: self.output.deep_view(),
            notes: self.notes.deep_view(),
            next: self.next@,
        }
    }
}

/// One operation under way: its plan, the step in hand, whether the user
/// has agreed to that step, and the result once the operation is over.
#[derive(Debug)]
pub struct Run {
    steps: Vec<Step>,
    at: usize,
    approved: bool,
    over: Option<Result<(), BrewError>>,
}

/// What a [`Run`] stands for in contracts: the plan, the index of the step
/// in hand, whether the user has agreed to it, and the result once the run
/// is over.
pub struct RunView {
    pub steps: Seq<StepView>,
    pub at: int,
    pub approved: bool,
    pub over: Option<Result<(), BrewErrorView>>,
}

impl View for Run {
    type V = RunView;

    closed spec fn view(&self) -> RunView {
        RunView {
            steps: views(self.steps@),
            at: self.at as int,
            approved: self.approved,
            over: match self.over {
                Some(result) => Some(result_view(result)),
                None => None,
            },
        }
    }
}

/// The action that spawns the step's program.
pub open spec fn spawning(step: StepView, quiet: bool) -> ActionView {
    ActionView::Spawn { line: step.line(), program: step.program, args: step.args(), quiet }
}

/// The action that a step asks for, by its mode: a preview under `DryRun`;
/// under `Prompt` the question, and the program once the user has agreed;
/// the program under `CheckErr`; the program with its output captured under
/// `Mute`.
pub open spec fn opening(step: StepView, approved: bool) -> ActionView {
    match step.mode {
        Mode::DryRun => ActionView::Preview { line: step.line() },
        Mode::Prompt => if approved {
            spawning(step, false)
        } else {
            ActionView::Confirm { line: step.line() }
        },
        Mode::CheckErr => spawning(step, false),
        Mode::Mute => spawning(step, true),
    }
}

impl RunView {
    /// The run at the start of a plan.
    pub open spec fn fresh(steps: Seq<StepView>) -> RunView {
        RunView { steps, at: 0, approved: false, over: None }
    }

    /// A step is in hand.
    pub open spec fn busy(self) -> bool {
        self.over is None && 0 <= self.at < self.steps.len()
    }

    /// The action that the run waits for: the result once it is over or
    /// past its last step, and otherwise what the step in hand asks for.
    pub open spec fn pending(self) -> ActionView {
        if let Some(result) = self.over {
            ActionView::Finish { result }
        } else if self.busy() {
            opening(self.steps[self.at], self.approved)
        } else {
            ActionView::Finish { result: Ok(()) }
        }
    }

    /// The run with the next step in hand.
    pub open spec fn advanced(self) -> RunView {
        RunView { at: self.at + 1, approved: false, ..self }
    }

    /// The run ended with `result`.
    pub open spec fn ended(self, result: Result<(), BrewErrorView>) -> RunView {
        RunView { over: Some(result), ..self }
    }

    /// The run after an event. An event that answers the pending action
    /// moves the run: a preview that was shown and a program that ended
    /// well bring the next step; a yes lets the step's program run; a no
    /// ends the run without an error; a program that ended badly ends the
    /// run with its error. Any other event leaves the run as it is.
    pub open spec fn after(self, event: EventView) -> RunView {
        match (self.pending(), event) {
            (ActionView::Preview { .. }, EventView::Previewed) => self.advanced(),
            (ActionView::Confirm { .. }, EventView::Answered(yes)) => if yes {
                RunView { approved: true, ..self }
            } else {
                self.ended(Ok(()))
            },
            (ActionView::Spawn { .. }, EventView::Exited(exit)) => match judged(
                self.steps[self.at],
                exit,
            ).result {
                Ok(()) => self.advanced(),
                Err(e) => self.ended(Err(e)),
            },
            _ => self,
        }
    }

    /// The answer to an event: what the report on an ended program shows,
    /// and the action that is pending afterwards.
    pub open spec fn turn(self, event: EventView) -> TurnView {
        match (self.pending(), event) {
            (ActionView::Spawn { .. }, EventView::Exited(exit)) => {
                let report = judged(self.steps[self.at], exit);
                TurnView {
                    output: report.output,
                    notes: report.notes,
                    next: self.after(event).pending(),
                }
            },
            _ => TurnView {
                output: Seq::empty(),
                notes: Seq::empty(),
                next: self.after(event).pending(),
            },
        }
    }
}

/// A copy of an error.
pub fn copy_error(e: &BrewError) -> (out: BrewError)
    ensures
        out@ == e@,
{
    match e {
        BrewError::CommandFailure { program, code } => BrewError::CommandFailure {
            program: program.clone(),
            code: *code,
        },
        BrewError::TextDecodeFailure => BrewError::TextDecodeFailure,
        BrewError::RequiredOptionalComponentMissing => BrewError::RequiredOptionalComponentMissing,
        BrewError::InvalidFilterPattern { pattern } => BrewError::InvalidFilterPattern {
            pattern: pattern.clone(),
        },
    }
}

/// A copy of a result.
pub fn copy_result(result: &Result<(), BrewError>) -> (out: Result<(), BrewError>)
    ensures
        result_view(out) == result_view(*result),
{
    match result {
        Ok(()) => Ok(()),
        Err(e) => Err(copy_error(e)),
    }
}

impl Step {
    /// The action that spawns the step's program.
    pub fn spawn(&self, quiet: bool) -> (action: Action)
        ensures
            action@ == spawning(self@, quiet),
    {
        Action::Spawn {
            line: self.line(),
            program: self.program.clone(),
            args: self.args(),
            quiet,
        }
    }

    /// The action that the step asks for, by its mode.
    pub fn open(&self, approved: bool) -> (action: Action)
        ensures
            action@ == opening(self@, approved),
    {
        match self.mode {
            Mode::DryRun => Action::Preview { line: self.line() },
            Mode::Prompt => if approved {
                self.spawn(false)
            } else {
                Action::Confirm { line: self.line() }
            },
            Mode::CheckErr => self.spawn(false),
            Mode::Mute => self.spawn(true),
        }
    }
}

impl Run {
    /// A run at the start of the plan `steps`.
    pub fn new(steps: Vec<Step>) -> (run: Run)
        ensures
            run@ == RunView::fresh(views(steps@)),
    {
        Run { steps, at: 0, approved: false, over: None }
    }

    /// The action that the run waits for.
    pub fn pending(&self) -> (action: Action)
        ensures
            action@ == self@.pending(),
    {
        match &self.over {
            Some(result) => Action::Finish { result: copy_result(result) },
            None => if self.at < self.steps.len() {
                self.steps[self.at].open(self.approved)
            } else {
                Action::Finish { result: Ok(()) }
            },
        }
    }

    /// Takes what the host reports and answers with what is to be shown and
    /// the next action.
    pub fn feed(&mut self, event: Event) -> (turn: Turn)
        ensures
            final(self)@ == old(self)@.after(event@),
            turn@ == old(self)@.turn(event@),
    {
        let mut output: Vec<String> = Vec::new();
        let mut notes: Vec<String> = Vec::new();
        assert(output.deep_view() =~= Seq::<Seq<char>>::empty());
        assert(notes.deep_view() =~= Seq::<Seq<char>>::empty());
        if self.over.is_none() && self.at < self.steps.len() {
            let mode = self.steps[self.at].mode;
            match event {
                Event::Previewed => {
                    if mode == Mode::DryRun {
                        self.at = self.at + 1;
                        self.approved = false;
                    }
                },
                Event::Answered(yes) => {
                    if mode == Mode::Prompt && !self.approved {
                        if yes {
                            self.approved = true;
                        } else {
                            self.over = Some(Ok(()));
                        }
                    }
                },
                Event::Exited(exit) => {
                    if mode == Mode::CheckErr || mode == Mode::Mute || (mode == Mode::Prompt
                        && self.approved) {
                        let report = judge(&self.steps[self.at], exit);
                        output = report.output;
                        notes = report.notes;
                        match report.result {
                            Ok(()) => {
                                self.at = self.at + 1;
                                self.approved = false;
                            },
                            Err(e) => {
                                self.over = Some(Err(e));
                            },
                        }
                    }
                },
            }
        }
        let next = self.pending();
        Turn { output, notes, next }
    }
}

} // verus!
