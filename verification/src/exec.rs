use vstd::prelude::*;
use vstd::string::*;
use crate::text::texts;

verus! {

/// How one external command is carried out.
#[derive(Clone, Copy, Debug, PartialEq, Eq, Structural)]
pub enum Mode {
    /// Show the command line and spawn nothing.
    DryRun,
    /// Show the command line, ask for a yes or no, and run only on a yes.
    Prompt,
    /// Run with the output passed through; a nonzero exit is an error.
    CheckErr,
    /// Run with the standard output captured; a nonzero exit is an error.
    Mute,
}

/// What is done with a process once it has ended.
#[derive(Clone, Debug, PartialEq, Eq)]
pub enum Check {
    /// Only the exit status counts.
    Status,
    /// The captured listing is cut down to the lines that every pattern
    /// matches.
    Matching { patterns: Vec<String> },
    /// The captured error text is searched for the backend's complaint that
    /// it does not know the subcommand.
    Plugin,
}

/// What a [`Check`] stands for in contracts.
pub enum CheckView {
    Status,
    Matching { patterns: Seq<Seq<char>> },
    Plugin,
}

impl View for Check {
    type V = CheckView;

    open spec fn view(&self) -> CheckView {
        match *self {
            Check::Status => CheckView::Status,
            Check::Matching { patterns } => CheckView::Matching { patterns: patterns.deep_view() },
            Check::Plugin => CheckView::Plugin,
        }
    }
}

/// One external command: the program, its words, the mode it runs under and
/// the check that follows it.
#[derive(Clone, Debug, PartialEq, Eq)]
pub struct Step {
    pub program: String,
    pub subcmd: Vec<String>,
    pub kws: Vec<String>,
    pub flags: Vec<String>,
    pub mode: Mode,
    pub check: Check,
}

/// What a [`Step`] stands for in contracts.
pub struct StepView {
    pub program: Seq<char>,
    pub subcmd: Seq<Seq<char>>,
    pub kws: Seq<Seq<char>>,
    pub flags: Seq<Seq<char>>,
    pub mode: Mode,
    pub check: CheckView,
}

impl View for Step {
    type V = StepView;

    open spec fn view(&self) -> StepView {
        StepView {
            program: self.program@,
            subcmd: self.subcmd.deep_view(),
            kws: self.kws.deep_view(),
            flags: self.flags.deep_view(),
            mode: self.mode,
            check: self.check@,
        }
    }
}

/// The views of a sequence of steps, in order.
pub open spec fn views(steps: Seq<Step>) -> Seq<StepView> {
    Seq::new(steps.len(), |i: int| steps[i]@)
}

/// Every word with a space before it, one after the other.
pub open spec fn spaced(words: Seq<Seq<char>>) -> Seq<char>
    decreases words.len(),
{
    if words.len() == 0 {
        Seq::empty()
    } else {
        spaced(words.drop_last()) + seq![' '] + words.last()
    }
}

impl StepView {
    /// The arguments handed to the program: subcommand words, then
    /// keywords, then flags.
    pub open spec fn args(self) -> Seq<Seq<char>> {
        self.subcmd + self.kws + self.flags
    }

    /// The command line as it is shown: the program and its arguments with
    /// one space between neighbours.
    pub open spec fn line(self) -> Seq<char> {
        self.program + spaced(self.args())
    }
}

/// Copies borrowed words into owned strings, keeping their order.
pub fn owned(words: &[&str]) -> (out: Vec<String>)
    ensures
        out.deep_view() == texts(words@),
{
    let mut out: Vec<String> = Vec::new();
    let n: usize = words.len();
    let mut i: usize = 0;
    while i < n
        invariant
            n == words@.len(),
            i <= n,
            out@.len() == i,
            forall|j: int| 0 <= j < i ==> (#[trigger] out@[j])@ == words@[j]@,
        decreases n - i,
    {
        out.push(words[i].to_owned());
        i = i + 1;
    }
    assert(out.deep_view() =~= texts(words@));
    out
}

/// Appends copies of `words` to `out`.
pub fn extend_words(out: &mut Vec<String>, words: &Vec<String>)
    ensures
        final(out).deep_view() == old(out).deep_view() + words.deep_view(),
{
    let ghost before = out.deep_view();
    let n: usize = words.len();
    let mut i: usize = 0;
    while i < n
        invariant
            n == words@.len(),
            i <= n,
            out.deep_view() == before + words.deep_view().take(i as int),
        decreases n - i,
    {
        let ghost held = out.deep_view();
        out.push(words[i].clone());
        assert(out.deep_view() =~= held.push(words@[i as int]@));
        assert(words.deep_view().take(i + 1) =~= words.deep_view().take(i as int).push(
            words@[i as int]@,
        ));
        i = i + 1;
    }
    assert(words.deep_view().take(n as int) =~= words.deep_view());
}

/// Appends every word of `words` to `line`, each behind one space.
fn push_spaced(line: &mut String, words: &Vec<String>)
    ensures
        final(line)@ == old(line)@ + spaced(words.deep_view()),
{
    let ghost before = line@;
    let n: usize = words.len();
    let mut i: usize = 0;
    proof {
        reveal_strlit(" ");
        assert(words.deep_view().take(0).len() == 0);
        assert(line@ =~= before + spaced(words.deep_view().take(0)));
    }
    while i < n
        invariant
            n == words@.len(),
            i <= n,
            " "@ == seq![' '],
            line@ == before + spaced(words.deep_view().take(i as int)),
        decreases n - i,
    {
        line.append(" ");
        line.append(words[i].as_str());
        proof {
            let upto = words.deep_view().take(i + 1);
            assert(upto.drop_last() =~= words.deep_view().take(i as int));
            assert(upto.last() == words@[i as int]@);
            assert(line@ =~= before + spaced(upto));
        }
        i = i + 1;
    }
    assert(words.deep_view().take(n as int) =~= words.deep_view());
}

impl Step {
    /// The command line as it is shown to the user.
    pub fn line(&self) -> (line: String)
        ensures
            line@ == self@.line(),
    {
        let args = self.args();
        let mut line = self.program.clone();
        push_spaced(&mut line, &args);
        line
    }

    /// The arguments handed to the program.
    pub fn args(&self) -> (args: Vec<String>)
        ensures
            args.deep_view() == self@.args(),
    {
        let mut all: Vec<String> = Vec::new();
        extend_words(&mut all, &self.subcmd);
        extend_words(&mut all, &self.kws);
        extend_words(&mut all, &self.flags);
        assert(all.deep_view() =~= self@.args());
        all
    }
}

} // verus!
