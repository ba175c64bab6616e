use vstd::prelude::*;
use vstd::string::*;
use vstd::utf8::*;
use crate::error::{result_view, BrewError, BrewErrorView};
use crate::exec::{Check, CheckView, Step, StepView};
use crate::filter::{
    accepts, accepts_all, all_compile, compile_all, compiles, filter_lines, first_invalid,
    matched_by,
};
use crate::pattern::compiled;
use crate::text::{from_utf8, lines_of};

verus! {

/// The pattern that recognises the backend's complaint about a subcommand
/// it does not know.
pub const PLUGIN_PATTERN: &'static str = "Unknown command: rmtree";

/// The first of the two lines shown when the plugin is absent.
pub const PLUGIN_ABSENT: &'static str =
    "`rmtree` is not installed. You may install it with the following command:";

/// The second of the two lines: the command that installs the plugin.
pub const PLUGIN_REMEDY: &'static str = "`brew tap beeftornado/rmtree`";

/// How a process ended, and what it wrote.
#[derive(Clone, Debug, PartialEq, Eq)]
pub struct Exit {
    /// The exit status; `None` where the process ended without one.
    pub code: Option<i32>,
    /// What was captured of the standard output.
    pub stdout: Vec<u8>,
    /// What was captured of the standard error.
    pub stderr: Vec<u8>,
}

/// What an [`Exit`] stands for in contracts.
pub struct ExitView {
    pub code: Option<i32>,
    pub stdout: Seq<u8>,
    pub stderr: Seq<u8>,
}

impl View for Exit {
    type V = ExitView;

    open spec fn view(&self) -> ExitView {
        ExitView { code: self.code, stdout: self.stdout@, stderr: self.stderr@ }
    }
}

/// What a finished step amounts to: the lines to print, the notices to
/// show before the result, and the result.
#[derive(Debug, PartialEq, Eq)]
pub struct Report {
    pub output: Vec<String>,
    pub notes: Vec<String>,
    pub result: Result<(), BrewError>,
}

/// What a [`Report`] stands for in contracts.
pub struct ReportView {
    pub output: Seq<Seq<char>>,
    pub notes: Seq<Seq<char>>,
    pub result: Result<(), BrewErrorView>,
}

impl View for Report {
    type V = ReportView;

    open spec fn view(&self) -> ReportView {
        ReportView {
            output: self.output.deep_view(),
            notes: self.notes.deep_view(),
            result: result_view(self.result),
        }
    }
}

/// What searching the captured error text for the complaint came to.
#[derive(Clone, Copy, Debug, PartialEq, Eq, Structural)]
pub enum Probe {
    /// The captured bytes are not valid UTF-8.
    Unreadable,
    /// The pattern for the complaint did not compile.
    PatternRefused,
    /// The backend complained that it does not know the subcommand.
    CommandUnknown,
    /// The text holds no such complaint.
    Clear,
}

/// A report that shows nothing.
pub open spec fn silent(result: Result<(), BrewErrorView>) -> ReportView {
    ReportView { output: Seq::empty(), notes: Seq::empty(), result }
}

/// The result that the exit status alone gives: success on zero, and a
/// `CommandFailure` with the program and the status otherwise.
pub open spec fn by_status(program: Seq<char>, code: Option<i32>) -> Result<(), BrewErrorView> {
    if code == Some(0i32) {
        Ok(())
    } else {
        Err(BrewErrorView::CommandFailure { program, code })
    }
}

/// The report on a captured listing: a failed process comes first, then
/// bytes that are no text, then a pattern that does not compile; otherwise
/// the lines that every pattern matches are the output.
pub open spec fn judged_listing(
    program: Seq<char>,
    patterns: Seq<Seq<char>>,
    exit: ExitView,
) -> ReportView {
    if exit.code != Some(0i32) {
        silent(by_status(program, exit.code))
    } else if !valid_utf8(exit.stdout) {
        silent(Err(BrewErrorView::TextDecodeFailure))
    } else if !all_compile(patterns) {
        silent(Err(BrewErrorView::InvalidFilterPattern { pattern: patterns[first_invalid(patterns)] }))
    } else {
        ReportView {
            output: lines_of(decode_utf8(exit.stdout)).filter(matched_by(patterns)),
            notes: Seq::empty(),
            result: Ok(()),
        }
    }
}

/// What searching the error text `stderr` for the complaint comes to.
pub open spec fn probe_of(stderr: Seq<u8>) -> Probe {
    if !valid_utf8(stderr) {
        Probe::Unreadable
    } else if !compiles(PLUGIN_PATTERN@) {
        Probe::PatternRefused
    } else if accepts(compiled(PLUGIN_PATTERN@)->Some_0, decode_utf8(stderr)) {
        Probe::CommandUnknown
    } else {
        Probe::Clear
    }
}

/// The report on a removal that needs the plugin, from the exit status and
/// the probe of the error text. The complaint outweighs the exit status:
/// it gives two notices and `RequiredOptionalComponentMissing`. Without it
/// the exit status decides, and on success an unreadable error text is a
/// `TextDecodeFailure`.
pub open spec fn judged_probe(program: Seq<char>, code: Option<i32>, probe: Probe) -> ReportView {
    match probe {
        Probe::CommandUnknown => ReportView {
            output: Seq::empty(),
            notes: seq![PLUGIN_ABSENT@, PLUGIN_REMEDY@],
            result: Err(BrewErrorView::RequiredOptionalComponentMissing),
        },
        Probe::PatternRefused => silent(
            Err(BrewErrorView::InvalidFilterPattern { pattern: PLUGIN_PATTERN@ }),
        ),
        Probe::Unreadable => if code != Some(0i32) {
            silent(by_status(program, code))
        } else {
            silent(Err(BrewErrorView::TextDecodeFailure))
        },
        Probe::Clear => silent(by_status(program, code)),
    }
}

/// The report on a finished step.
pub open spec fn judged(step: StepView, exit: ExitView) -> ReportView {
    match step.check {
        CheckView::Status => silent(by_status(step.program, exit.code)),
        CheckView::Matching { patterns } => judged_listing(step.program, patterns, exit),
        CheckView::Plugin => judged_probe(step.program, exit.code, probe_of(exit.stderr)),
    }
}

/// Whether the exit status is zero.
pub fn succeeded(code: Option<i32>) -> (yes: bool)
    ensures
        yes == (code == Some(0i32)),
{
    match code {
        Some(c) => c == 0,
        None => false,
    }
}

/// A report with nothing to show.
pub fn quiet_report(result: Result<(), BrewError>) -> (report: Report)
    ensures
        report@ == silent(result_view(result)),
{
    let report = Report { output: Vec::new(), notes: Vec::new(), result };
    assert(report.output.deep_view() =~= Seq::<Seq<char>>::empty());
    assert(report.notes.deep_view() =~= Seq::<Seq<char>>::empty());
    report
}

/// The result that the exit status alone gives.
pub fn check_status(program: &str, code: Option<i32>) -> (r: Result<(), BrewError>)
    ensures
        result_view(r) == by_status(program@, code),
{
    if succeeded(code) {
        Ok(())
    } else {
        Err(BrewError::CommandFailure { program: program.to_owned(), code })
    }
}

/// Judges a captured listing against the patterns.
pub fn judge_listing(program: &str, patterns: &Vec<String>, exit: Exit) -> (report: Report)
    ensures
        report@ == judged_listing(program@, patterns.deep_view(), exit@),
{
    if !succeeded(exit.code) {
        return quiet_report(check_status(program, exit.code));
    }
    match from_utf8(exit.stdout) {
        Err(_) => quiet_report(Err(BrewError::TextDecodeFailure)),
        Ok(text) => match filter_lines(text.as_str(), patterns) {
            Err(e) => quiet_report(Err(e)),
            Ok(lines) => {
                let report = Report { output: lines, notes: Vec::new(), result: Ok(()) };
                assert(report.notes.deep_view() =~= Seq::<Seq<char>>::empty());
                report
            },
        },
    }
}

/// Searches the captured error text for the complaint about an unknown
/// subcommand.
pub fn probe_plugin(stderr: Vec<u8>) -> (probe: Probe)
    ensures
        probe == probe_of(stderr@),
{
    match from_utf8(stderr) {
        Err(_) => Probe::Unreadable,
        Ok(text) => {
            let mut wanted: Vec<String> = Vec::new();
            wanted.push(String::from_str(PLUGIN_PATTERN));
            let ghost kws = wanted.deep_view();
            proof {
                assert(kws =~= seq![PLUGIN_PATTERN@]);
                assert(kws[0] == PLUGIN_PATTERN@);
                reveal_with_fuel(first_invalid, 2);
                assert(kws.drop_first().len() == 0);
            }
            match compile_all(&wanted) {
                Err(_) => Probe::PatternRefused,
                Ok(res) => {
                    proof {
                        assert(compiled(kws[0]) == Some(res@[0]));
                    }
                    if accepts_all(&res, text.as_str()) {
                        assert(accepts(res@[0], text@));
                        Probe::CommandUnknown
                    } else {
                        Probe::Clear
                    }
                },
            }
        },
    }
}

/// The report on a removal that needs the plugin, from the exit status and
/// the probe of the error text.
pub fn judge_probe(program: &str, code: Option<i32>, probe: Probe) -> (report: Report)
    ensures
        report@ == judged_probe(program@, code, probe),
{
    match probe {
        Probe::CommandUnknown => {
            let mut notes: Vec<String> = Vec::new();
            notes.push(String::from_str(PLUGIN_ABSENT));
            notes.push(String::from_str(PLUGIN_REMEDY));
            let report = Report {
                output: Vec::new(),
                notes,
                result: Err(BrewError::RequiredOptionalComponentMissing),
            };
            assert(report.output.deep_view() =~= Seq::<Seq<char>>::empty());
            assert(report.notes.deep_view() =~= seq![PLUGIN_ABSENT@, PLUGIN_REMEDY@]);
            report
        },
        Probe::PatternRefused => quiet_report(
            Err(BrewError::InvalidFilterPattern { pattern: String::from_str(PLUGIN_PATTERN) }),
        ),
        Probe::Unreadable => {
            if !succeeded(code) {
                quiet_report(check_status(program, code))
            } else {
                quiet_report(Err(BrewError::TextDecodeFailure))
            }
        },
        Probe::Clear => quiet_report(check_status(program, code)),
    }
}

/// The report on a finished step: what its check makes of how the process
/// ended and of what it wrote.
pub fn judge(step: &Step, exit: Exit) -> (report: Report)
    ensures
        report@ == judged(step@, exit@),
{
    match &step.check {
        Check::Status => quiet_report(check_status(step.program.as_str(), exit.code)),
        Check::Matching { patterns } => judge_listing(step.program.as_str(), patterns, exit),
        Check::Plugin => {
            let code = exit.code;
            let probe = probe_plugin(exit.stderr);
            judge_probe(step.program.as_str(), code, probe)
        },
    }
}

} // verus!
