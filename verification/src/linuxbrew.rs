use vstd::prelude::*;
use vstd::string::*;
use crate::exec::{owned, views, Check, CheckView, Mode, Step, StepView};
use crate::text::texts;

verus! {

/// The program that every step of this backend runs.
pub const BREW: &'static str = "brew";

/// The flag that makes a cleaning or removing subcommand only say what it
/// would do.
pub const PREVIEW_FLAG: &'static str = "--dry-run";

/// The Homebrew backend, with the settings it was made with.
#[derive(Clone, Copy, Debug, PartialEq, Eq, Structural)]
pub struct Linuxbrew {
    /// Preview only: nothing that changes the system is run.
    pub dry_run: bool,
    /// Do not ask before a step that changes the system; run it and fail on
    /// a nonzero exit.
    pub no_confirm: bool,
    /// Install only what is absent, in place of reinstalling.
    pub needed: bool,
    /// Empty the cache after each operation that fills it.
    pub no_cache: bool,
}

/// The operations that every backend offers.
#[derive(Clone, Copy, Debug, PartialEq, Eq, Structural)]
pub enum Operation {
    /// List the installed packages.
    Q,
    /// Show the changelog of a package.
    Qc,
    /// Show what is known of an installed package.
    Qi,
    /// List the files of an installed package.
    Ql,
    /// Search the installed packages.
    Qs,
    /// List the packages that can be updated.
    Qu,
    /// Remove a package and leave what it depends on.
    R,
    /// Remove a package and what only it depends on.
    Rs,
    /// Install packages.
    S,
    /// Remove from the cache what is no longer installed.
    Sc,
    /// Empty the cache.
    Scc,
    /// Show what is known of a package.
    Si,
    /// List the packages that need a package.
    Sii,
    /// Search all packages.
    Ss,
    /// Update the packages that can be updated.
    Su,
    /// Refresh the package database, then update.
    Suy,
    /// Fetch packages without installing them.
    Sw,
    /// Refresh the package database.
    Sy,
}

impl Linuxbrew {
    /// The mode of a step that is run without asking: a preview where
    /// `dry_run` is set, and a checked run otherwise.
    pub open spec fn run_mode(self) -> Mode {
        if self.dry_run {
            Mode::DryRun
        } else {
            Mode::CheckErr
        }
    }

    /// The mode of a step that changes the system: a preview where
    /// `dry_run` is set; otherwise a checked run where `no_confirm` is set,
    /// and a prompt where it is not.
    pub open spec fn prompt_mode(self) -> Mode {
        if self.dry_run {
            Mode::DryRun
        } else if self.no_confirm {
            Mode::CheckErr
        } else {
            Mode::Prompt
        }
    }

    /// A step of the backend that is run without asking.
    pub open spec fn just(
        self,
        subcmd: Seq<Seq<char>>,
        kws: Seq<Seq<char>>,
        flags: Seq<Seq<char>>,
    ) -> StepView {
        StepView {
            program: BREW@,
            subcmd,
            kws,
            flags,
            mode: self.run_mode(),
            check: CheckView::Status,
        }
    }

    /// A step of the backend that changes the system.
    pub open spec fn prompted(
        self,
        subcmd: Seq<Seq<char>>,
        kws: Seq<Seq<char>>,
        flags: Seq<Seq<char>>,
    ) -> StepView {
        StepView {
            program: BREW@,
            subcmd,
            kws,
            flags,
            mode: self.prompt_mode(),
            check: CheckView::Status,
        }
    }

    /// The mode of a step that is run without asking.
    pub fn mode_of_run(&self) -> (mode: Mode)
        ensures
            mode == self.run_mode(),
    {
        if self.dry_run {
            Mode::DryRun
        } else {
            Mode::CheckErr
        }
    }

    /// The mode of a step that changes the system.
    pub fn mode_of_prompt(&self) -> (mode: Mode)
        ensures
            mode == self.prompt_mode(),
    {
        if self.dry_run {
            Mode::DryRun
        } else if self.no_confirm {
            Mode::CheckErr
        } else {
            Mode::Prompt
        }
    }

    /// The name of the package manager.
    pub fn name(&self) -> (name: String)
        ensures
            name@ == BREW@,
    {
        String::from_str(BREW)
    }

    /// The step that runs `cmd` with the given words under the mode of a
    /// step that changes the system.
    pub fn prompt_run(&self, cmd: &str, subcmd: &[&str], kws: &[&str], flags: &[&str]) -> (step:
        Step)
        ensures
            step@ == (StepView {
                program: cmd@,
                subcmd: texts(subcmd@),
                kws: texts(kws@),
                flags: texts(flags@),
                mode: self.prompt_mode(),
                check: CheckView::Status,
            }),
    {
        Step {
            program: cmd.to_owned(),
            subcmd: owned(subcmd),
            kws: owned(kws),
            flags: owned(flags),
            mode: self.mode_of_prompt(),
            check: Check::Status,
        }
    }

    /// The step that runs `cmd` with the given words under the mode of a
    /// step that is run without asking.
    pub fn just_run(&self, cmd: &str, subcmd: &[&str], kws: &[&str], flags: &[&str]) -> (step:
        Step)
        ensures
            step@ == (StepView {
                program: cmd@,
                subcmd: texts(subcmd@),
                kws: texts(kws@),
                flags: texts(flags@),
                mode: self.run_mode(),
                check: CheckView::Status,
            }),
    {
        Step {
            program: cmd.to_owned(),
            subcmd: owned(subcmd),
            kws: owned(kws),
            flags: owned(flags),
            mode: self.mode_of_run(),
            check: Check::Status,
        }
    }

    /// The one step of `Qs`: the whole listing, captured, and cut down to
    /// the lines that every keyword matches.
    pub open spec fn listing(self, kws: Seq<Seq<char>>, flags: Seq<Seq<char>>) -> StepView {
        StepView {
            program: BREW@,
            subcmd: seq!["list"@],
            kws: Seq::empty(),
            flags,
            mode: Mode::Mute,
            check: CheckView::Matching { patterns: kws },
        }
    }

    /// The one step of `Rs`: the plugin's subcommand, with the preview flag
    /// where `dry_run` is set, run and searched for the complaint that the
    /// plugin is absent.
    pub open spec fn removal(self, kws: Seq<Seq<char>>, flags: Seq<Seq<char>>) -> StepView {
        StepView {
            program: BREW@,
            subcmd: if self.dry_run {
                seq!["rmtree"@, PREVIEW_FLAG@]
            } else {
                seq!["rmtree"@]
            },
            kws,
            flags,
            mode: Mode::CheckErr,
            check: CheckView::Plugin,
        }
    }

    /// A cleaning step with the subcommand words `subcmd`: where `dry_run`
    /// is set, those words with the preview flag behind them, run and
    /// checked; otherwise a step that changes the system.
    pub open spec fn cleaning(
        self,
        subcmd: Seq<Seq<char>>,
        kws: Seq<Seq<char>>,
        flags: Seq<Seq<char>>,
    ) -> StepView {
        if self.dry_run {
            StepView {
                program: BREW@,
                subcmd: subcmd.push(PREVIEW_FLAG@),
                kws,
                flags,
                mode: Mode::CheckErr,
                check: CheckView::Status,
            }
        } else {
            self.prompted(subcmd, kws, flags)
        }
    }

    /// The plan of `Q`: the listing; with keywords, the plan of `Qs`.
    pub open spec fn q_plan(self, kws: Seq<Seq<char>>, flags: Seq<Seq<char>>) -> Seq<StepView> {
        if kws.len() == 0 {
            seq![self.just(seq!["list"@], Seq::empty(), flags)]
        } else {
            self.qs_plan(kws, flags)
        }
    }

    /// The plan of `Qc`: `log`.
    pub open spec fn qc_plan(self, kws: Seq<Seq<char>>, flags: Seq<Seq<char>>) -> Seq<StepView> {
        seq![self.just(seq!["log"@], kws, flags)]
    }

    /// The plan of `Qi`: that of `Si`.
    pub open spec fn qi_plan(self, kws: Seq<Seq<char>>, flags: Seq<Seq<char>>) -> Seq<StepView> {
        self.si_plan(kws, flags)
    }

    /// The plan of `Ql`: `list` with the keywords.
    pub open spec fn ql_plan(self, kws: Seq<Seq<char>>, flags: Seq<Seq<char>>) -> Seq<StepView> {
        seq![self.just(seq!["list"@], kws, flags)]
    }

    /// The plan of `Qs`: the captured listing, filtered by the keywords.
    pub open spec fn qs_plan(self, kws: Seq<Seq<char>>, flags: Seq<Seq<char>>) -> Seq<StepView> {
        seq![self.listing(kws, flags)]
    }

    /// The plan of `Qu`: `outdated`.
    pub open spec fn qu_plan(self, kws: Seq<Seq<char>>, flags: Seq<Seq<char>>) -> Seq<StepView> {
        seq![self.just(seq!["outdated"@], kws, flags)]
    }

    /// The plan of `R`: `uninstall`.
    pub open spec fn r_plan(self, kws: Seq<Seq<char>>, flags: Seq<Seq<char>>) -> Seq<StepView> {
        seq![self.just(seq!["uninstall"@], kws, flags)]
    }

    /// The plan of `Rs`: the removal that needs the plugin.
    pub open spec fn rs_plan(self, kws: Seq<Seq<char>>, flags: Seq<Seq<char>>) -> Seq<StepView> {
        seq![self.removal(kws, flags)]
    }

    /// The plan of `S`: `install` where `needed` is set and `reinstall`
    /// where it is not; then, where `no_cache` is set, the plan of `Scc`.
    pub open spec fn s_plan(self, kws: Seq<Seq<char>>, flags: Seq<Seq<char>>) -> Seq<StepView> {
        let verb = if self.needed {
            "install"@
        } else {
            "reinstall"@
        };
        let install = seq![self.just(seq![verb], kws, flags)];
        if self.no_cache {
            install + self.scc_plan(kws, flags)
        } else {
            install
        }
    }

    /// The plan of `Sc`: `cleanup`, as a cleaning step.
    pub open spec fn sc_plan(self, kws: Seq<Seq<char>>, flags: Seq<Seq<char>>) -> Seq<StepView> {
        seq![self.cleaning(seq!["cleanup"@], kws, flags)]
    }

    /// The plan of `Scc`: `cleanup -s`, as a cleaning step.
    pub open spec fn scc_plan(self, kws: Seq<Seq<char>>, flags: Seq<Seq<char>>) -> Seq<StepView> {
        seq![self.cleaning(seq!["cleanup"@, "-s"@], kws, flags)]
    }

    /// The plan of `Si`: `info`.
    pub open spec fn si_plan(self, kws: Seq<Seq<char>>, flags: Seq<Seq<char>>) -> Seq<StepView> {
        seq![self.just(seq!["info"@], kws, flags)]
    }

    /// The plan of `Sii`: `uses`.
    pub open spec fn sii_plan(self, kws: Seq<Seq<char>>, flags: Seq<Seq<char>>) -> Seq<StepView> {
        seq![self.just(seq!["uses"@], kws, flags)]
    }

    /// The plan of `Ss`: `search`.
    pub open spec fn ss_plan(self, kws: Seq<Seq<char>>, flags: Seq<Seq<char>>) -> Seq<StepView> {
        seq![self.just(seq!["search"@], kws, flags)]
    }

    /// The plan of `Su`: `upgrade`; then, where `no_cache` is set, the plan
    /// of `Scc`.
    pub open spec fn su_plan(self, kws: Seq<Seq<char>>, flags: Seq<Seq<char>>) -> Seq<StepView> {
        let upgrade = seq![self.just(seq!["upgrade"@], kws, flags)];
        if self.no_cache {
            upgrade + self.scc_plan(kws, flags)
        } else {
            upgrade
        }
    }

    /// The plan of `Suy`: the plan of `Sy`, then the plan of `Su` with the
    /// keywords.
    pub open spec fn suy_plan(self, kws: Seq<Seq<char>>, flags: Seq<Seq<char>>) -> Seq<StepView> {
        self.sy_plan(Seq::empty(), flags) + self.su_plan(kws, flags)
    }

    /// The plan of `Sw`: `fetch`, as a step that changes the system.
    pub open spec fn sw_plan(self, kws: Seq<Seq<char>>, flags: Seq<Seq<char>>) -> Seq<StepView> {
        seq![self.prompted(seq!["fetch"@], kws, flags)]
    }

    /// The plan of `Sy`: `update`, whatever the keywords.
    pub open spec fn sy_plan(self, kws: Seq<Seq<char>>, flags: Seq<Seq<char>>) -> Seq<StepView> {
        seq![self.just(seq!["update"@], Seq::empty(), flags)]
    }

    /// The plan of an operation: the steps that carry it out, in order.
    pub open spec fn planned(
        self,
        op: Operation,
        kws: Seq<Seq<char>>,
        flags: Seq<Seq<char>>,
    ) -> Seq<StepView> {
        match op {
            Operation::Q => self.q_plan(kws, flags),
            Operation::Qc => self.qc_plan(kws, flags),
            Operation::Qi => self.qi_plan(kws, flags),
            Operation::Ql => self.ql_plan(kws, flags),
            Operation::Qs => self.qs_plan(kws, flags),
            Operation::Qu => self.qu_plan(kws, flags),
            Operation::R => self.r_plan(kws, flags),
            Operation::Rs => self.rs_plan(kws, flags),
            Operation::S => self.s_plan(kws, flags),
            Operation::Sc => self.sc_plan(kws, flags),
            Operation::Scc => self.scc_plan(kws, flags),
            Operation::Si => self.si_plan(kws, flags),
            Operation::Sii => self.sii_plan(kws, flags),
            Operation::Ss => self.ss_plan(kws, flags),
            Operation::Su => self.su_plan(kws, flags),
            Operation::Suy => self.suy_plan(kws, flags),
            Operation::Sw => self.sw_plan(kws, flags),
            Operation::Sy => self.sy_plan(kws, flags),
        }
    }

    /// Q generates a list of installed packages.
    pub fn q(&self, kws: &[&str], flags: &[&str]) -> (plan: Vec<Step>)
        ensures
            views(plan@) == self.q_plan(texts(kws@), texts(flags@)),
    {
        if kws.len() == 0 {
            let none: [&str; 0] = [];
            let step = self.just_run(BREW, ["list"].as_slice(), none.as_slice(), flags);
            assert(step@.subcmd =~= seq!["list"@]);
            assert(step@.kws =~= Seq::<Seq<char>>::empty());
            alone(step)
        } else {
            self.qs(kws, flags)
        }
    }

    /// Qc shows the changelog of a package.
    pub fn qc(&self, kws: &[&str], flags: &[&str]) -> (plan: Vec<Step>)
        ensures
            views(plan@) == self.qc_plan(texts(kws@), texts(flags@)),
    {
        let step = self.just_run(BREW, ["log"].as_slice(), kws, flags);
        assert(step@.subcmd =~= seq!["log"@]);
        alone(step)
    }

    /// Qi displays local package information: name, version, description,
    /// etc.
    pub fn qi(&self, kws: &[&str], flags: &[&str]) -> (plan: Vec<Step>)
        ensures
            views(plan@) == self.qi_plan(texts(kws@), texts(flags@)),
    {
        self.si(kws, flags)
    }

    /// Ql displays files provided by local package.
    pub fn ql(&self, kws: &[&str], flags: &[&str]) -> (plan: Vec<Step>)
        ensures
            views(plan@) == self.ql_plan(texts(kws@), texts(flags@)),
    {
        let step = self.just_run(BREW, ["list"].as_slice(), kws, flags);
        assert(step@.subcmd =~= seq!["list"@]);
        alone(step)
    }

    /// Qs searches locally installed package for names or descriptions.
    /// With several keywords, only the lines that match all of them are
    /// kept.
    pub fn qs(&self, kws: &[&str], flags: &[&str]) -> (plan: Vec<Step>)
        ensures
            views(plan@) == self.qs_plan(texts(kws@), texts(flags@)),
    {
        let step = Step {
            program: String::from_str(BREW),
            subcmd: owned(["list"].as_slice()),
            kws: Vec::new(),
            flags: owned(flags),
            mode: Mode::Mute,
            check: Check::Matching { patterns: owned(kws) },
        };
        assert(step@.subcmd =~= seq!["list"@]);
        assert(step@.kws =~= Seq::<Seq<char>>::empty());
        alone(step)
    }

    /// Qu lists packages which have an update available.
    pub fn qu(&self, kws: &[&str], flags: &[&str]) -> (plan: Vec<Step>)
        ensures
            views(plan@) == self.qu_plan(texts(kws@), texts(flags@)),
    {
        let step = self.just_run(BREW, ["outdated"].as_slice(), kws, flags);
        assert(step@.subcmd =~= seq!["outdated"@]);
        alone(step)
    }

    /// R removes a single package, leaving all of its dependencies
    /// installed.
    pub fn r(&self, kws: &[&str], flags: &[&str]) -> (plan: Vec<Step>)
        ensures
            views(plan@) == self.r_plan(texts(kws@), texts(flags@)),
    {
        let step = self.just_run(BREW, ["uninstall"].as_slice(), kws, flags);
        assert(step@.subcmd =~= seq!["uninstall"@]);
        alone(step)
    }

    /// Rs removes a package and its dependencies which are not required by
    /// any other installed package.
    pub fn rs(&self, kws: &[&str], flags: &[&str]) -> (plan: Vec<Step>)
        ensures
            views(plan@) == self.rs_plan(texts(kws@), texts(flags@)),
    {
        let subcmd = if self.dry_run {
            let words = owned(["rmtree", PREVIEW_FLAG].as_slice());
            assert(words.deep_view() =~= seq!["rmtree"@, PREVIEW_FLAG@]);
            words
        } else {
            let words = owned(["rmtree"].as_slice());
            assert(words.deep_view() =~= seq!["rmtree"@]);
            words
        };
        let step = Step {
            program: String::from_str(BREW),
            subcmd,
            kws: owned(kws),
            flags: owned(flags),
            mode: Mode::CheckErr,
            check: Check::Plugin,
        };
        alone(step)
    }

    /// S installs one or more packages by name.
    pub fn s(&self, kws: &[&str], flags: &[&str]) -> (plan: Vec<Step>)
        ensures
            views(plan@) == self.s_plan(texts(kws@), texts(flags@)),
    {
        let step = if self.needed {
            let step = self.just_run(BREW, ["install"].as_slice(), kws, flags);
            assert(step@.subcmd =~= seq!["install"@]);
            step
        } else {
            // Where the package is absent `reinstall` installs it, so it
            // installs in either case.
            let step = self.just_run(BREW, ["reinstall"].as_slice(), kws, flags);
            assert(step@.subcmd =~= seq!["reinstall"@]);
            step
        };
        let install = alone(step);
        if self.no_cache {
            chain(install, self.scc(kws, flags))
        } else {
            install
        }
    }

    /// The cleaning step with the subcommand words `subcmd`, which
    /// `previewed` repeats with the preview flag behind them.
    fn clean(&self, subcmd: &[&str], previewed: &[&str], kws: &[&str], flags: &[&str]) -> (step:
        Step)
        requires
            texts(previewed@) == texts(subcmd@).push(PREVIEW_FLAG@),
        ensures
            step@ == self.cleaning(texts(subcmd@), texts(kws@), texts(flags@)),
    {
        if self.dry_run {
            Step {
                program: String::from_str(BREW),
                subcmd: owned(previewed),
                kws: owned(kws),
                flags: owned(flags),
                mode: Mode::CheckErr,
                check: Check::Status,
            }
        } else {
            self.prompt_run(BREW, subcmd, kws, flags)
        }
    }

    /// Sc removes all the cached packages that are not currently installed,
    /// and the unused sync database.
    pub fn sc(&self, kws: &[&str], flags: &[&str]) -> (plan: Vec<Step>)
        ensures
            views(plan@) == self.sc_plan(texts(kws@), texts(flags@)),
    {
        let plain = ["cleanup"];
        let previewed = ["cleanup", PREVIEW_FLAG];
        let plain = plain.as_slice();
        let previewed = previewed.as_slice();
        assert(texts(plain@) =~= seq!["cleanup"@]);
        assert(texts(previewed@) =~= texts(plain@).push(PREVIEW_FLAG@));
        alone(self.clean(plain, previewed, kws, flags))
    }

    /// Scc removes all files from the cache.
    pub fn scc(&self, kws: &[&str], flags: &[&str]) -> (plan: Vec<Step>)
        ensures
            views(plan@) == self.scc_plan(texts(kws@), texts(flags@)),
    {
        let plain = ["cleanup", "-s"];
        let previewed = ["cleanup", "-s", PREVIEW_FLAG];
        let plain = plain.as_slice();
        let previewed = previewed.as_slice();
        assert(texts(plain@) =~= seq!["cleanup"@, "-s"@]);
        assert(texts(previewed@) =~= texts(plain@).push(PREVIEW_FLAG@));
        alone(self.clean(plain, previewed, kws, flags))
    }

    /// Si displays remote package information: name, version, description,
    /// etc.
    pub fn si(&self, kws: &[&str], flags: &[&str]) -> (plan: Vec<Step>)
        ensures
            views(plan@) == self.si_plan(texts(kws@), texts(flags@)),
    {
        let step = self.just_run(BREW, ["info"].as_slice(), kws, flags);
        assert(step@.subcmd =~= seq!["info"@]);
        alone(step)
    }

    /// Sii displays packages which require X to be installed, aka reverse
    /// dependencies.
    pub fn sii(&self, kws: &[&str], flags: &[&str]) -> (plan: Vec<Step>)
        ensures
            views(plan@) == self.sii_plan(texts(kws@), texts(flags@)),
    {
        let step = self.just_run(BREW, ["uses"].as_slice(), kws, flags);
        assert(step@.subcmd =~= seq!["uses"@]);
        alone(step)
    }

    /// Ss searches for package(s) by searching the expression in name,
    /// description, short description.
    pub fn ss(&self, kws: &[&str], flags: &[&str]) -> (plan: Vec<Step>)
        ensures
            views(plan@) == self.ss_plan(texts(kws@), texts(flags@)),
    {
        let step = self.just_run(BREW, ["search"].as_slice(), kws, flags);
        assert(step@.subcmd =~= seq!["search"@]);
        alone(step)
    }

    /// Su updates outdated packages.
    pub fn su(&self, kws: &[&str], flags: &[&str]) -> (plan: Vec<Step>)
        ensures
            views(plan@) == self.su_plan(texts(kws@), texts(flags@)),
    {
        let step = self.just_run(BREW, ["upgrade"].as_slice(), kws, flags);
        assert(step@.subcmd =~= seq!["upgrade"@]);
        let upgrade = alone(step);
        if self.no_cache {
            chain(upgrade, self.scc(kws, flags))
        } else {
            upgrade
        }
    }

    /// Suy refreshes the local package database, then updates outdated
    /// packages.
    pub fn suy(&self, kws: &[&str], flags: &[&str]) -> (plan: Vec<Step>)
        ensures
            views(plan@) == self.suy_plan(texts(kws@), texts(flags@)),
    {
        let none: [&str; 0] = [];
        let none = none.as_slice();
        assert(texts(none@) =~= Seq::<Seq<char>>::empty());
        chain(self.sy(none, flags), self.su(kws, flags))
    }

    /// Sw retrieves all packages from the server, but does not
    /// install/upgrade anything.
    pub fn sw(&self, kws: &[&str], flags: &[&str]) -> (plan: Vec<Step>)
        ensures
            views(plan@) == self.sw_plan(texts(kws@), texts(flags@)),
    {
        let step = self.prompt_run(BREW, ["fetch"].as_slice(), kws, flags);
        assert(step@.subcmd =~= seq!["fetch"@]);
        alone(step)
    }

    /// Sy refreshes the local package database.
    pub fn sy(&self, kws: &[&str], flags: &[&str]) -> (plan: Vec<Step>)
        ensures
            views(plan@) == self.sy_plan(texts(kws@), texts(flags@)),
    {
        let none: [&str; 0] = [];
        let step = self.just_run(BREW, ["update"].as_slice(), none.as_slice(), flags);
        assert(step@.subcmd =~= seq!["update"@]);
        assert(step@.kws =~= Seq::<Seq<char>>::empty());
        alone(step)
    }

    /// The plan of `op` for the keywords and flags.
    pub fn plan(&self, op: Operation, kws: &[&str], flags: &[&str]) -> (plan: Vec<Step>)
        ensures
            views(plan@) == self.planned(op, texts(kws@), texts(flags@)),
    {
        match op {
            Operation::Q => self.q(kws, flags),
            Operation::Qc => self.qc(kws, flags),
            Operation::Qi => self.qi(kws, flags),
            Operation::Ql => self.ql(kws, flags),
            Operation::Qs => self.qs(kws, flags),
            Operation::Qu => self.qu(kws, flags),
            Operation::R => self.r(kws, flags),
            Operation::Rs => self.rs(kws, flags),
            Operation::S => self.s(kws, flags),
            Operation::Sc => self.sc(kws, flags),
            Operation::Scc => self.scc(kws, flags),
            Operation::Si => self.si(kws, flags),
            Operation::Sii => self.sii(kws, flags),
            Operation::Ss => self.ss(kws, flags),
            Operation::Su => self.su(kws, flags),
            Operation::Suy => self.suy(kws, flags),
            Operation::Sw => self.sw(kws, flags),
            Operation::Sy => self.sy(kws, flags),
        }
    }
}

/// The plan that holds one step.
pub fn alone(step: Step) -> (plan: Vec<Step>)
    ensures
        views(plan@) == seq![step@],
{
    let mut plan: Vec<Step> = Vec::new();
    plan.push(step);
    assert(views(plan@) =~= seq![step@]);
    plan
}

/// The plan that runs `first` and then `then`.
pub fn chain(first: Vec<Step>, then: Vec<Step>) -> (plan: Vec<Step>)
    ensures
        views(plan@) == views(first@) + views(then@),
{
    let mut plan = first;
    let mut rest = then;
    plan.append(&mut rest);
    assert(views(plan@) =~= views(first@) + views(then@));
    plan
}

} // verus!
