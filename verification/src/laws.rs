use vstd::prelude::*;
use crate::error::BrewErrorView;
use crate::exec::{Mode, StepView};
use crate::filter::{all_compile, first_invalid, matched_by, matches_every};
use crate::judge::{judged, probe_of, ExitView, Probe, PLUGIN_ABSENT, PLUGIN_REMEDY};
use crate::linuxbrew::{Linuxbrew, Operation, PREVIEW_FLAG};
use crate::run::{ActionView, EventView, RunView};
use crate::text::lines_of;

verus! {

/// A step that changes nothing when it is carried out: a preview, a
/// subcommand with the preview flag at its end, or the captured listing.
pub open spec fn harmless(step: StepView) -> bool {
    ||| step.mode == Mode::DryRun
    ||| (step.subcmd.len() > 0 && step.subcmd.last() == PREVIEW_FLAG@)
    ||| (step.mode == Mode::Mute && step.subcmd == seq!["list"@])
}

/// `step` with a checked run in place of a prompt.
pub open spec fn unprompted(step: StepView) -> StepView {
    if step.mode == Mode::Prompt {
        StepView { mode: Mode::CheckErr, ..step }
    } else {
        step
    }
}

/// With no keyword, filtering succeeds and keeps every line of the text, in
/// order.
pub proof fn law_no_keyword_keeps_every_line(text: Seq<char>)
    ensures
        all_compile(Seq::<Seq<char>>::empty()),
        lines_of(text).filter(matched_by(Seq::<Seq<char>>::empty())) == lines_of(text),
{
    let none = Seq::<Seq<char>>::empty();
    let lines = lines_of(text);
    assert(first_invalid(none) == 0);
    assert forall|i: int| 0 <= i < lines.len() implies matched_by(none)(#[trigger] lines[i]) by {
        assert(matches_every(none, lines[i]));
    }
    lemma_filter_keeps_all(lines, matched_by(none));
}

/// A test that every item passes keeps the whole sequence.
pub proof fn lemma_filter_keeps_all<A>(s: Seq<A>, p: spec_fn(A) -> bool)
    requires
        forall|i: int| 0 <= i < s.len() ==> p(#[trigger] s[i]),
    ensures
        s.filter(p) == s,
    decreases s.len(),
{
    reveal(Seq::filter);
    if s.len() > 0 {
        let init = s.drop_last();
        assert forall|i: int| 0 <= i < init.len() implies p(#[trigger] init[i]) by {
            assert(init[i] == s[i]);
        }
        lemma_filter_keeps_all(init, p);
        assert(p(s[s.len() - 1]));
        assert(init.push(s.last()) =~= s);
    }
}

/// The lines that filtering keeps are lines that every keyword matches,
/// and a line of the text that every keyword matches is kept.
pub proof fn law_filter_keeps_the_matching(text: Seq<char>, keywords: Seq<Seq<char>>)
    ensures
        forall|i: int|
            #![trigger lines_of(text).filter(matched_by(keywords))[i]]
            0 <= i < lines_of(text).filter(matched_by(keywords)).len() ==> matches_every(
                keywords,
                lines_of(text).filter(matched_by(keywords))[i],
            ),
        forall|i: int|
            #![trigger lines_of(text)[i]]
            0 <= i < lines_of(text).len() && matches_every(keywords, lines_of(text)[i])
                ==> lines_of(text).filter(matched_by(keywords)).contains(lines_of(text)[i]),
{
    let lines = lines_of(text);
    let keep = matched_by(keywords);
    assert forall|i: int| 0 <= i < lines.filter(keep).len() implies matches_every(
        keywords,
        #[trigger] lines.filter(keep)[i],
    ) by {
        lines.lemma_filter_pred(keep, i);
    }
    assert forall|i: int| 0 <= i < lines.len() && matches_every(
        keywords,
        #[trigger] lines[i],
    ) implies lines.filter(keep).contains(lines[i]) by {
        lines.lemma_filter_contains(keep, i);
    }
}

/// Where the backend complains that it does not know the plugin's
/// subcommand, the removal ends with `RequiredOptionalComponentMissing`
/// behind exactly two notices, however the process exited.
pub proof fn law_absent_plugin_is_reported(
    brew: Linuxbrew,
    kws: Seq<Seq<char>>,
    flags: Seq<Seq<char>>,
    exit: ExitView,
)
    requires
        probe_of(exit.stderr) == Probe::CommandUnknown,
    ensures
        brew.rs_plan(kws, flags).len() == 1,
        judged(brew.rs_plan(kws, flags)[0], exit).result == Err::<(), BrewErrorView>(
            BrewErrorView::RequiredOptionalComponentMissing,
        ),
        judged(brew.rs_plan(kws, flags)[0], exit).notes == seq![PLUGIN_ABSENT@, PLUGIN_REMEDY@],
        judged(brew.rs_plan(kws, flags)[0], exit).notes.len() == 2,
        judged(brew.rs_plan(kws, flags)[0], exit).output.len() == 0,
        RunView::fresh(brew.rs_plan(kws, flags)).pending() is Spawn,
        RunView::fresh(brew.rs_plan(kws, flags)).turn(EventView::Exited(exit)).notes == seq![
            PLUGIN_ABSENT@,
            PLUGIN_REMEDY@,
        ],
        RunView::fresh(brew.rs_plan(kws, flags)).turn(EventView::Exited(exit)).next == (
        ActionView::Finish {
            result: Err(BrewErrorView::RequiredOptionalComponentMissing),
        }),
{
}

/// Installing uses `install` where `needed` is set and `reinstall` where it
/// is not. Where `no_cache` is set the plan has one more step, behind the
/// installing one: the emptying of the cache; otherwise it has no other.
pub proof fn law_install_then_purge(brew: Linuxbrew, kws: Seq<Seq<char>>, flags: Seq<Seq<char>>)
    ensures
        brew.s_plan(kws, flags)[0] == brew.just(
            seq![
                if brew.needed {
                    "install"@
                } else {
                    "reinstall"@
                },
            ],
            kws,
            flags,
        ),
        brew.no_cache ==> brew.s_plan(kws, flags).len() == 2 && brew.s_plan(kws, flags)[1]
            == brew.cleaning(seq!["cleanup"@, "-s"@], kws, flags),
        !brew.no_cache ==> brew.s_plan(kws, flags).len() == 1,
{
}

/// Refreshing and updating is the refreshing step, without keywords, and
/// behind it the plan of updating with the keywords.
pub proof fn law_refresh_before_update(brew: Linuxbrew, kws: Seq<Seq<char>>, flags: Seq<Seq<char>>)
    ensures
        brew.suy_plan(kws, flags) == seq![
            brew.just(seq!["update"@], Seq::empty(), flags),
        ] + brew.su_plan(kws, flags),
        brew.suy_plan(kws, flags)[0].kws.len() == 0,
        brew.suy_plan(kws, flags)[1] == brew.just(seq!["upgrade"@], kws, flags),
{
}

/// A step is taken in hand only behind the one before it, and only when
/// that one was shown as a preview or its program ended well: an event
/// leaves the step in hand or brings the next one, and it brings the next
/// one only in those two cases.
pub proof fn law_steps_in_order(run: RunView, event: EventView)
    ensures
        run.after(event).steps == run.steps,
        run.after(event).at == run.at || run.after(event).at == run.at + 1,
        run.after(event).at == run.at + 1 ==> run.busy() && run.after(event).over is None && ({
            ||| (run.steps[run.at].mode == Mode::DryRun && event is Previewed)
            ||| (event is Exited && judged(run.steps[run.at], event->Exited_0).result is Ok)
        }),
{
}

/// A program that ends badly ends the run with its error: no later step is
/// asked for.
pub proof fn law_stops_at_first_failure(run: RunView, exit: ExitView)
    requires
        run.pending() is Spawn,
        judged(run.steps[run.at], exit).result is Err,
    ensures
        run.after(EventView::Exited(exit)).pending() == (ActionView::Finish {
            result: judged(run.steps[run.at], exit).result,
        }),
        run.turn(EventView::Exited(exit)).next == (ActionView::Finish {
            result: judged(run.steps[run.at], exit).result,
        }),
{
}

/// A run that is over stays as it is, whatever is reported to it.
pub proof fn law_over_is_final(run: RunView, event: EventView)
    requires
        run.over is Some,
    ensures
        run.after(event) == run,
        run.pending() == (ActionView::Finish { result: run.over->Some_0 }),
{
}

/// A no to the question ends the run without an error and without a
/// program having been asked for.
pub proof fn law_decline_ends_quietly(run: RunView)
    requires
        run.pending() is Confirm,
    ensures
        run.after(EventView::Answered(false)).pending() == (ActionView::Finish {
            result: Ok(()),
        }),
        run.after(EventView::Answered(true)).pending() is Spawn,
{
}

/// Under `dry_run` every step of every plan is harmless.
pub proof fn law_dry_run_plans_are_harmless(
    brew: Linuxbrew,
    op: Operation,
    kws: Seq<Seq<char>>,
    flags: Seq<Seq<char>>,
    i: int,
)
    requires
        brew.dry_run,
        0 <= i < brew.planned(op, kws, flags).len(),
    ensures
        harmless(brew.planned(op, kws, flags)[i]),
{
    let step = brew.planned(op, kws, flags)[i];
    match op {
        Operation::Rs => {
            assert(step.subcmd.last() == PREVIEW_FLAG@);
        },
        Operation::Sc => {
            assert(step.subcmd.last() == PREVIEW_FLAG@);
        },
        Operation::Scc => {
            assert(step.subcmd.last() == PREVIEW_FLAG@);
        },
        Operation::S => {
            if i > 0 {
                assert(step.subcmd.last() == PREVIEW_FLAG@);
            }
        },
        Operation::Su => {
            if i > 0 {
                assert(step.subcmd.last() == PREVIEW_FLAG@);
            }
        },
        Operation::Suy => {
            if i > 1 {
                assert(step.subcmd.last() == PREVIEW_FLAG@);
            }
        },
        _ => {},
    }
}

/// Under `dry_run` a run of any plan never asks a question, and the only
/// programs it asks for are those of harmless steps.
pub proof fn law_dry_run_spawns_nothing_that_changes(
    brew: Linuxbrew,
    op: Operation,
    kws: Seq<Seq<char>>,
    flags: Seq<Seq<char>>,
    run: RunView,
)
    requires
        brew.dry_run,
        run.steps == brew.planned(op, kws, flags),
    ensures
        !(run.pending() is Confirm),
        run.pending() is Spawn ==> run.busy() && harmless(run.steps[run.at])
            && run.steps[run.at].mode != Mode::DryRun,
{
    if run.busy() {
        law_dry_run_plans_are_harmless(brew, op, kws, flags, run.at);
        law_plans_prompt_only_when_asked(brew, op, kws, flags, run.at);
    }
}

/// A plan holds a prompt only where neither `dry_run` nor `no_confirm` is
/// set.
pub proof fn law_plans_prompt_only_when_asked(
    brew: Linuxbrew,
    op: Operation,
    kws: Seq<Seq<char>>,
    flags: Seq<Seq<char>>,
    i: int,
)
    requires
        0 <= i < brew.planned(op, kws, flags).len(),
        brew.dry_run || brew.no_confirm,
    ensures
        brew.planned(op, kws, flags)[i].mode != Mode::Prompt,
{
}

/// Setting `no_confirm` changes a plan in one way only: each step that
/// would prompt becomes a checked run.
pub proof fn law_no_confirm_runs_checked(
    brew: Linuxbrew,
    op: Operation,
    kws: Seq<Seq<char>>,
    flags: Seq<Seq<char>>,
)
    ensures
        (Linuxbrew { no_confirm: true, ..brew }).planned(op, kws, flags).len() == (Linuxbrew {
            no_confirm: false,
            ..brew
        }).planned(op, kws, flags).len(),
        forall|i: int|
            0 <= i < (Linuxbrew { no_confirm: true, ..brew }).planned(op, kws, flags).len() ==> (
            #[trigger] (Linuxbrew { no_confirm: true, ..brew }).planned(op, kws, flags)[i])
                == unprompted((Linuxbrew { no_confirm: false, ..brew }).planned(op, kws, flags)[i]),
{
}

/// Under `no_confirm` a run of any plan never asks a question.
pub proof fn law_no_confirm_never_asks(
    brew: Linuxbrew,
    op: Operation,
    kws: Seq<Seq<char>>,
    flags: Seq<Seq<char>>,
    run: RunView,
)
    requires
        brew.no_confirm,
        run.steps == brew.planned(op, kws, flags),
    ensures
        !(run.pending() is Confirm),
{
    if run.busy() {
        law_plans_prompt_only_when_asked(brew, op, kws, flags, run.at);
    }
}

} // verus!
