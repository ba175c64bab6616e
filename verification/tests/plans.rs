use pacbrew::exec::{Check, Mode, Step};
use pacbrew::linuxbrew::{Linuxbrew, Operation, BREW, PREVIEW_FLAG};

fn plain() -> Linuxbrew {
    Linuxbrew { dry_run: false, no_confirm: false, needed: false, no_cache: false }
}

fn words(items: &[&str]) -> Vec<String> {
    items.iter().map(|w| w.to_string()).collect()
}

fn step(subcmd: &[&str], kws: &[&str], flags: &[&str], mode: Mode, check: Check) -> Step {
    Step {
        program: "brew".to_string(),
        subcmd: words(subcmd),
        kws: words(kws),
        flags: words(flags),
        mode,
        check,
    }
}

const ALL: [Operation; 18] = [
    Operation::Q,
    Operation::Qc,
    Operation::Qi,
    Operation::Ql,
    Operation::Qs,
    Operation::Qu,
    Operation::R,
    Operation::Rs,
    Operation::S,
    Operation::Sc,
    Operation::Scc,
    Operation::Si,
    Operation::Sii,
    Operation::Ss,
    Operation::Su,
    Operation::Suy,
    Operation::Sw,
    Operation::Sy,
];

#[test]
fn name_is_brew() {
    assert_eq!(plain().name(), "brew");
    assert_eq!(BREW, "brew");
}

#[test]
fn just_run_checks_errors_unless_dry() {
    let brew = plain();
    let got = brew.just_run("brew", &["info"], &["git"], &["--json"]);
    assert_eq!(got, step(&["info"], &["git"], &["--json"], Mode::CheckErr, Check::Status));
    let dry = Linuxbrew { dry_run: true, ..brew };
    assert_eq!(dry.just_run("brew", &["info"], &[], &[]).mode, Mode::DryRun);
    let eager = Linuxbrew { no_confirm: true, ..brew };
    assert_eq!(eager.just_run("brew", &["info"], &[], &[]).mode, Mode::CheckErr);
}

#[test]
fn prompt_run_picks_one_of_three_modes() {
    let brew = plain();
    let got = brew.prompt_run("brew", &["fetch"], &["git"], &["-v"]);
    assert_eq!(got, step(&["fetch"], &["git"], &["-v"], Mode::Prompt, Check::Status));
    let eager = Linuxbrew { no_confirm: true, ..brew };
    assert_eq!(eager.prompt_run("brew", &["fetch"], &[], &[]).mode, Mode::CheckErr);
    let dry = Linuxbrew { dry_run: true, ..brew };
    assert_eq!(dry.prompt_run("brew", &["fetch"], &[], &[]).mode, Mode::DryRun);
    let both = Linuxbrew { dry_run: true, no_confirm: true, ..brew };
    assert_eq!(both.prompt_run("brew", &["fetch"], &[], &[]).mode, Mode::DryRun);
}

#[test]
fn prompt_run_keeps_the_program_it_is_given() {
    let got = plain().prompt_run("apt", &["a", "b"], &[], &[]);
    assert_eq!(got.program, "apt");
    assert_eq!(got.subcmd, words(&["a", "b"]));
    assert!(got.kws.is_empty());
    assert!(got.flags.is_empty());
}

#[test]
fn mode_functions_follow_the_settings() {
    let brew = plain();
    assert_eq!(brew.mode_of_run(), Mode::CheckErr);
    assert_eq!(brew.mode_of_prompt(), Mode::Prompt);
    let dry = Linuxbrew { dry_run: true, ..brew };
    assert_eq!(dry.mode_of_run(), Mode::DryRun);
    assert_eq!(dry.mode_of_prompt(), Mode::DryRun);
    let needed = Linuxbrew { needed: true, no_cache: true, ..brew };
    assert_eq!(needed.mode_of_run(), Mode::CheckErr);
    assert_eq!(needed.mode_of_prompt(), Mode::Prompt);
}

#[test]
fn q_without_keywords_lists() {
    let got = plain().q(&[], &["-1"]);
    assert_eq!(got, vec![step(&["list"], &[], &["-1"], Mode::CheckErr, Check::Status)]);
}

#[test]
fn q_with_keywords_is_qs() {
    let brew = plain();
    assert_eq!(brew.q(&["py", "3"], &["-1"]), brew.qs(&["py", "3"], &["-1"]));
}

#[test]
fn qs_captures_the_whole_listing() {
    let got = plain().qs(&["py", "3"], &["-1"]);
    let want = step(
        &["list"],
        &[],
        &["-1"],
        Mode::Mute,
        Check::Matching { patterns: words(&["py", "3"]) },
    );
    assert_eq!(got, vec![want]);
    let dry = Linuxbrew { dry_run: true, ..plain() };
    assert_eq!(dry.qs(&["py"], &[])[0].mode, Mode::Mute);
}

#[test]
fn simple_operations_map_to_one_verb() {
    let brew = plain();
    let kws = ["git"];
    let flags = ["-v"];
    let one = |verb: &str| vec![step(&[verb], &kws, &flags, Mode::CheckErr, Check::Status)];
    assert_eq!(brew.qc(&kws, &flags), one("log"));
    assert_eq!(brew.qi(&kws, &flags), one("info"));
    assert_eq!(brew.ql(&kws, &flags), one("list"));
    assert_eq!(brew.qu(&kws, &flags), one("outdated"));
    assert_eq!(brew.r(&kws, &flags), one("uninstall"));
    assert_eq!(brew.si(&kws, &flags), one("info"));
    assert_eq!(brew.sii(&kws, &flags), one("uses"));
    assert_eq!(brew.ss(&kws, &flags), one("search"));
}

#[test]
fn simple_operations_preview_under_dry_run() {
    let dry = Linuxbrew { dry_run: true, ..plain() };
    for plan in [dry.qc(&["a"], &[]), dry.r(&["a"], &[]), dry.ss(&["a"], &[]), dry.sy(&[], &[])] {
        assert_eq!(plan.len(), 1);
        assert_eq!(plan[0].mode, Mode::DryRun);
    }
}

#[test]
fn rs_runs_the_plugin_and_looks_for_the_complaint() {
    let got = plain().rs(&["git"], &["-f"]);
    assert_eq!(got, vec![step(&["rmtree"], &["git"], &["-f"], Mode::CheckErr, Check::Plugin)]);
    let eager = Linuxbrew { no_confirm: true, ..plain() };
    assert_eq!(eager.rs(&["git"], &["-f"]), got);
}

#[test]
fn rs_under_dry_run_appends_the_preview_flag() {
    let dry = Linuxbrew { dry_run: true, ..plain() };
    let got = dry.rs(&["git"], &[]);
    assert_eq!(
        got,
        vec![step(&["rmtree", "--dry-run"], &["git"], &[], Mode::CheckErr, Check::Plugin)]
    );
    assert_eq!(PREVIEW_FLAG, "--dry-run");
}

#[test]
fn s_reinstalls_unless_needed() {
    let got = plain().s(&["git"], &[]);
    assert_eq!(got, vec![step(&["reinstall"], &["git"], &[], Mode::CheckErr, Check::Status)]);
    let needed = Linuxbrew { needed: true, ..plain() };
    let got = needed.s(&["git"], &[]);
    assert_eq!(got, vec![step(&["install"], &["git"], &[], Mode::CheckErr, Check::Status)]);
}

#[test]
fn s_with_no_cache_purges_after_installing() {
    for needed in [false, true] {
        let brew = Linuxbrew { needed, no_cache: true, ..plain() };
        let got = brew.s(&["git"], &["-v"]);
        let verb = if needed { "install" } else { "reinstall" };
        assert_eq!(
            got,
            vec![
                step(&[verb], &["git"], &["-v"], Mode::CheckErr, Check::Status),
                step(&["cleanup", "-s"], &["git"], &["-v"], Mode::Prompt, Check::Status),
            ]
        );
        assert_eq!(got[1..].to_vec(), brew.scc(&["git"], &["-v"]));
    }
}

#[test]
fn sc_prompts_and_previews_with_the_flag() {
    let brew = plain();
    assert_eq!(
        brew.sc(&["a"], &["b"]),
        vec![step(&["cleanup"], &["a"], &["b"], Mode::Prompt, Check::Status)]
    );
    let eager = Linuxbrew { no_confirm: true, ..brew };
    assert_eq!(
        eager.sc(&["a"], &["b"]),
        vec![step(&["cleanup"], &["a"], &["b"], Mode::CheckErr, Check::Status)]
    );
    let dry = Linuxbrew { dry_run: true, ..brew };
    assert_eq!(
        dry.sc(&["a"], &["b"]),
        vec![step(&["cleanup", "--dry-run"], &["a"], &["b"], Mode::CheckErr, Check::Status)]
    );
}

#[test]
fn scc_prompts_and_previews_with_the_flag() {
    let brew = plain();
    assert_eq!(
        brew.scc(&[], &[]),
        vec![step(&["cleanup", "-s"], &[], &[], Mode::Prompt, Check::Status)]
    );
    let eager = Linuxbrew { no_confirm: true, ..brew };
    assert_eq!(
        eager.scc(&[], &[]),
        vec![step(&["cleanup", "-s"], &[], &[], Mode::CheckErr, Check::Status)]
    );
    let dry = Linuxbrew { dry_run: true, no_confirm: true, ..brew };
    assert_eq!(
        dry.scc(&[], &[]),
        vec![step(&["cleanup", "-s", "--dry-run"], &[], &[], Mode::CheckErr, Check::Status)]
    );
}

#[test]
fn su_upgrades_then_purges_with_no_cache() {
    let brew = plain();
    assert_eq!(
        brew.su(&["git"], &[]),
        vec![step(&["upgrade"], &["git"], &[], Mode::CheckErr, Check::Status)]
    );
    let lean = Linuxbrew { no_cache: true, no_confirm: true, ..brew };
    assert_eq!(
        lean.su(&["git"], &[]),
        vec![
            step(&["upgrade"], &["git"], &[], Mode::CheckErr, Check::Status),
            step(&["cleanup", "-s"], &["git"], &[], Mode::CheckErr, Check::Status),
        ]
    );
}

#[test]
fn suy_refreshes_without_keywords_then_updates() {
    let brew = plain();
    let got = brew.suy(&["git"], &["-v"]);
    assert_eq!(
        got,
        vec![
            step(&["update"], &[], &["-v"], Mode::CheckErr, Check::Status),
            step(&["upgrade"], &["git"], &["-v"], Mode::CheckErr, Check::Status),
        ]
    );
    let lean = Linuxbrew { no_cache: true, ..brew };
    let got = lean.suy(&["git"], &[]);
    assert_eq!(got.len(), 3);
    assert_eq!(got[0].subcmd, words(&["update"]));
    assert!(got[0].kws.is_empty());
    assert_eq!(got[1].subcmd, words(&["upgrade"]));
    assert_eq!(got[1].kws, words(&["git"]));
    assert_eq!(got[2].subcmd, words(&["cleanup", "-s"]));
    assert_eq!(got[2].mode, Mode::Prompt);
}

#[test]
fn sw_fetches_behind_a_prompt() {
    assert_eq!(
        plain().sw(&["git"], &[]),
        vec![step(&["fetch"], &["git"], &[], Mode::Prompt, Check::Status)]
    );
}

#[test]
fn sy_drops_its_keywords() {
    assert_eq!(
        plain().sy(&["ignored"], &["-v"]),
        vec![step(&["update"], &[], &["-v"], Mode::CheckErr, Check::Status)]
    );
}

#[test]
fn plan_dispatches_to_the_operation() {
    let brew = Linuxbrew { no_cache: true, ..plain() };
    let kws = ["git", "vim"];
    let flags = ["-v"];
    assert_eq!(brew.plan(Operation::Q, &kws, &flags), brew.q(&kws, &flags));
    assert_eq!(brew.plan(Operation::Qc, &kws, &flags), brew.qc(&kws, &flags));
    assert_eq!(brew.plan(Operation::Qi, &kws, &flags), brew.qi(&kws, &flags));
    assert_eq!(brew.plan(Operation::Ql, &kws, &flags), brew.ql(&kws, &flags));
    assert_eq!(brew.plan(Operation::Qs, &kws, &flags), brew.qs(&kws, &flags));
    assert_eq!(brew.plan(Operation::Qu, &kws, &flags), brew.qu(&kws, &flags));
    assert_eq!(brew.plan(Operation::R, &kws, &flags), brew.r(&kws, &flags));
    assert_eq!(brew.plan(Operation::Rs, &kws, &flags), brew.rs(&kws, &flags));
    assert_eq!(brew.plan(Operation::S, &kws, &flags), brew.s(&kws, &flags));
    assert_eq!(brew.plan(Operation::Sc, &kws, &flags), brew.sc(&kws, &flags));
    assert_eq!(brew.plan(Operation::Scc, &kws, &flags), brew.scc(&kws, &flags));
    assert_eq!(brew.plan(Operation::Si, &kws, &flags), brew.si(&kws, &flags));
    assert_eq!(brew.plan(Operation::Sii, &kws, &flags), brew.sii(&kws, &flags));
    assert_eq!(brew.plan(Operation::Ss, &kws, &flags), brew.ss(&kws, &flags));
    assert_eq!(brew.plan(Operation::Su, &kws, &flags), brew.su(&kws, &flags));
    assert_eq!(brew.plan(Operation::Suy, &kws, &flags), brew.suy(&kws, &flags));
    assert_eq!(brew.plan(Operation::Sw, &kws, &flags), brew.sw(&kws, &flags));
    assert_eq!(brew.plan(Operation::Sy, &kws, &flags), brew.sy(&kws, &flags));
}

#[test]
fn every_plan_is_for_brew_and_passes_the_flags_on() {
    for needed in [false, true] {
        for no_cache in [false, true] {
            let brew = Linuxbrew { needed, no_cache, ..plain() };
            for op in ALL {
                let plan = brew.plan(op, &["k"], &["-f", "-g"]);
                assert!(!plan.is_empty());
                assert!(plan.len() <= 3);
                for step in &plan {
                    assert_eq!(step.program, "brew");
                    assert_eq!(step.flags, words(&["-f", "-g"]));
                }
            }
        }
    }
}

#[test]
fn dry_run_plans_hold_only_harmless_steps() {
    for no_confirm in [false, true] {
        for needed in [false, true] {
            for no_cache in [false, true] {
                let brew = Linuxbrew { dry_run: true, no_confirm, needed, no_cache };
                for op in ALL {
                    for step in brew.plan(op, &["k"], &[]) {
                        let previews = step.mode == Mode::DryRun;
                        let flagged = step.subcmd.last().map(|w| w.as_str()) == Some("--dry-run");
                        let listing = step.mode == Mode::Mute && step.subcmd == words(&["list"]);
                        assert!(previews || flagged || listing, "{:?} {:?}", op, step);
                        assert_ne!(step.mode, Mode::Prompt);
                    }
                }
            }
        }
    }
}

#[test]
fn no_confirm_plans_never_prompt() {
    for needed in [false, true] {
        for no_cache in [false, true] {
            let asks = Linuxbrew { dry_run: false, no_confirm: false, needed, no_cache };
            let eager = Linuxbrew { no_confirm: true, ..asks };
            for op in ALL {
                let a = asks.plan(op, &["k"], &["-f"]);
                let b = eager.plan(op, &["k"], &["-f"]);
                assert_eq!(a.len(), b.len());
                for (x, y) in a.iter().zip(b.iter()) {
                    assert_ne!(y.mode, Mode::Prompt);
                    let mut want = x.clone();
                    if want.mode == Mode::Prompt {
                        want.mode = Mode::CheckErr;
                    }
                    assert_eq!(&want, y);
                }
            }
        }
    }
}

#[test]
fn only_cleaning_and_fetching_prompt() {
    let brew = Linuxbrew { no_cache: true, ..plain() };
    for op in ALL {
        let plan = brew.plan(op, &["k"], &[]);
        for (i, step) in plan.iter().enumerate() {
            if step.mode == Mode::Prompt {
                assert_eq!(i, plan.len() - 1);
                let verb = step.subcmd[0].as_str();
                assert!(verb == "cleanup" || verb == "fetch");
            }
        }
    }
}
