use powerselect::config::{
    amd_levels, Config, AMD_GPU_GOVERNOR, CPUFREQ, ENERGY_FILE, ENERGY_PERFORMANCE_AVAILABLE,
    ENERGY_PERFORMANCE_PREFERENCE, SCALING_FILE, SCALING_GOVERNOR, SCALING_GOVERNOR_AVAILABLE,
};
use powerselect::program::{continue_pstate, Command, Phase, Program, Report, Turn};
use powerselect::selector::{
    choose_selection, Action, Answer, Event, Failure, Selection, WriteResult,
};
use powerselect::target::{ChangeFile, Expansion};

fn read(current: &str, available: &str) -> Report {
    Report::Read { current: Some(current.to_string()), available: Some(available.to_string()) }
}

fn chosen(index: usize, value: &str) -> Report {
    Report::Selected(Selection::Chosen { index, value: value.to_string() })
}

fn play(reports: Vec<Report>) -> (Program, Vec<Turn>) {
    let (mut program, first) = Program::start(Config::system());
    let mut turns = vec![first];
    for report in reports {
        let (next, turn) = program.advance(report);
        program = next;
        turns.push(turn);
    }
    (program, turns)
}

fn quiet(command: Command) -> Turn {
    Turn { lines: Vec::new(), command }
}

fn is_select(turn: &Turn) -> bool {
    matches!(turn.command, Command::Select { .. })
}

fn touches_card(turn: &Turn) -> bool {
    match &turn.command {
        Command::ReadCurrent { .. } => true,
        Command::Select { target: ChangeFile::Path { .. }, .. } => true,
        _ => false,
    }
}

#[test]
fn system_config_names_the_kernel_files() {
    let config = Config::system();
    assert_eq!(config.governor_current, "/sys/devices/system/cpu/cpu0/cpufreq/scaling_governor");
    assert_eq!(
        config.governor_available,
        "/sys/devices/system/cpu/cpu0/cpufreq/scaling_available_governors"
    );
    assert_eq!(
        config.pstate_current,
        "/sys/devices/system/cpu/cpu0/cpufreq/energy_performance_preference"
    );
    assert_eq!(
        config.pstate_available,
        "/sys/devices/system/cpu/cpu0/cpufreq/energy_performance_available_preferences"
    );
    assert_eq!(config.amd_current, "/sys/class/drm/card0/device/power_dpm_force_performance_level");
    assert_eq!(config.cpufreq_pattern, "/sys/devices/system/cpu/cpufreq/*");
    assert_eq!(config.governor_file, "scaling_governor");
    assert_eq!(config.pstate_file, "energy_performance_preference");
    assert_eq!(config.governor_current, SCALING_GOVERNOR);
    assert_eq!(config.governor_available, SCALING_GOVERNOR_AVAILABLE);
    assert_eq!(config.pstate_current, ENERGY_PERFORMANCE_PREFERENCE);
    assert_eq!(config.pstate_available, ENERGY_PERFORMANCE_AVAILABLE);
    assert_eq!(config.amd_current, AMD_GPU_GOVERNOR);
    assert_eq!(config.cpufreq_pattern, CPUFREQ);
    assert_eq!(config.governor_file, SCALING_FILE);
    assert_eq!(config.pstate_file, ENERGY_FILE);
}

#[test]
fn config_targets() {
    let config = Config::system();
    assert_eq!(
        config.governor_target(),
        ChangeFile::Glob {
            pattern: "/sys/devices/system/cpu/cpufreq/*".to_string(),
            file: "scaling_governor".to_string(),
        }
    );
    assert_eq!(
        config.pstate_target(),
        ChangeFile::Glob {
            pattern: "/sys/devices/system/cpu/cpufreq/*".to_string(),
            file: "energy_performance_preference".to_string(),
        }
    );
    assert_eq!(
        config.amd_target(),
        ChangeFile::Path {
            path: "/sys/class/drm/card0/device/power_dpm_force_performance_level".to_string(),
        }
    );
}

#[test]
fn amd_levels_are_the_eight_fixed_ones() {
    assert_eq!(
        amd_levels(),
        vec![
            "auto",
            "low",
            "high",
            "manual",
            "profile_standard",
            "profile_min_sclk",
            "profile_min_mclk",
            "profile_peak",
        ]
    );
}

#[test]
fn continue_pstate_needs_a_choice_other_than_performance_and_the_interface() {
    let powersave = Selection::Chosen { index: 1, value: "powersave".to_string() };
    let performance = Selection::Chosen { index: 0, value: "performance".to_string() };
    let failed = Selection::Failed { kind: Failure::Open, path: "/p".to_string() };
    assert!(continue_pstate(&powersave, true));
    assert!(!continue_pstate(&powersave, false));
    assert!(!continue_pstate(&performance, true));
    assert!(!continue_pstate(&performance, false));
    assert!(!continue_pstate(&Selection::Declined, true));
    assert!(!continue_pstate(&failed, true));
}

#[test]
fn continue_pstate_compares_the_whole_value() {
    let longer = Selection::Chosen { index: 0, value: "performance\n".to_string() };
    let shorter = Selection::Chosen { index: 0, value: "perform".to_string() };
    let empty = Selection::Chosen { index: 0, value: String::new() };
    assert!(continue_pstate(&longer, true));
    assert!(continue_pstate(&shorter, true));
    assert!(continue_pstate(&empty, true));
}

#[test]
fn program_starts_by_probing() {
    let (program, first) = Program::start(Config::system());
    assert_eq!(program.phase, Phase::Probing);
    assert!(!program.is_ended());
    assert_eq!(
        first,
        quiet(Command::Probe {
            pstate: ENERGY_PERFORMANCE_PREFERENCE.to_string(),
            amd: AMD_GPU_GOVERNOR.to_string(),
        })
    );
}

#[test]
fn probe_is_answered_with_notices_and_governor_discovery() {
    let (program, turns) = play(vec![Report::Probed { pstate: true, amd: true }]);
    assert_eq!(program.phase, Phase::GovernorDiscovery { pstate: true, amd: true });
    assert_eq!(
        turns[1].lines,
        vec![
            "You have intel pstate, set scaling to power_save to use performance from pstate",
            "then else, please set it to performance to use scaling",
            "You can alse set amd_pstate",
        ]
    );
    assert_eq!(
        turns[1].command,
        Command::Discover {
            current: SCALING_GOVERNOR.to_string(),
            available: SCALING_GOVERNOR_AVAILABLE.to_string(),
        }
    );
}

#[test]
fn probe_notices_follow_the_interfaces() {
    let (_, turns) = play(vec![Report::Probed { pstate: false, amd: false }]);
    assert!(turns[1].lines.is_empty());
    let (_, turns) = play(vec![Report::Probed { pstate: false, amd: true }]);
    assert_eq!(turns[1].lines, vec!["You can alse set amd_pstate"]);
    let (_, turns) = play(vec![Report::Probed { pstate: true, amd: false }]);
    assert_eq!(turns[1].lines.len(), 2);
}

#[test]
fn missing_governor_files_are_fatal() {
    let (program, turns) = play(vec![
        Report::Probed { pstate: true, amd: true },
        Report::Read { current: None, available: Some("a b".to_string()) },
    ]);
    assert!(program.is_ended());
    assert_eq!(turns[2], quiet(Command::Abort { message: "No Scaling Path".to_string() }));

    let (program, turns) = play(vec![
        Report::Probed { pstate: true, amd: true },
        Report::Read { current: Some("a".to_string()), available: None },
    ]);
    assert!(program.is_ended());
    assert_eq!(turns[2], quiet(Command::Abort { message: "No Scaling Path".to_string() }));
}

#[test]
fn governor_round_offers_the_advertised_governors() {
    let (program, turns) = play(vec![
        Report::Probed { pstate: true, amd: false },
        read("powersave\n", "performance powersave schedutil\n"),
    ]);
    assert_eq!(program.phase, Phase::GovernorRound { pstate: true, amd: false });
    assert_eq!(turns[2].lines, vec!["current scaling : powersave\n"]);
    assert_eq!(
        turns[2].command,
        Command::Select {
            label: "scaling selected".to_string(),
            current: "powersave\n".to_string(),
            candidates: vec![
                "performance".to_string(),
                "powersave".to_string(),
                "schedutil".to_string(),
            ],
            target: ChangeFile::Glob {
                pattern: CPUFREQ.to_string(),
                file: SCALING_FILE.to_string(),
            },
        }
    );
}

#[test]
fn choosing_performance_writes_every_core_and_skips_the_preference() {
    let (program, turns) = play(vec![
        Report::Probed { pstate: true, amd: false },
        read("powersave\n", "performance powersave schedutil\n"),
    ]);
    let (label, current, candidates, target) = match turns.into_iter().nth(2).unwrap().command {
        Command::Select { label, current, candidates, target } => {
            (label, current, candidates, target)
        }
        other => panic!("{:?}", other),
    };
    assert_eq!(candidates, vec!["performance", "powersave", "schedutil"]);

    let (selector, _) = choose_selection(&label, current, candidates, target);
    let (selector, _) = selector.step(Event::Confirmed(Some(Answer::Yes)));
    let (selector, expand) = selector.step(Event::Picked(Some(0)));
    assert_eq!(expand, Action::Expand { pattern: CPUFREQ.to_string() });
    let matches = Expansion::Matches(vec![
        Some("/sys/devices/system/cpu/cpufreq/policy0".to_string()),
        Some("/sys/devices/system/cpu/cpufreq/policy1".to_string()),
    ]);
    let (selector, first) = selector.step(Event::Expanded(matches));
    assert_eq!(
        first,
        Action::Write {
            path: "/sys/devices/system/cpu/cpufreq/policy0/scaling_governor".to_string(),
            value: "performance".to_string(),
        }
    );
    let (selector, second) = selector.step(Event::Wrote(WriteResult::Written));
    assert_eq!(
        second,
        Action::Write {
            path: "/sys/devices/system/cpu/cpufreq/policy1/scaling_governor".to_string(),
            value: "performance".to_string(),
        }
    );
    let (_, last) = selector.step(Event::Wrote(WriteResult::Written));
    let selection = match last {
        Action::Finish(selection) => selection,
        other => panic!("{:?}", other),
    };
    assert_eq!(selection, Selection::Chosen { index: 0, value: "performance".to_string() });

    let (program, turn) = program.advance(Report::Selected(selection));
    assert_eq!(program.phase, Phase::PstateDiscovery { wanted: false, amd: false });
    assert_eq!(
        turn,
        quiet(Command::Discover {
            current: ENERGY_PERFORMANCE_PREFERENCE.to_string(),
            available: ENERGY_PERFORMANCE_AVAILABLE.to_string(),
        })
    );
    let (program, turn) = program.advance(read("balance_power\n", "default performance power\n"));
    assert_eq!(turn, quiet(Command::Exit));
    assert!(program.is_ended());
}

#[test]
fn choosing_another_governor_leads_to_the_preference_round() {
    let (program, turns) = play(vec![
        Report::Probed { pstate: true, amd: false },
        read("performance\n", "performance powersave\n"),
        chosen(1, "powersave"),
        read("balance_power\n", "default performance balance_power power\n"),
    ]);
    assert_eq!(program.phase, Phase::PstateRound { amd: false });
    assert_eq!(
        turns[4],
        quiet(Command::Select {
            label: "pstate".to_string(),
            current: "balance_power\n".to_string(),
            candidates: vec![
                "default".to_string(),
                "performance".to_string(),
                "balance_power".to_string(),
                "power".to_string(),
            ],
            target: ChangeFile::Glob { pattern: CPUFREQ.to_string(), file: ENERGY_FILE.to_string() },
        })
    );
}

#[test]
fn no_preference_round_without_the_interface() {
    let (program, turns) = play(vec![
        Report::Probed { pstate: false, amd: false },
        read("performance\n", "performance powersave\n"),
        chosen(1, "powersave"),
        read("x\n", "a b\n"),
    ]);
    assert!(program.is_ended());
    assert_eq!(turns[4], quiet(Command::Exit));
    assert_eq!(turns.iter().filter(|turn| is_select(turn)).count(), 1);
}

#[test]
fn no_preference_round_after_a_declined_or_failed_governor_round() {
    let failed = Selection::Failed { kind: Failure::Write, path: "/p".to_string() };
    for selection in [Selection::Declined, failed] {
        let (program, turns) = play(vec![
            Report::Probed { pstate: true, amd: false },
            read("performance\n", "performance powersave\n"),
            Report::Selected(selection),
            read("x\n", "a b\n"),
        ]);
        assert!(program.is_ended());
        assert_eq!(turns[4], quiet(Command::Exit));
    }
}

#[test]
fn missing_preference_files_are_fatal_even_when_no_round_is_due() {
    let (program, turns) = play(vec![
        Report::Probed { pstate: false, amd: true },
        read("performance\n", "performance powersave\n"),
        chosen(0, "performance"),
        Report::Read { current: None, available: None },
    ]);
    assert!(program.is_ended());
    assert_eq!(turns[4], quiet(Command::Abort { message: "No pstate Path".to_string() }));
    assert!(!turns.iter().any(touches_card));
}

#[test]
fn without_the_card_the_program_ends_after_the_preference() {
    let (program, turns) = play(vec![
        Report::Probed { pstate: true, amd: false },
        read("performance\n", "performance powersave\n"),
        chosen(1, "powersave"),
        read("power\n", "default power\n"),
        chosen(0, "default"),
    ]);
    assert!(program.is_ended());
    assert_eq!(turns[5], quiet(Command::Exit));
    assert!(!turns.iter().any(touches_card));
    assert!(!turns.iter().any(|turn| matches!(turn.command, Command::Abort { .. })));
}

#[test]
fn with_the_card_its_level_is_read_and_offered() {
    let (program, turns) = play(vec![
        Report::Probed { pstate: true, amd: true },
        read("performance\n", "performance powersave\n"),
        chosen(0, "performance"),
        read("power\n", "default power\n"),
        Report::Current(Some("auto\n".to_string())),
    ]);
    assert_eq!(turns[4], quiet(Command::ReadCurrent { path: AMD_GPU_GOVERNOR.to_string() }));
    assert_eq!(program.phase, Phase::AmdRound);
    assert_eq!(
        turns[5],
        quiet(Command::Select {
            label: "amd_pstate".to_string(),
            current: "auto\n".to_string(),
            candidates: amd_levels(),
            target: ChangeFile::Path { path: AMD_GPU_GOVERNOR.to_string() },
        })
    );
    let (program, turn) = program.advance(Report::Selected(Selection::Declined));
    assert_eq!(turn, quiet(Command::Exit));
    assert!(program.is_ended());
}

#[test]
fn an_unreadable_card_level_is_fatal() {
    let (program, turns) = play(vec![
        Report::Probed { pstate: false, amd: true },
        read("performance\n", "performance powersave\n"),
        Report::Selected(Selection::Declined),
        read("power\n", "default power\n"),
        Report::Current(None),
    ]);
    assert!(program.is_ended());
    assert_eq!(
        turns[5],
        quiet(Command::Abort { message: "Cannot read amd pstate file".to_string() })
    );
}

#[test]
fn a_report_out_of_turn_ends_the_program() {
    let (program, turns) = play(vec![Report::Current(None)]);
    assert!(program.is_ended());
    assert_eq!(turns[1], quiet(Command::Exit));
    let (program, turns) = play(vec![
        Report::Probed { pstate: true, amd: true },
        Report::Selected(Selection::Declined),
        read("a", "b"),
    ]);
    assert!(program.is_ended());
    assert_eq!(turns[2], quiet(Command::Exit));
    assert_eq!(turns[3], quiet(Command::Exit));
}
