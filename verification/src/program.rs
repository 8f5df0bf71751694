use crate::config::{amd_level_names, amd_levels, Config};
use crate::discovery::{discovered, get_selections, text_of};
use crate::selector::{Selection, SelectionView};
use crate::target::{ChangeFile, ChangeFileView};
use vstd::prelude::*;
use vstd::string::*;

verus! {

/// Where the program stands: what it waits for.
#[derive(Clone, Copy, Debug, PartialEq, Eq)]
pub enum Phase {
    /// Which of the two optional interfaces the machine has.
    Probing,
    /// The two governor files.
    GovernorDiscovery { pstate: bool, amd: bool },
    /// The end of the round for the governor.
    GovernorRound { pstate: bool, amd: bool },
    /// The two preference files; `wanted` says whether a round follows.
    PstateDiscovery { wanted: bool, amd: bool },
    /// The end of the round for the preference.
    PstateRound { amd: bool },
    /// The current performance level of the graphics card.
    AmdRead,
    /// The end of the round for the graphics card.
    AmdRound,
    /// Nothing: the program is over.
    Ended,
}

/// What the outside reports back to the program.
#[derive(Debug, PartialEq, Eq)]
pub enum Report {
    /// Whether the preference file and the file of the graphics card exist.
    Probed { pstate: bool, amd: bool },
    /// The texts of the two files of a setting; `None` for one that could
    /// not be read.
    Read { current: Option<String>, available: Option<String> },
    /// The text of the one file that was asked for.
    Current(Option<String>),
    /// How the round that was asked for ended.
    Selected(Selection),
}

/// What the program asks the outside to do next.
#[derive(Debug, PartialEq, Eq)]
pub enum Command {
    /// Say whether the files at `pstate` and `amd` exist.
    Probe { pstate: String, amd: String },
    /// Read the files at `current` and `available`.
    Discover { current: String, available: String },
    /// Read the file at `path`.
    ReadCurrent { path: String },
    /// Run a round for the setting.
    Select { label: String, current: String, candidates: Vec<String>, target: ChangeFile },
    /// Print `message` as an error and end the program.
    Abort { message: String },
    /// End the program.
    Exit,
}

/// One answer of the program: lines to print, then what to do.
#[derive(Debug, PartialEq, Eq)]
pub struct Turn {
    pub lines: Vec<String>,
    pub command: Command,
}

/// [`Report`] as a mathematical value.
pub enum ReportView {
    Probed { pstate: bool, amd: bool },
    Read { current: Option<Seq<char>>, available: Option<Seq<char>> },
    Current(Option<Seq<char>>),
    Selected(SelectionView),
}

/// [`Command`] as a mathematical value.
pub enum CommandView {
    Probe { pstate: Seq<char>, amd: Seq<char> },
    Discover { current: Seq<char>, available: Seq<char> },
    ReadCurrent { path: Seq<char> },
    Select {
        label: Seq<char>,
        current: Seq<char>,
        candidates: Seq<Seq<char>>,
        target: ChangeFileView,
    },
    Abort { message: Seq<char> },
    Exit,
}

/// [`Turn`] as a mathematical value.
pub struct TurnView {
    pub lines: Seq<Seq<char>>,
    pub command: CommandView,
}

impl View for Report {
    type V = ReportView;

    open spec fn view(&self) -> ReportView {
        match self {
            Report::Probed { pstate, amd } => ReportView::Probed { pstate: *pstate, amd: *amd },
            Report::Read { current, available } => ReportView::Read {
                current: text_of(*current),
                available: text_of(*available),
            },
            Report::Current(current) => ReportView::Current(text_of(*current)),
            Report::Selected(selection) => ReportView::Selected(selection@),
        }
    }
}

impl View for Command {
    type V = CommandView;

    open spec fn view(&self) -> CommandView {
        match self {
            Command::Probe { pstate, amd } => CommandView::Probe { pstate: pstate@, amd: amd@ },
            Command::Discover { current, available } => CommandView::Discover {
                current: current@,
                available: available@,
            },
            Command::ReadCurrent { path } => CommandView::ReadCurrent { path: path@ },
            Command::Select { label, current, candidates, target } => CommandView::Select {
                label: label@,
                current: current@,
                candidates: candidates.deep_view(),
                target: target@,
            },
            Command::Abort { message } => CommandView::Abort { message: message@ },
            Command::Exit => CommandView::Exit,
        }
    }
}

impl View for Turn {
    type V = TurnView;

    open spec fn view(&self) -> TurnView {
        TurnView { lines: self.lines.deep_view(), command: self.command@ }
    }
}

/// The lines that tell the user which optional interfaces the machine has.
pub open spec fn probe_lines(pstate: bool, amd: bool) -> Seq<Seq<char>> {
    let intel = if pstate {
        seq![
            "You have intel pstate, set scaling to power_save to use performance from pstate"@,
            "then else, please set it to performance to use scaling"@,
        ]
    } else {
        Seq::empty()
    };
    let card = if amd {
        seq!["You can alse set amd_pstate"@]
    } else {
        Seq::empty()
    };
    intel + card
}

/// The line that shows the governor at present.
pub open spec fn scaling_line(current: Seq<char>) -> Seq<char> {
    "current scaling : "@ + current
}

/// Whether a round for the energy-performance preference follows the round
/// for the governor: a governor was chosen, it is not `performance`, and the
/// processor offers the preference.
pub open spec fn spec_continue_pstate(selection: SelectionView, pstate: bool) -> bool {
    &&& selection matches SelectionView::Chosen { value, .. }
    &&& value != "performance"@
    &&& pstate
}

/// An answer without lines.
pub open spec fn quiet(command: CommandView) -> TurnView {
    TurnView { lines: Seq::empty(), command }
}

/// The end of the program.
pub open spec fn stop() -> (Phase, TurnView) {
    (Phase::Ended, quiet(CommandView::Exit))
}

/// The end of the program with an error.
pub open spec fn abort(message: Seq<char>) -> (Phase, TurnView) {
    (Phase::Ended, quiet(CommandView::Abort { message }))
}

impl Config {
    /// What follows the step for the energy-performance preference: the
    /// graphics card where the machine has one, else the end.
    pub open spec fn after_pstate(&self, amd: bool) -> (Phase, TurnView) {
        if amd {
            (Phase::AmdRead, quiet(CommandView::ReadCurrent { path: self.amd_current@ }))
        } else {
            stop()
        }
    }

    /// The phase that follows `phase` on `report`, and the answer.
    ///
    /// The governor comes first and its files must be there. The files of
    /// the preference are read in any case and must be there too, but the
    /// round for it is run only where [`spec_continue_pstate`] holds. The
    /// graphics card comes last, and only where the machine has one. A report
    /// that the phase does not wait for ends the program.
    pub open spec fn spec_advance(&self, phase: Phase, report: ReportView) -> (Phase, TurnView) {
        match phase {
            Phase::Probing => match report {
                ReportView::Probed { pstate, amd } => (
                    Phase::GovernorDiscovery { pstate, amd },
                    TurnView {
                        lines: probe_lines(pstate, amd),
                        command: CommandView::Discover {
                            current: self.governor_current@,
                            available: self.governor_available@,
                        },
                    },
                ),
                _ => stop(),
            },
            Phase::GovernorDiscovery { pstate, amd } => match report {
                ReportView::Read { current, available } => match discovered(current, available) {
                    Some((value, candidates)) => (
                        Phase::GovernorRound { pstate, amd },
                        TurnView {
                            lines: seq![scaling_line(value)],
                            command: CommandView::Select {
                                label: "scaling selected"@,
                                current: value,
                                candidates,
                                target: self.spec_governor_target(),
                            },
                        },
                    ),
                    None => abort("No Scaling Path"@),
                },
                _ => stop(),
            },
            Phase::GovernorRound { pstate, amd } => match report {
                ReportView::Selected(selection) => (
                    Phase::PstateDiscovery { wanted: spec_continue_pstate(selection, pstate), amd },
                    quiet(
                        CommandView::Discover {
                            current: self.pstate_current@,
                            available: self.pstate_available@,
                        },
                    ),
                ),
                _ => stop(),
            },
            Phase::PstateDiscovery { wanted, amd } => match report {
                ReportView::Read { current, available } => match discovered(current, available) {
                    Some((value, candidates)) => if wanted {
                        (
                            Phase::PstateRound { amd },
                            quiet(
                                CommandView::Select {
                                    label: "pstate"@,
                                    current: value,
                                    candidates,
                                    target: self.spec_pstate_target(),
                                },
                            ),
                        )
                    } else {
                        self.after_pstate(amd)
                    },
                    None => abort("No pstate Path"@),
                },
                _ => stop(),
            },
            Phase::PstateRound { amd } => match report {
                ReportView::Selected(_) => self.after_pstate(amd),
                _ => stop(),
            },
            Phase::AmdRead => match report {
                ReportView::Current(Some(value)) => (
                    Phase::AmdRound,
                    quiet(
                        CommandView::Select {
                            label: "amd_pstate"@,
                            current: value,
                            candidates: amd_level_names(),
                            target: self.spec_amd_target(),
                        },
                    ),
                ),
                ReportView::Current(None) => abort("Cannot read amd pstate file"@),
                _ => stop(),
            },
            Phase::AmdRound => stop(),
            Phase::Ended => stop(),
        }
    }
}

/// Whether a round for the energy-performance preference follows the round
/// for the governor, which ended with `selection`, on a machine that offers
/// the preference or not (`pstate`).
pub fn continue_pstate(selection: &Selection, pstate: bool) -> (wanted: bool)
    ensures
        wanted == spec_continue_pstate(selection@, pstate),
{
    match selection {
        Selection::Chosen { value, .. } => {
            let full = String::from_str("performance");
            !(*value == full) && pstate
        },
        _ => false,
    }
}

fn say_nothing(command: Command) -> (turn: Turn)
    ensures
        turn@ == quiet(command@),
{
    let lines: Vec<String> = Vec::new();
    assert(lines.deep_view() =~= Seq::<Seq<char>>::empty());
    Turn { lines, command }
}

fn probe_report(pstate: bool, amd: bool) -> (lines: Vec<String>)
    ensures
        lines.deep_view() == probe_lines(pstate, amd),
{
    let mut lines: Vec<String> = Vec::new();
    if pstate {
        lines.push(
            String::from_str(
                "You have intel pstate, set scaling to power_save to use performance from pstate",
            ),
        );
        lines.push(String::from_str("then else, please set it to performance to use scaling"));
    }
    if amd {
        lines.push(String::from_str("You can alse set amd_pstate"));
    }
    assert(lines.deep_view() =~= probe_lines(pstate, amd));
    lines
}

/// The program: the files it works on, and where it stands.
#[derive(Debug, PartialEq, Eq)]
pub struct Program {
    pub config: Config,
    pub phase: Phase,
}

impl Program {
    /// The program before anything has happened. The first thing to do is to
    /// find out which optional interfaces the machine has.
    pub fn start(config: Config) -> (begun: (Program, Turn))
        ensures
            begun.0.config == config,
            begun.0.phase == Phase::Probing,
            begun.1@ == quiet(
                CommandView::Probe { pstate: config.pstate_current@, amd: config.amd_current@ },
            ),
    {
        let command = Command::Probe {
            pstate: config.pstate_current.clone(),
            amd: config.amd_current.clone(),
        };
        (Program { config, phase: Phase::Probing }, say_nothing(command))
    }

    /// Whether the program is over.
    pub fn is_ended(&self) -> (over: bool)
        ensures
            over == (self.phase is Ended),
    {
        match self.phase {
            Phase::Ended => true,
            _ => false,
        }
    }

    fn stop(config: Config) -> (r: (Program, Turn))
        ensures
            r.0.config == config,
            (r.0.phase, r.1@) == stop(),
    {
        (Program { config, phase: Phase::Ended }, say_nothing(Command::Exit))
    }

    fn abort(config: Config, message: &str) -> (r: (Program, Turn))
        ensures
            r.0.config == config,
            (r.0.phase, r.1@) == abort(message@),
    {
        let command = Command::Abort { message: String::from_str(message) };
        (Program { config, phase: Phase::Ended }, say_nothing(command))
    }

    fn after_pstate(config: Config, amd: bool) -> (r: (Program, Turn))
        ensures
            r.0.config == config,
            (r.0.phase, r.1@) == config.after_pstate(amd),
    {
        if amd {
            let command = Command::ReadCurrent { path: config.amd_current.clone() };
            (Program { config, phase: Phase::AmdRead }, say_nothing(command))
        } else {
            Program::stop(config)
        }
    }

    /// Takes what the outside reports and answers with what to do next.
    pub fn advance(self, report: Report) -> (r: (Program, Turn))
        ensures
            r.0.config == self.config,
            (r.0.phase, r.1@) == self.config.spec_advance(self.phase, report@),
    {
        let Program { config, phase } = self;
        match phase {
            Phase::Probing => match report {
                Report::Probed { pstate, amd } => {
                    let command = Command::Discover {
                        current: config.governor_current.clone(),
                        available: config.governor_available.clone(),
                    };
                    let turn = Turn { lines: probe_report(pstate, amd), command };
                    (Program { config, phase: Phase::GovernorDiscovery { pstate, amd } }, turn)
                },
                _ => Program::stop(config),
            },
            Phase::GovernorDiscovery { pstate, amd } => match report {
                Report::Read { current, available } => match get_selections(current, available) {
                    Some((value, candidates)) => {
                        let mut line = String::from_str("current scaling : ");
                        line.append(value.as_str());
                        let mut lines: Vec<String> = Vec::new();
                        lines.push(line);
                        assert(lines.deep_view() =~= seq![scaling_line(value@)]);
                        let command = Command::Select {
                            label: String::from_str("scaling selected"),
                            current: value,
                            candidates,
                            target: config.governor_target(),
                        };
                        (
                            Program { config, phase: Phase::GovernorRound { pstate, amd } },
                            Turn { lines, command },
                        )
                    },
                    None => Program::abort(config, "No Scaling Path"),
                },
                _ => Program::stop(config),
            },
            Phase::GovernorRound { pstate, amd } => match report {
                Report::Selected(selection) => {
                    let wanted = continue_pstate(&selection, pstate);
                    let command = Command::Discover {
                        current: config.pstate_current.clone(),
                        available: config.pstate_available.clone(),
                    };
                    (
                        Program { config, phase: Phase::PstateDiscovery { wanted, amd } },
                        say_nothing(command),
                    )
                },
                _ => Program::stop(config),
            },
            Phase::PstateDiscovery { wanted, amd } => match report {
                Report::Read { current, available } => match get_selections(current, available) {
                    Some((value, candidates)) => {
                        if wanted {
                            let command = Command::Select {
                                label: String::from_str("pstate"),
                                current: value,
                                candidates,
                                target: config.pstate_target(),
                            };
                            (
                                Program { config, phase: Phase::PstateRound { amd } },
                                say_nothing(command),
                            )
                        } else {
                            Program::after_pstate(config, amd)
                        }
                    },
                    None => Program::abort(config, "No pstate Path"),
                },
                _ => Program::stop(config),
            },
            Phase::PstateRound { amd } => match report {
                Report::Selected(_) => Program::after_pstate(config, amd),
                _ => Program::stop(config),
            },
            Phase::AmdRead => match report {
                Report::Current(Some(value)) => {
                    let command = Command::Select {
                        label: String::from_str("amd_pstate"),
                        current: value,
                        candidates: amd_levels(),
                        target: config.amd_target(),
                    };
                    (Program { config, phase: Phase::AmdRound }, say_nothing(command))
                },
                Report::Current(None) => Program::abort(config, "Cannot read amd pstate file"),
                _ => Program::stop(config),
            },
            Phase::AmdRound => Program::stop(config),
            Phase::Ended => Program::stop(config),
        }
    }
}

} // verus!
