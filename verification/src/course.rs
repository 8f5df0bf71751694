use crate::config::Config;
use crate::program::{
    quiet, spec_continue_pstate, CommandView, Phase, ReportView, TurnView,
};
use crate::selector::SelectionView;
use vstd::prelude::*;

verus! {

impl Config {
    /// The phase reached from `phase` after `reports`, one after another,
    /// and the answers on the way: one for each report.
    pub open spec fn spec_play(&self, phase: Phase, reports: Seq<ReportView>) -> (
        Phase,
        Seq<TurnView>,
    )
        decreases reports.len(),
    {
        if reports.len() == 0 {
            (phase, Seq::empty())
        } else {
            let (next, turn) = self.spec_advance(phase, reports.first());
            let (last, turns) = self.spec_play(next, reports.drop_first());
            (last, seq![turn] + turns)
        }
    }
}

/// Whether `command` asks for a round whose value goes to the files of a
/// glob pattern, as the governor and the preference do.
pub open spec fn is_glob_round(command: CommandView) -> bool {
    command matches CommandView::Select { target, .. } && target is Glob
}

/// Whether `command` touches the file of the graphics card: by reading it,
/// or by a round whose value goes to a single path.
pub open spec fn touches_card(command: CommandView) -> bool {
    ||| command is ReadCurrent
    ||| command matches CommandView::Select { target, .. } && target is Path
}

/// Whether the step for the energy-performance preference lies behind
/// `phase` without a round for it being due.
pub open spec fn past_pstate(phase: Phase) -> bool {
    match phase {
        Phase::PstateDiscovery { wanted, .. } => !wanted,
        Phase::AmdRead => true,
        Phase::AmdRound => true,
        Phase::Ended => true,
        _ => false,
    }
}

/// Whether `phase` is one of a machine without the interface of the
/// graphics card.
pub open spec fn cardless(phase: Phase) -> bool {
    match phase {
        Phase::GovernorDiscovery { amd, .. } => !amd,
        Phase::GovernorRound { amd, .. } => !amd,
        Phase::PstateDiscovery { amd, .. } => !amd,
        Phase::PstateRound { amd } => !amd,
        Phase::Ended => true,
        _ => false,
    }
}

/// The number of rounds that `turns` ask for.
pub open spec fn rounds_in(turns: Seq<TurnView>) -> nat
    decreases turns.len(),
{
    if turns.len() == 0 {
        0
    } else if turns.first().command is Select {
        rounds_in(turns.drop_first()) + 1
    } else {
        rounds_in(turns.drop_first())
    }
}

/// The number of rounds that can still be asked for from `phase` on.
pub open spec fn rounds_left(phase: Phase) -> nat {
    match phase {
        Phase::Probing => 3,
        Phase::GovernorDiscovery { .. } => 3,
        Phase::GovernorRound { .. } => 2,
        Phase::PstateDiscovery { .. } => 2,
        Phase::PstateRound { .. } => 1,
        Phase::AmdRead => 1,
        Phase::AmdRound => 0,
        Phase::Ended => 0,
    }
}

/// The first report of a run is answered by one step, and the run goes on
/// from there.
pub proof fn lemma_play_unfolds(config: &Config, phase: Phase, reports: Seq<ReportView>)
    requires
        reports.len() >= 1,
    ensures
        config.spec_play(phase, reports) == ({
            let (next, turn) = config.spec_advance(phase, reports.first());
            let rest = config.spec_play(next, reports.drop_first());
            (rest.0, seq![turn] + rest.1)
        }),
        config.spec_play(phase, reports).1.len() == reports.len(),
    decreases reports.len(),
{
    let next = config.spec_advance(phase, reports.first()).0;
    if reports.len() > 1 {
        lemma_play_unfolds(config, next, reports.drop_first());
    }
}

/// Once the step for the preference lies behind, no round for a glob target
/// is asked for again.
pub proof fn lemma_no_glob_round_later(config: &Config, phase: Phase, reports: Seq<ReportView>)
    requires
        past_pstate(phase),
    ensures
        past_pstate(config.spec_play(phase, reports).0),
        forall|j: int|
            0 <= j < reports.len() ==> !is_glob_round(
                (#[trigger] config.spec_play(phase, reports).1[j]).command,
            ),
    decreases reports.len(),
{
    if reports.len() > 0 {
        lemma_play_unfolds(config, phase, reports);
        let (next, turn) = config.spec_advance(phase, reports.first());
        lemma_no_glob_round_later(config, next, reports.drop_first());
        let rest = config.spec_play(next, reports.drop_first());
        assert forall|j: int| 0 <= j < reports.len() implies !is_glob_round(
            (#[trigger] config.spec_play(phase, reports).1[j]).command,
        ) by {
            if j > 0 {
                assert(config.spec_play(phase, reports).1[j] == rest.1[j - 1]);
            }
        }
    }
}

/// On a machine without the interface of the graphics card, nothing ever
/// touches the file of the card.
pub proof fn lemma_cardless_stays(config: &Config, phase: Phase, reports: Seq<ReportView>)
    requires
        cardless(phase),
    ensures
        cardless(config.spec_play(phase, reports).0),
        forall|j: int|
            0 <= j < reports.len() ==> !touches_card(
                (#[trigger] config.spec_play(phase, reports).1[j]).command,
            ),
    decreases reports.len(),
{
    if reports.len() > 0 {
        lemma_play_unfolds(config, phase, reports);
        let (next, turn) = config.spec_advance(phase, reports.first());
        lemma_cardless_stays(config, next, reports.drop_first());
        let rest = config.spec_play(next, reports.drop_first());
        assert forall|j: int| 0 <= j < reports.len() implies !touches_card(
            (#[trigger] config.spec_play(phase, reports).1[j]).command,
        ) by {
            if j > 0 {
                assert(config.spec_play(phase, reports).1[j] == rest.1[j - 1]);
            }
        }
    }
}

/// The reports up to the end of the round for the governor: the probe, the
/// two governor files as they were read, and how the round ended.
pub open spec fn governor_reports(
    pstate: bool,
    amd: bool,
    current: Seq<char>,
    available: Seq<char>,
    selection: SelectionView,
) -> Seq<ReportView> {
    seq![
        ReportView::Probed { pstate, amd },
        ReportView::Read { current: Some(current), available: Some(available) },
        ReportView::Selected(selection),
    ]
}

/// After the reports up to the end of the round for the governor, the
/// program waits for the files of the preference, and knows whether a round
/// for it is due.
pub proof fn lemma_governor_reports(
    config: &Config,
    pstate: bool,
    amd: bool,
    current: Seq<char>,
    available: Seq<char>,
    selection: SelectionView,
    later: Seq<ReportView>,
)
    ensures
        ({
            let opening = governor_reports(pstate, amd, current, available, selection);
            let wanted = spec_continue_pstate(selection, pstate);
            let whole = config.spec_play(Phase::Probing, opening + later);
            let rest = config.spec_play(Phase::PstateDiscovery { wanted, amd }, later);
            &&& whole.0 == rest.0
            &&& whole.1.len() == later.len() + 3
            &&& forall|j: int| 0 <= j < later.len() ==> #[trigger] whole.1[j + 3] == rest.1[j]
            &&& forall|j: int| 0 <= j < 3 ==> !((#[trigger] whole.1[j]).command is Abort)
            &&& forall|j: int| 0 <= j < 3 ==> !touches_card((#[trigger] whole.1[j]).command)
        }),
{
    let opening = governor_reports(pstate, amd, current, available, selection);
    let reports = opening + later;
    let second = reports.drop_first();
    let third = second.drop_first();
    assert(third.drop_first() =~= later);
    lemma_play_unfolds(config, Phase::Probing, reports);
    lemma_play_unfolds(config, Phase::GovernorDiscovery { pstate, amd }, second);
    lemma_play_unfolds(config, Phase::GovernorRound { pstate, amd }, third);
    let wanted = spec_continue_pstate(selection, pstate);
    if later.len() > 0 {
        lemma_play_unfolds(config, Phase::PstateDiscovery { wanted, amd }, later);
    }
}

/// Where the round for the governor ends with `performance` chosen, no
/// round for the energy-performance preference follows, whether or not the
/// processor offers one and whatever is reported afterwards: no round for a
/// glob target is asked for again.
pub proof fn law_performance_skips_pstate(
    config: &Config,
    pstate: bool,
    amd: bool,
    current: Seq<char>,
    available: Seq<char>,
    index: int,
    later: Seq<ReportView>,
)
    ensures
        ({
            let chosen = SelectionView::Chosen { index, value: "performance"@ };
            let reports = governor_reports(pstate, amd, current, available, chosen) + later;
            let run = config.spec_play(Phase::Probing, reports);
            forall|j: int| 3 <= j < reports.len() ==> !is_glob_round((#[trigger] run.1[j]).command)
        }),
{
    let chosen = SelectionView::Chosen { index, value: "performance"@ };
    let reports = governor_reports(pstate, amd, current, available, chosen) + later;
    let run = config.spec_play(Phase::Probing, reports);
    lemma_governor_reports(config, pstate, amd, current, available, chosen, later);
    let waiting = Phase::PstateDiscovery { wanted: false, amd };
    lemma_no_glob_round_later(config, waiting, later);
    let rest = config.spec_play(waiting, later);
    assert forall|j: int| 3 <= j < reports.len() implies !is_glob_round(
        (#[trigger] run.1[j]).command,
    ) by {
        assert(run.1[(j - 3) + 3] == rest.1[j - 3]);
    }
}

/// On a machine without the interface of the graphics card, nothing that
/// the program asks for touches the file of the card, whatever is reported.
pub proof fn law_no_card_no_card_access(config: &Config, pstate: bool, later: Seq<ReportView>)
    ensures
        ({
            let reports = seq![ReportView::Probed { pstate, amd: false }] + later;
            let run = config.spec_play(Phase::Probing, reports);
            forall|j: int| 0 <= j < reports.len() ==> !touches_card((#[trigger] run.1[j]).command)
        }),
{
    let reports = seq![ReportView::Probed { pstate, amd: false }] + later;
    let run = config.spec_play(Phase::Probing, reports);
    assert(reports.drop_first() =~= later);
    lemma_play_unfolds(config, Phase::Probing, reports);
    let next = Phase::GovernorDiscovery { pstate, amd: false };
    lemma_cardless_stays(config, next, later);
    let rest = config.spec_play(next, later);
    assert forall|j: int| 0 <= j < reports.len() implies !touches_card(
        (#[trigger] run.1[j]).command,
    ) by {
        if j > 0 {
            assert(run.1[j] == rest.1[j - 1]);
        }
    }
}

/// The reports of the step for the preference: its two files as they were
/// read and, where a round for it is due, how that round ended.
pub open spec fn pstate_reports(
    wanted: bool,
    current: Seq<char>,
    available: Seq<char>,
    selection: SelectionView,
) -> Seq<ReportView> {
    let read = seq![ReportView::Read { current: Some(current), available: Some(available) }];
    if wanted {
        read + seq![ReportView::Selected(selection)]
    } else {
        read
    }
}

/// On a machine without the interface of the graphics card, where the files
/// of the governor and of the preference can be read, the program ends with
/// the step for the preference, and without an error.
pub proof fn law_no_card_ends_after_pstate(
    config: &Config,
    pstate: bool,
    governor: (Seq<char>, Seq<char>, SelectionView),
    preference: (Seq<char>, Seq<char>, SelectionView),
)
    ensures
        ({
            let wanted = spec_continue_pstate(governor.2, pstate);
            let reports = governor_reports(pstate, false, governor.0, governor.1, governor.2)
                + pstate_reports(wanted, preference.0, preference.1, preference.2);
            let run = config.spec_play(Phase::Probing, reports);
            &&& run.0 == Phase::Ended
            &&& run.1.last() == quiet(CommandView::Exit)
            &&& forall|j: int| 0 <= j < reports.len() ==> !((#[trigger] run.1[j]).command is Abort)
        }),
{
    let wanted = spec_continue_pstate(governor.2, pstate);
    let later = pstate_reports(wanted, preference.0, preference.1, preference.2);
    let reports = governor_reports(pstate, false, governor.0, governor.1, governor.2) + later;
    let run = config.spec_play(Phase::Probing, reports);
    lemma_governor_reports(config, pstate, false, governor.0, governor.1, governor.2, later);
    let waiting = Phase::PstateDiscovery { wanted, amd: false };
    let rest = config.spec_play(waiting, later);
    lemma_play_unfolds(config, waiting, later);
    if wanted {
        let last = later.drop_first();
        lemma_play_unfolds(config, Phase::PstateRound { amd: false }, last);
        assert(last.drop_first() =~= Seq::<ReportView>::empty());
        assert(rest.1[1] == quiet(CommandView::Exit));
    } else {
        assert(later.drop_first() =~= Seq::<ReportView>::empty());
        assert(rest.1[0] == quiet(CommandView::Exit));
    }
    assert(run.1.last() == rest.1[later.len() - 1]) by {
        assert(run.1[(later.len() - 1) + 3] == rest.1[later.len() - 1]);
    }
    assert forall|j: int| 0 <= j < reports.len() implies !((#[trigger] run.1[j]).command is Abort) by {
        if j >= 3 {
            assert(run.1[(j - 3) + 3] == rest.1[j - 3]);
        }
    }
}

/// From any phase on, no more rounds are asked for than the phase leaves.
pub proof fn lemma_rounds_bounded(config: &Config, phase: Phase, reports: Seq<ReportView>)
    ensures
        rounds_in(config.spec_play(phase, reports).1) <= rounds_left(phase),
    decreases reports.len(),
{
    if reports.len() > 0 {
        lemma_play_unfolds(config, phase, reports);
        let (next, turn) = config.spec_advance(phase, reports.first());
        let rest = config.spec_play(next, reports.drop_first());
        lemma_rounds_bounded(config, next, reports.drop_first());
        let turns = config.spec_play(phase, reports).1;
        assert(turns.first() == turn);
        assert(turns.drop_first() =~= rest.1);
    }
}

/// Whatever is reported, the program offers at most three settings: the
/// governor, the preference and the level of the graphics card.
pub proof fn law_at_most_three_rounds(config: &Config, reports: Seq<ReportView>)
    ensures
        rounds_in(config.spec_play(Phase::Probing, reports).1) <= 3,
{
    lemma_rounds_bounded(config, Phase::Probing, reports);
}

} // verus!
