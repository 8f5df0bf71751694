use crate::selector::{
    ActionView, Answer, EventView, Failure, SelectionView, StageView, Tunable,
    WriteResult,
};
use vstd::prelude::*;

verus! {

impl Tunable {
    /// The stage reached from `stage` after `events`, one after another, and
    /// what was asked for on the way: one action for each event.
    pub open spec fn spec_run(&self, stage: StageView, events: Seq<EventView>) -> (
        StageView,
        Seq<ActionView>,
    )
        decreases events.len(),
    {
        if events.len() == 0 {
            (stage, Seq::empty())
        } else {
            let (next, action) = self.spec_step(stage, events.first());
            let (last, actions) = self.spec_run(next, events.drop_first());
            (last, seq![action] + actions)
        }
    }

    /// The writes of `paths[from]` and the `count - 1` paths behind it, each
    /// with the candidate at `index`.
    pub open spec fn writes(&self, index: int, paths: Seq<Seq<char>>, from: int, count: nat) -> Seq<
        ActionView,
    > {
        Seq::new(
            count,
            |j: int| ActionView::Write { path: paths[from + j], value: self.candidates[index]@ },
        )
    }
}

/// `count` reports of a write that went well.
pub open spec fn all_written(count: nat) -> Seq<EventView> {
    Seq::new(count, |j: int| EventView::Wrote(WriteResult::Written))
}

/// `count` times the end of a round with `selection`.
pub open spec fn all_finish(selection: SelectionView, count: nat) -> Seq<ActionView> {
    Seq::new(count, |j: int| ActionView::Finish(selection))
}

/// The failure that a write result stands for.
pub open spec fn failure_of(result: WriteResult) -> Failure {
    match result {
        WriteResult::CannotOpen => Failure::Open,
        _ => Failure::Write,
    }
}

/// Whether a round that sees `events` first is declined: by a no, or by
/// leaving the confirmation or the choice.
pub open spec fn declines(events: Seq<EventView>) -> bool {
    ||| events.len() >= 1 && events[0] == EventView::Confirmed(Some(Answer::No))
    ||| events.len() >= 1 && events[0] == EventView::Confirmed(None)
    ||| events.len() >= 2 && events[0] == EventView::Confirmed(Some(Answer::Yes)) && events[1]
        == EventView::Picked(None)
}

/// A round that is over stays over, whatever is reported to it, and asks for
/// nothing but to finish.
pub proof fn lemma_done_absorbs(t: &Tunable, selection: SelectionView, events: Seq<EventView>)
    ensures
        t.spec_run(StageView::Done(selection), events) == (
            StageView::Done(selection),
            all_finish(selection, events.len()),
        ),
    decreases events.len(),
{
    let run = t.spec_run(StageView::Done(selection), events);
    if events.len() == 0 {
        assert(run.1 =~= all_finish(selection, 0));
    } else {
        lemma_done_absorbs(t, selection, events.drop_first());
        assert(run.1 =~= all_finish(selection, events.len()));
    }
}

/// While writes go well and paths are left, each report is answered by the
/// write of the next path.
pub proof fn lemma_writes_go_on(
    t: &Tunable,
    index: int,
    paths: Seq<Seq<char>>,
    next: int,
    count: nat,
    tail: Seq<EventView>,
)
    requires
        0 <= next,
        next + count < paths.len(),
    ensures
        t.spec_run(StageView::Writing { index, paths, next }, all_written(count) + tail) == ({
            let rest = t.spec_run(StageView::Writing { index, paths, next: next + count }, tail);
            (rest.0, t.writes(index, paths, next + 1, count) + rest.1)
        }),
    decreases count,
{
    let events = all_written(count) + tail;
    let start = StageView::Writing { index, paths, next };
    let rest = t.spec_run(StageView::Writing { index, paths, next: next + count }, tail);
    if count == 0 {
        assert(events =~= tail);
        assert(t.writes(index, paths, next + 1, 0) + rest.1 =~= rest.1);
    } else {
        let fewer = (count - 1) as nat;
        assert(events.first() == EventView::Wrote(WriteResult::Written));
        assert(events.drop_first() =~= all_written(fewer) + tail);
        lemma_writes_go_on(t, index, paths, next + 1, fewer, tail);
        let first = ActionView::Write { path: paths[next + 1], value: t.candidates[index]@ };
        assert(t.spec_step(start, events.first()) == (
            StageView::Writing { index, paths, next: next + 1 },
            first,
        ));
        assert(seq![first] + (t.writes(index, paths, next + 2, fewer) + rest.1) =~= t.writes(
            index,
            paths,
            next + 1,
            count,
        ) + rest.1);
    }
}

/// The first event of a run is answered by one step, and the run goes on
/// from there; it asks for one thing for each event.
pub proof fn lemma_run_unfolds(t: &Tunable, stage: StageView, events: Seq<EventView>)
    requires
        events.len() >= 1,
    ensures
        t.spec_run(stage, events) == ({
            let (next, action) = t.spec_step(stage, events.first());
            let rest = t.spec_run(next, events.drop_first());
            (rest.0, seq![action] + rest.1)
        }),
        t.spec_run(stage, events).1.len() == events.len(),
    decreases events.len(),
{
    if events.len() > 1 {
        lemma_run_unfolds(t, t.spec_step(stage, events.first()).0, events.drop_first());
    }
}

/// A round that the user declines, by a no or by leaving either prompt, ends
/// as declined and never asks for a pattern to be expanded or a file to be
/// written, whatever is reported to it afterwards.
pub proof fn law_declined_writes_nothing(t: &Tunable, events: Seq<EventView>)
    requires
        declines(events),
    ensures
        t.spec_run(StageView::Confirming, events).0 == StageView::Done(SelectionView::Declined),
        forall|k: int|
            0 <= k < events.len() ==> {
                let action = #[trigger] t.spec_run(StageView::Confirming, events).1[k];
                !(action is Write) && !(action is Expand)
            },
{
    let gone = SelectionView::Declined;
    let run = t.spec_run(StageView::Confirming, events);
    let later = events.drop_first();
    lemma_run_unfolds(t, StageView::Confirming, events);
    if events[0] == EventView::Confirmed(Some(Answer::Yes)) {
        lemma_run_unfolds(t, StageView::Picking, later);
        lemma_done_absorbs(t, gone, later.drop_first());
        assert(run.1 =~= seq![t.pick_of()] + all_finish(gone, (events.len() - 1) as nat));
    } else {
        lemma_done_absorbs(t, gone, later);
        assert(run.1 =~= all_finish(gone, events.len()));
    }
}

/// The events of a round in which the user says yes, picks the candidate at
/// `index`, and the pattern expands to `entries`.
pub open spec fn glob_opening(index: usize, entries: Seq<Option<Seq<char>>>) -> Seq<EventView> {
    seq![
        EventView::Confirmed(Some(Answer::Yes)),
        EventView::Picked(Some(index)),
        EventView::Expanded(Some(entries)),
    ]
}

/// The run up to the expansion: the round then stands where the writes
/// begin, having asked for the choice and for the expansion.
proof fn lemma_glob_opening(
    t: &Tunable,
    index: usize,
    entries: Seq<Option<Seq<char>>>,
    tail: Seq<EventView>,
)
    requires
        t.target.spec_pattern() is Some,
        index < t.candidates.len(),
    ensures
        t.spec_run(StageView::Confirming, glob_opening(index, entries) + tail) == ({
            let paths = t.target.spec_targets(entries);
            let (stage, action) = t.write_from(index as int, paths, 0);
            let rest = t.spec_run(stage, tail);
            (
                rest.0,
                seq![
                    t.pick_of(),
                    ActionView::Expand { pattern: t.target.spec_pattern()->0 },
                    action,
                ] + rest.1,
            )
        }),
{
    let events = glob_opening(index, entries) + tail;
    let second = events.drop_first();
    let third = second.drop_first();
    let paths = t.target.spec_targets(entries);
    let (stage, action) = t.write_from(index as int, paths, 0);
    let rest = t.spec_run(stage, tail);
    assert(third.drop_first() =~= tail);
    lemma_run_unfolds(t, StageView::Confirming, events);
    lemma_run_unfolds(t, StageView::Picking, second);
    lemma_run_unfolds(t, StageView::Expanding { index: index as int }, third);
    let expand = ActionView::Expand { pattern: t.target.spec_pattern()->0 };
    assert(seq![t.pick_of()] + (seq![expand] + (seq![action] + rest.1)) =~= seq![
        t.pick_of(),
        expand,
        action,
    ] + rest.1);
}

/// In a round for a glob target where every write goes well, the file in
/// every matched directory is written exactly once, in the order of
/// enumeration, each with exactly the picked value; then the round ends with
/// that value chosen.
pub proof fn law_glob_round_writes_all(
    t: &Tunable,
    index: usize,
    entries: Seq<Option<Seq<char>>>,
)
    requires
        t.target.spec_pattern() is Some,
        index < t.candidates.len(),
    ensures
        ({
            let paths = t.target.spec_targets(entries);
            let chosen = SelectionView::Chosen {
                index: index as int,
                value: t.candidates[index as int]@,
            };
            t.spec_run(
                StageView::Confirming,
                glob_opening(index, entries) + all_written(paths.len()),
            ) == (
                StageView::Done(chosen),
                seq![t.pick_of(), ActionView::Expand { pattern: t.target.spec_pattern()->0 }]
                    + t.writes(index as int, paths, 0, paths.len()) + seq![
                    ActionView::Finish(chosen),
                ],
            )
        }),
{
    let paths = t.target.spec_targets(entries);
    let n = paths.len();
    let chosen = SelectionView::Chosen {
                index: index as int,
                value: t.candidates[index as int]@,
            };
    let expand = ActionView::Expand { pattern: t.target.spec_pattern()->0 };
    let run = t.spec_run(StageView::Confirming, glob_opening(index, entries) + all_written(n));
    lemma_glob_opening(t, index, entries, all_written(n));
    if n == 0 {
        assert(run.1 =~= seq![t.pick_of(), expand] + t.writes(index as int, paths, 0, 0) + seq![
            ActionView::Finish(chosen),
        ]);
    } else {
        let fewer = (n - 1) as nat;
        let last = seq![EventView::Wrote(WriteResult::Written)];
        assert(all_written(n) =~= all_written(fewer) + last);
        lemma_writes_go_on(t, index as int, paths, 0, fewer, last);
        let end = StageView::Writing { index: index as int, paths, next: n - 1 };
        lemma_run_unfolds(t, end, last);
        assert(last.drop_first() =~= Seq::<EventView>::empty());
        assert(t.spec_run(end, last).1 =~= seq![ActionView::Finish(chosen)]);
        assert(run.1 =~= seq![t.pick_of(), expand] + t.writes(index as int, paths, 0, n) + seq![
            ActionView::Finish(chosen),
        ]);
    }
}

/// In a round for a glob target, the first write that fails ends the round:
/// the files up to the failing one were asked for, one by one, and no file
/// behind it is ever written, whatever is reported afterwards. The round
/// ends as failed, naming the file that failed.
pub proof fn law_first_failure_stops(
    t: &Tunable,
    index: usize,
    entries: Seq<Option<Seq<char>>>,
    good: nat,
    bad: WriteResult,
    later: Seq<EventView>,
)
    requires
        t.target.spec_pattern() is Some,
        index < t.candidates.len(),
        good < t.target.spec_targets(entries).len(),
        bad != WriteResult::Written,
    ensures
        ({
            let paths = t.target.spec_targets(entries);
            let failed = SelectionView::Failed {
                kind: failure_of(bad),
                path: paths[good as int],
            };
            t.spec_run(
                StageView::Confirming,
                glob_opening(index, entries) + all_written(good) + seq![EventView::Wrote(bad)]
                    + later,
            ) == (
                StageView::Done(failed),
                seq![t.pick_of(), ActionView::Expand { pattern: t.target.spec_pattern()->0 }]
                    + t.writes(index as int, paths, 0, good + 1) + all_finish(
                    failed,
                    later.len() + 1,
                ),
            )
        }),
{
    let paths = t.target.spec_targets(entries);
    let failed = SelectionView::Failed { kind: failure_of(bad), path: paths[good as int] };
    let expand = ActionView::Expand { pattern: t.target.spec_pattern()->0 };
    let tail = seq![EventView::Wrote(bad)] + later;
    let events = glob_opening(index, entries) + all_written(good) + seq![EventView::Wrote(bad)]
        + later;
    let run = t.spec_run(StageView::Confirming, events);
    assert(events =~= glob_opening(index, entries) + (all_written(good) + tail));
    lemma_glob_opening(t, index, entries, all_written(good) + tail);
    lemma_writes_go_on(t, index as int, paths, 0, good, tail);
    let at = StageView::Writing { index: index as int, paths, next: good as int };
    lemma_run_unfolds(t, at, tail);
    assert(tail.drop_first() =~= later);
    lemma_done_absorbs(t, failed, later);
    assert(t.spec_run(at, tail).1 =~= all_finish(failed, later.len() + 1));
    assert(run.1 =~= seq![t.pick_of(), expand] + t.writes(index as int, paths, 0, good + 1)
        + all_finish(failed, later.len() + 1));
}

} // verus!
