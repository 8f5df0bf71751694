use crate::target::{ChangeFile, Expansion};
use vstd::prelude::*;
use vstd::string::*;

verus! {

/// The answer to the question whether a setting is to be chosen at all.
#[derive(Clone, Copy, Debug, PartialEq, Eq)]
pub enum Answer {
    Yes,
    No,
}

/// How one write went.
#[derive(Clone, Copy, Debug, PartialEq, Eq)]
pub enum WriteResult {
    Written,
    CannotOpen,
    CannotWrite,
}

/// What made a selection fail after the value was picked.
#[derive(Clone, Copy, Debug, PartialEq, Eq)]
pub enum Failure {
    /// The glob pattern does not compile.
    Pattern,
    /// A target file could not be opened.
    Open,
    /// A target file could not be written.
    Write,
}

/// How the round for one setting ended.
#[derive(Debug, PartialEq, Eq)]
pub enum Selection {
    /// The user said no, or left one of the two prompts.
    Declined,
    /// The value was picked but not written everywhere; `path` is the
    /// pattern that did not compile or the file that failed.
    Failed { kind: Failure, path: String },
    /// The candidate at `index`, which reads `value`, was picked and written
    /// to every target.
    Chosen { index: usize, value: String },
}

/// What the outside reports back to the selector.
#[derive(Debug, PartialEq, Eq)]
pub enum Event {
    /// The answer to the confirmation; `None` if the prompt was left.
    Confirmed(Option<Answer>),
    /// The position of the picked candidate; `None` if the prompt was left.
    Picked(Option<usize>),
    /// What expanding the pattern gave.
    Expanded(Expansion),
    /// How the write that was asked for went.
    Wrote(WriteResult),
}

/// What the selector asks the outside to do next.
#[derive(Debug, PartialEq, Eq)]
pub enum Action {
    /// Ask `prompt` in a menu of `options`, the one at `highlighted` being
    /// the default.
    Confirm { prompt: String, options: Vec<String>, highlighted: usize },
    /// Print `notice`, then ask `prompt` in a menu of `options`, the one at
    /// `highlighted` being the default.
    Pick { notice: String, prompt: String, options: Vec<String>, highlighted: usize },
    /// Expand `pattern` to the directories that match it.
    Expand { pattern: String },
    /// Open `path` for reading and writing, empty it, and write exactly the
    /// bytes of `value`.
    Write { path: String, value: String },
    /// Nothing is left to do.
    Finish(Selection),
}

/// Where a round stands: what the selector waits for.
#[derive(Debug, PartialEq, Eq)]
pub enum Stage {
    /// The answer to the confirmation.
    Confirming,
    /// The picked candidate.
    Picking,
    /// The expansion of the pattern, the candidate at `index` being picked.
    Expanding { index: usize },
    /// The result of writing `paths[next]`.
    Writing { index: usize, paths: Vec<String>, next: usize },
    /// Nothing: the round is over.
    Done(Selection),
}

/// [`Selection`] as a mathematical value.
pub enum SelectionView {
    Declined,
    Failed { kind: Failure, path: Seq<char> },
    Chosen { index: int, value: Seq<char> },
}

/// [`Event`] as a mathematical value.
pub enum EventView {
    Confirmed(Option<Answer>),
    Picked(Option<usize>),
    Expanded(Option<Seq<Option<Seq<char>>>>),
    Wrote(WriteResult),
}

/// [`Action`] as a mathematical value.
pub enum ActionView {
    Confirm { prompt: Seq<char>, options: Seq<Seq<char>>, highlighted: usize },
    Pick { notice: Seq<char>, prompt: Seq<char>, options: Seq<Seq<char>>, highlighted: usize },
    Expand { pattern: Seq<char> },
    Write { path: Seq<char>, value: Seq<char> },
    Finish(SelectionView),
}

/// [`Stage`] as a mathematical value.
pub enum StageView {
    Confirming,
    Picking,
    Expanding { index: int },
    Writing { index: int, paths: Seq<Seq<char>>, next: int },
    Done(SelectionView),
}

impl View for Selection {
    type V = SelectionView;

    open spec fn view(&self) -> SelectionView {
        match self {
            Selection::Declined => SelectionView::Declined,
            Selection::Failed { kind, path } => SelectionView::Failed { kind: *kind, path: path@ },
            Selection::Chosen { index, value } => SelectionView::Chosen {
                index: *index as int,
                value: value@,
            },
        }
    }
}

impl View for Event {
    type V = EventView;

    open spec fn view(&self) -> EventView {
        match self {
            Event::Confirmed(answer) => EventView::Confirmed(*answer),
            Event::Picked(index) => EventView::Picked(*index),
            Event::Expanded(expansion) => EventView::Expanded(expansion@),
            Event::Wrote(result) => EventView::Wrote(*result),
        }
    }
}

impl View for Action {
    type V = ActionView;

    open spec fn view(&self) -> ActionView {
        match self {
            Action::Confirm { prompt, options, highlighted } => ActionView::Confirm {
                prompt: prompt@,
                options: options.deep_view(),
                highlighted: *highlighted,
            },
            Action::Pick { notice, prompt, options, highlighted } => ActionView::Pick {
                notice: notice@,
                prompt: prompt@,
                options: options.deep_view(),
                highlighted: *highlighted,
            },
            Action::Expand { pattern } => ActionView::Expand { pattern: pattern@ },
            Action::Write { path, value } => ActionView::Write { path: path@, value: value@ },
            Action::Finish(selection) => ActionView::Finish(selection@),
        }
    }
}

impl View for Stage {
    type V = StageView;

    open spec fn view(&self) -> StageView {
        match self {
            Stage::Confirming => StageView::Confirming,
            Stage::Picking => StageView::Picking,
            Stage::Expanding { index } => StageView::Expanding { index: *index as int },
            Stage::Writing { index, paths, next } => StageView::Writing {
                index: *index as int,
                paths: paths.deep_view(),
                next: *next as int,
            },
            Stage::Done(selection) => StageView::Done(selection@),
        }
    }
}

/// One setting as it is offered to the user.
#[derive(Debug, PartialEq, Eq)]
pub struct Tunable {
    /// The name of the setting in the prompts.
    pub label: String,
    /// Its value at present, as it was read.
    pub current: String,
    /// The values to pick from, in the order of the menu.
    pub candidates: Vec<String>,
    /// Where the picked value goes.
    pub target: ChangeFile,
}

/// The question whether the setting named `label` is to be chosen.
pub open spec fn confirm_prompt(label: Seq<char>) -> Seq<char> {
    "Choose "@ + label + "?"@
}

/// The request to pick a value for the setting named `label`.
pub open spec fn pick_prompt(label: Seq<char>) -> Seq<char> {
    "Now to choose "@ + label
}

/// The line that shows the value at present.
pub open spec fn current_notice(current: Seq<char>) -> Seq<char> {
    "current : "@ + current
}

/// The first thing a round for the setting named `label` asks for: the
/// confirmation, with yes as the default.
pub open spec fn confirm_of(label: Seq<char>) -> ActionView {
    ActionView::Confirm {
        prompt: confirm_prompt(label),
        options: Answer::spec_labels(),
        highlighted: DEFAULT_ITEM,
    }
}

/// The end of a round with `selection`.
pub open spec fn finished(selection: SelectionView) -> (StageView, ActionView) {
    (StageView::Done(selection), ActionView::Finish(selection))
}

impl Tunable {
    /// What a round asks for on a yes: to show the value at present and to
    /// let the user pick among the candidates, the first one being the
    /// default.
    pub open spec fn pick_of(&self) -> ActionView {
        ActionView::Pick {
            notice: current_notice(self.current@),
            prompt: pick_prompt(self.label@),
            options: self.candidates.deep_view(),
            highlighted: DEFAULT_ITEM,
        }
    }

    /// Whether `stage` can be a stage of a round for this setting.
    pub open spec fn admits(&self, stage: StageView) -> bool {
        match stage {
            StageView::Confirming => true,
            StageView::Picking => true,
            StageView::Expanding { index } => {
                &&& 0 <= index < self.candidates.len()
                &&& self.target.spec_pattern() is Some
            },
            StageView::Writing { index, paths, next } => {
                &&& 0 <= index < self.candidates.len()
                &&& 0 <= next < paths.len()
            },
            StageView::Done(_) => true,
        }
    }

    /// Asks for the write of `paths[next]`, or ends the round with the
    /// candidate at `index` chosen if no path is left.
    pub open spec fn write_from(&self, index: int, paths: Seq<Seq<char>>, next: int) -> (
        StageView,
        ActionView,
    ) {
        if next < paths.len() {
            (
                StageView::Writing { index, paths, next },
                ActionView::Write { path: paths[next], value: self.candidates[index]@ },
            )
        } else {
            finished(SelectionView::Chosen { index, value: self.candidates[index]@ })
        }
    }

    /// The stage that follows `stage` on `event`, and what to do next.
    ///
    /// The round ends as declined on a no, on a prompt that was left, on a
    /// position outside the candidates, and on an event that the stage does
    /// not wait for. It ends as failed on a pattern that does not compile and
    /// on the first write that fails. A round that is over stays over.
    pub open spec fn spec_step(&self, stage: StageView, event: EventView) -> (
        StageView,
        ActionView,
    ) {
        match stage {
            StageView::Confirming => match event {
                EventView::Confirmed(Some(Answer::Yes)) => (StageView::Picking, self.pick_of()),
                _ => finished(SelectionView::Declined),
            },
            StageView::Picking => match event {
                EventView::Picked(Some(index)) => if index < self.candidates.len() {
                    match self.target.spec_pattern() {
                        Some(pattern) => (
                            StageView::Expanding { index: index as int },
                            ActionView::Expand { pattern },
                        ),
                        None => self.write_from(
                            index as int,
                            self.target.spec_targets(Seq::empty()),
                            0,
                        ),
                    }
                } else {
                    finished(SelectionView::Declined)
                },
                _ => finished(SelectionView::Declined),
            },
            StageView::Expanding { index } => match event {
                EventView::Expanded(Some(entries)) => self.write_from(
                    index,
                    self.target.spec_targets(entries),
                    0,
                ),
                EventView::Expanded(None) => finished(
                    SelectionView::Failed {
                        kind: Failure::Pattern,
                        path: match self.target.spec_pattern() {
                            Some(pattern) => pattern,
                            None => Seq::empty(),
                        },
                    },
                ),
                _ => finished(SelectionView::Declined),
            },
            StageView::Writing { index, paths, next } => match event {
                EventView::Wrote(WriteResult::Written) => self.write_from(index, paths, next + 1),
                EventView::Wrote(WriteResult::CannotOpen) => finished(
                    SelectionView::Failed { kind: Failure::Open, path: paths[next] },
                ),
                EventView::Wrote(WriteResult::CannotWrite) => finished(
                    SelectionView::Failed { kind: Failure::Write, path: paths[next] },
                ),
                _ => finished(SelectionView::Declined),
            },
            StageView::Done(selection) => finished(selection),
        }
    }
}

/// The position of the item that both menus highlight at first.
pub const DEFAULT_ITEM: usize = 0;

impl Answer {
    /// The answers as the confirmation menu shows them, yes first.
    pub open spec fn spec_labels() -> Seq<Seq<char>> {
        seq!["Yes"@, "No"@]
    }

    /// The answers as the confirmation menu shows them, yes first.
    pub fn labels() -> (items: Vec<String>)
        ensures
            items.deep_view() == Answer::spec_labels(),
    {
        let mut items: Vec<String> = Vec::new();
        items.push(String::from_str("Yes"));
        items.push(String::from_str("No"));
        assert(items.deep_view() =~= Answer::spec_labels());
        items
    }

    /// The answer at `position` of the confirmation menu, if there is one.
    pub fn from_index(position: usize) -> (answer: Option<Answer>)
        ensures
            answer == if position == 0 {
                Some(Answer::Yes)
            } else if position == 1 {
                Some(Answer::No)
            } else {
                None
            },
    {
        if position == 0 {
            Some(Answer::Yes)
        } else if position == 1 {
            Some(Answer::No)
        } else {
            None
        }
    }
}

impl Selection {
    /// A second value like this one.
    pub fn copy(&self) -> (twin: Selection)
        ensures
            twin@ == self@,
    {
        match self {
            Selection::Declined => Selection::Declined,
            Selection::Failed { kind, path } => Selection::Failed {
                kind: *kind,
                path: path.clone(),
            },
            Selection::Chosen { index, value } => Selection::Chosen {
                index: *index,
                value: value.clone(),
            },
        }
    }

    /// The position of the chosen candidate, if one was chosen and written
    /// to every target.
    pub fn index(&self) -> (position: Option<usize>)
        ensures
            position == match self@ {
                SelectionView::Chosen { index, .. } => Some(index as usize),
                _ => None,
            },
    {
        match self {
            Selection::Chosen { index, .. } => Some(*index),
            _ => None,
        }
    }
}

fn copy_texts(texts: &Vec<String>) -> (twins: Vec<String>)
    ensures
        twins.deep_view() == texts.deep_view(),
{
    let mut twins: Vec<String> = Vec::new();
    let mut i: usize = 0;
    while i < texts.len()
        invariant
            i <= texts.len(),
            twins.deep_view() == texts.deep_view().take(i as int),
        decreases texts.len() - i,
    {
        let ghost done = twins.deep_view();
        twins.push(texts[i].clone());
        assert(twins.deep_view() =~= done.push(texts[i as int]@));
        i += 1;
        assert(twins.deep_view() =~= texts.deep_view().take(i as int));
    }
    assert(texts.deep_view().take(i as int) =~= texts.deep_view());
    twins
}

fn confirm_text(label: &str) -> (text: String)
    ensures
        text@ == confirm_prompt(label@),
{
    let mut text = String::from_str("Choose ");
    text.append(label);
    text.append("?");
    text
}

fn pick_text(label: &str) -> (text: String)
    ensures
        text@ == pick_prompt(label@),
{
    let mut text = String::from_str("Now to choose ");
    text.append(label);
    text
}

fn notice_text(current: &str) -> (text: String)
    ensures
        text@ == current_notice(current@),
{
    let mut text = String::from_str("current : ");
    text.append(current);
    text
}

/// A round for one setting: the setting, and where the round stands.
#[derive(Debug, PartialEq, Eq)]
pub struct Selector {
    pub tunable: Tunable,
    pub stage: Stage,
}

/// Opens the round for the setting named `section`, which stands at
/// `current_select` and can take the values `to_select`, written to
/// `save_file`. The first thing to do is to ask for confirmation.
pub fn choose_selection(
    section: &str,
    current_select: String,
    to_select: Vec<String>,
    save_file: ChangeFile,
) -> (round: (Selector, Action))
    ensures
        round.0.valid(),
        round.0.stage@ == StageView::Confirming,
        round.0.tunable.label@ == section@,
        round.0.tunable.current == current_select,
        round.0.tunable.candidates == to_select,
        round.0.tunable.target == save_file,
        round.1@ == confirm_of(section@),
{
    let first = Action::Confirm {
        prompt: confirm_text(section),
        options: Answer::labels(),
        highlighted: DEFAULT_ITEM,
    };
    let tunable = Tunable {
        label: String::from_str(section),
        current: current_select,
        candidates: to_select,
        target: save_file,
    };
    (Selector { tunable, stage: Stage::Confirming }, first)
}

impl Selector {
    /// Whether the stage fits the setting.
    pub open spec fn valid(&self) -> bool {
        self.tunable.admits(self.stage@)
    }

    /// Decides [`Selector::valid`].
    pub fn is_valid(&self) -> (fits: bool)
        ensures
            fits == self.valid(),
    {
        match &self.stage {
            Stage::Expanding { index } => {
                let from_pattern = match &self.tunable.target {
                    ChangeFile::Glob { .. } => true,
                    ChangeFile::Path { .. } => false,
                };
                *index < self.tunable.candidates.len() && from_pattern
            },
            Stage::Writing { index, paths, next } => {
                assert(paths.deep_view().len() == paths.len());
                *index < self.tunable.candidates.len() && *next < paths.len()
            },
            _ => true,
        }
    }

    /// Whether the round is over.
    pub fn is_done(&self) -> (over: bool)
        ensures
            over == (self.stage@ is Done),
    {
        match &self.stage {
            Stage::Done(_) => true,
            _ => false,
        }
    }

    fn finish(tunable: Tunable, selection: Selection) -> (r: (Selector, Action))
        ensures
            r.0.tunable == tunable,
            (r.0.stage@, r.1@) == finished(selection@),
    {
        let report = selection.copy();
        (Selector { tunable, stage: Stage::Done(selection) }, Action::Finish(report))
    }

    fn write_from(tunable: Tunable, index: usize, paths: Vec<String>, next: usize) -> (r: (
        Selector,
        Action,
    ))
        requires
            index < tunable.candidates.len(),
        ensures
            r.0.tunable == tunable,
            (r.0.stage@, r.1@) == tunable.write_from(
                index as int,
                paths.deep_view(),
                next as int,
            ),
    {
        if next < paths.len() {
            let action = Action::Write {
                path: paths[next].clone(),
                value: tunable.candidates[index].clone(),
            };
            (Selector { tunable, stage: Stage::Writing { index, paths, next } }, action)
        } else {
            let value = tunable.candidates[index].clone();
            Selector::finish(tunable, Selection::Chosen { index, value })
        }
    }

    /// Takes what the outside reports and says what to do next.
    pub fn step(self, event: Event) -> (r: (Selector, Action))
        requires
            self.valid(),
        ensures
            r.0.valid(),
            r.0.tunable == self.tunable,
            (r.0.stage@, r.1@) == self.tunable.spec_step(self.stage@, event@),
    {
        let Selector { tunable, stage } = self;
        match stage {
            Stage::Confirming => match event {
                Event::Confirmed(Some(Answer::Yes)) => {
                    let action = Action::Pick {
                        notice: notice_text(tunable.current.as_str()),
                        prompt: pick_text(tunable.label.as_str()),
                        options: copy_texts(&tunable.candidates),
                        highlighted: DEFAULT_ITEM,
                    };
                    (Selector { tunable, stage: Stage::Picking }, action)
                },
                _ => Selector::finish(tunable, Selection::Declined),
            },
            Stage::Picking => match event {
                Event::Picked(Some(index)) => {
                    if index < tunable.candidates.len() {
                        match tunable.target.pattern() {
                            Some(pattern) => (
                                Selector { tunable, stage: Stage::Expanding { index } },
                                Action::Expand { pattern },
                            ),
                            None => {
                                let none: Vec<Option<String>> = Vec::new();
                                assert(none.deep_view() =~= Seq::empty());
                                let paths = tunable.target.resolve_targets(&none);
                                Selector::write_from(tunable, index, paths, 0)
                            },
                        }
                    } else {
                        Selector::finish(tunable, Selection::Declined)
                    }
                },
                _ => Selector::finish(tunable, Selection::Declined),
            },
            Stage::Expanding { index } => match event {
                Event::Expanded(Expansion::Matches(entries)) => {
                    let paths = tunable.target.resolve_targets(&entries);
                    Selector::write_from(tunable, index, paths, 0)
                },
                Event::Expanded(Expansion::Invalid) => {
                    let path = match tunable.target.pattern() {
                        Some(pattern) => pattern,
                        None => String::new(),
                    };
                    Selector::finish(tunable, Selection::Failed { kind: Failure::Pattern, path })
                },
                _ => Selector::finish(tunable, Selection::Declined),
            },
            Stage::Writing { index, paths, next } => match event {
                Event::Wrote(WriteResult::Written) => {
                    assert(paths.deep_view().len() == paths.len());
                    Selector::write_from(tunable, index, paths, next + 1)
                },
                Event::Wrote(WriteResult::CannotOpen) => {
                    let path = paths[next].clone();
                    Selector::finish(tunable, Selection::Failed { kind: Failure::Open, path })
                },
                Event::Wrote(WriteResult::CannotWrite) => {
                    let path = paths[next].clone();
                    Selector::finish(tunable, Selection::Failed { kind: Failure::Write, path })
                },
                _ => Selector::finish(tunable, Selection::Declined),
            },
            Stage::Done(selection) => Selector::finish(tunable, selection),
        }
    }
}

} // verus!
