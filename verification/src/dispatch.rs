//! What is done with the candidates that the user confirmed: each is handed
//! to an action in turn, and how one action ends has no effect on the others.

use vstd::prelude::*;
use crate::errors::LostTheWay;
use crate::search::SearchSnippet;

verus! {

/// An action asked of the caller for one selected candidate.
#[derive(Debug, PartialEq, Eq)]
pub enum SelectionAction {
    /// Copy this text, the code of the snippet, to the system clipboard.
    CopyToClipboard(String),
}

/// Hands the selected candidates to their action, one at a time and in
/// order. The caller performs the action that `next_action` asks for and
/// reports with `record` how it went.
#[derive(Debug)]
pub struct Dispatcher {
    selected: Vec<SearchSnippet>,
    outcomes: Vec<bool>,
}

/// What a `Dispatcher` holds, as plain values.
pub struct DispatchView {
    /// The code of each selected snippet, in the order of the selection.
    pub texts: Seq<Seq<char>>,
    /// How the actions performed so far went: `true` for success.
    pub outcomes: Seq<bool>,
}

impl DispatchView {
    /// The state before any action: every item of `texts` is still to be
    /// handled.
    pub open spec fn start(texts: Seq<Seq<char>>) -> DispatchView {
        DispatchView { texts, outcomes: Seq::empty() }
    }

    /// The text of the action that is due, if one is.
    pub open spec fn pending(self) -> Option<Seq<char>> {
        if self.outcomes.len() < self.texts.len() {
            Some(self.texts[self.outcomes.len() as int])
        } else {
            None
        }
    }

    /// The state once the action that was due has ended, well (`done`) or
    /// not. Where none was due nothing changes.
    pub open spec fn recorded(self, done: bool) -> DispatchView {
        if self.outcomes.len() < self.texts.len() {
            DispatchView { texts: self.texts, outcomes: self.outcomes.push(done) }
        } else {
            self
        }
    }

    /// The state after the outcomes of several actions were recorded one by
    /// one, starting before any action.
    pub open spec fn after(texts: Seq<Seq<char>>, outcomes: Seq<bool>) -> DispatchView
        decreases outcomes.len(),
    {
        if outcomes.len() == 0 {
            DispatchView::start(texts)
        } else {
            DispatchView::after(texts, outcomes.drop_last()).recorded(outcomes.last())
        }
    }
}

/// The code of each candidate.
pub open spec fn code_bodies(selected: Seq<SearchSnippet>) -> Seq<Seq<char>> {
    selected.map_values(|candidate: SearchSnippet| candidate@.snippet.code)
}

/// Whether `result` is what the caller is told of an action that ended as
/// `done` says: an empty confirmation for success, a `ClipboardError` for
/// failure.
pub open spec fn reports(result: Result<String, LostTheWay>, done: bool) -> bool {
    match result {
        Ok(confirmation) => done && confirmation@ == Seq::<char>::empty(),
        Err(error) => !done && error == LostTheWay::ClipboardError,
    }
}

impl View for Dispatcher {
    type V = DispatchView;

    closed spec fn view(&self) -> DispatchView {
        DispatchView { texts: code_bodies(self.selected@), outcomes: self.outcomes@ }
    }
}

impl Dispatcher {
    /// No outcome is recorded for an action that was never asked for.
    #[verifier::type_invariant]
    spec fn outcomes_within(self) -> bool {
        self.outcomes@.len() <= self.selected@.len()
    }

    /// A dispatcher for the candidates that the user confirmed.
    pub fn new(selected: Vec<SearchSnippet>) -> (dispatcher: Dispatcher)
        ensures
            dispatcher@ == DispatchView::start(code_bodies(selected@)),
    {
        Dispatcher { selected, outcomes: Vec::new() }
    }

    /// The action that is due: the copy of the next candidate's code, or
    /// nothing once every candidate was handled.
    pub fn next_action(&self) -> (action: Option<SelectionAction>)
        ensures
            match action {
                Some(SelectionAction::CopyToClipboard(text)) => self@.pending() == Some(text@),
                None => self@.pending() is None,
            },
    {
        proof {
            use_type_invariant(self);
        }
        let handled = self.outcomes.len();
        if handled < self.selected.len() {
            let text = String::from_str(self.selected[handled].snippet().code());
            Some(SelectionAction::CopyToClipboard(text))
        } else {
            None
        }
    }

    /// Records how the action that was due ended. A failure is kept as
    /// such and stops nothing: the next candidate is due next.
    pub fn record(self, done: bool) -> (next: Dispatcher)
        ensures
            next@ == self@.recorded(done),
    {
        proof {
            use_type_invariant(&self);
        }
        let Dispatcher { selected, mut outcomes } = self;
        if outcomes.len() < selected.len() {
            outcomes.push(done);
        }
        Dispatcher { selected, outcomes }
    }

    /// What the caller is told of each action performed so far, in order.
    pub fn finish(self) -> (results: Vec<Result<String, LostTheWay>>)
        ensures
            results.len() == self@.outcomes.len(),
            forall|i: int|
                0 <= i < results.len() ==> reports(#[trigger] results[i], self@.outcomes[i]),
    {
        let mut results: Vec<Result<String, LostTheWay>> = Vec::new();
        let mut i: usize = 0;
        while i < self.outcomes.len()
            invariant
                i <= self.outcomes.len(),
                results.len() == i,
                forall|k: int| 0 <= k < i ==> reports(#[trigger] results[k], self.outcomes@[k]),
            decreases self.outcomes.len() - i,
        {
            if self.outcomes[i] {
                results.push(Ok(String::new()));
            } else {
                results.push(Err(LostTheWay::ClipboardError));
            }
            i += 1;
        }
        results
    }
}

/// Every selected item is handled, once and in order, whatever happens to
/// the others: after any outcomes, failures among them or not, the action
/// that is due is the copy of the next item's text, and once there are as
/// many outcomes as items none is due.
pub proof fn lemma_each_item_in_turn(texts: Seq<Seq<char>>, outcomes: Seq<bool>)
    requires
        outcomes.len() <= texts.len(),
    ensures
        DispatchView::after(texts, outcomes) == (DispatchView { texts, outcomes }),
        outcomes.len() < texts.len() ==> DispatchView::after(texts, outcomes).pending() == Some(
            texts[outcomes.len() as int],
        ),
        outcomes.len() == texts.len() ==> DispatchView::after(texts, outcomes).pending() is None,
    decreases outcomes.len(),
{
    if outcomes.len() == 0 {
        assert(outcomes =~= Seq::empty());
    } else {
        lemma_each_item_in_turn(texts, outcomes.drop_last());
        assert(outcomes.drop_last().push(outcomes.last()) =~= outcomes);
    }
}

} // verus!
