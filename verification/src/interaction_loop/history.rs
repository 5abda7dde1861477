//! The record of finished actions, and the bounded prompt made from it.

use crate::llm::{clone_items, Prompt, PromptItem, PromptItemView};
use crate::text::{decimal, push_decimal};
use vstd::prelude::*;
use vstd::string::*;

verus! {

/// The number of recent actions whose messages are kept in full.
pub const MAX_ACTIONS_TO_KEEP: usize = 5;

/// One finished action: its number, its messages and its summary.
#[derive(Debug, PartialEq, Eq)]
pub struct Action {
    pub number: usize,
    pub messages: Vec<PromptItem>,
    pub summary: String,
}

/// What an [`Action`] holds, as mathematical values.
pub struct ActionView {
    pub number: nat,
    pub messages: Seq<PromptItemView>,
    pub summary: Seq<char>,
}

impl View for Action {
    type V = ActionView;

    open spec fn view(&self) -> ActionView {
        ActionView {
            number: self.number as nat,
            messages: self.messages.deep_view(),
            summary: self.summary@,
        }
    }
}

impl DeepView for Action {
    type V = ActionView;

    open spec fn deep_view(&self) -> ActionView {
        self@
    }
}

/// The text that stands for an action once it is no longer kept in full.
pub open spec fn summary_text(number: nat, summary: Seq<char>) -> Seq<char> {
    "Summary for action "@ + decimal(number) + ": "@ + summary
}

/// The single message that stands for an action once it is no longer kept in full.
pub open spec fn summary_item(action: ActionView) -> PromptItemView {
    PromptItemView::System { text: summary_text(action.number, action.summary) }
}

/// How many of `n` actions are replaced by their summaries.
pub open spec fn skip_count(n: nat) -> nat {
    if n > MAX_ACTIONS_TO_KEEP {
        (n - MAX_ACTIONS_TO_KEEP) as nat
    } else {
        0
    }
}

/// What a [`History`] holds, as mathematical values.
pub struct HistoryView {
    pub prefix: Seq<PromptItemView>,
    pub actions: Seq<ActionView>,
}

impl HistoryView {
    /// The history that holds `prefix` and no action.
    pub open spec fn new(prefix: Seq<PromptItemView>) -> HistoryView {
        HistoryView { prefix, actions: Seq::empty() }
    }

    /// The history after one more action: the new action gets the next number.
    pub open spec fn append(self, messages: Seq<PromptItemView>, summary: Seq<char>) -> HistoryView {
        HistoryView {
            prefix: self.prefix,
            actions: self.actions.push(
                ActionView { number: self.actions.len(), messages, summary },
            ),
        }
    }

    /// Every action's number is its position.
    pub open spec fn numbered(self) -> bool {
        forall|i: int| 0 <= i < self.actions.len() ==> (#[trigger] self.actions[i]).number == i
    }

    /// The summaries of the actions that are no longer kept in full, oldest first.
    pub open spec fn summaries(self) -> Seq<PromptItemView> {
        self.actions.subrange(0, skip_count(self.actions.len()) as int).map_values(
            |a: ActionView| summary_item(a),
        )
    }

    /// The messages of the actions that are kept in full, oldest first.
    pub open spec fn recent_messages(self) -> Seq<PromptItemView> {
        self.actions.subrange(
            skip_count(self.actions.len()) as int,
            self.actions.len() as int,
        ).map_values(|a: ActionView| a.messages).flatten()
    }

    /// The prefix, then one summary for each older action, then the messages of
    /// the most recent actions.
    pub open spec fn compressed(self) -> Seq<PromptItemView> {
        self.prefix + self.summaries() + self.recent_messages()
    }
}

/// The history reached from an empty one by appending `entries` in order; each
/// entry is the messages and the summary of one action.
pub open spec fn appended(
    prefix: Seq<PromptItemView>,
    entries: Seq<(Seq<PromptItemView>, Seq<char>)>,
) -> HistoryView
    decreases entries.len(),
{
    if entries.len() == 0 {
        HistoryView::new(prefix)
    } else {
        appended(prefix, entries.drop_last()).append(entries.last().0, entries.last().1)
    }
}

/// Appending never renumbers: after any sequence of appends the history holds
/// one action for each entry, in order, and the action at position `i` has the
/// number `i`.
pub proof fn lemma_appends_number_by_position(
    prefix: Seq<PromptItemView>,
    entries: Seq<(Seq<PromptItemView>, Seq<char>)>,
)
    ensures
        appended(prefix, entries).prefix == prefix,
        appended(prefix, entries).actions.len() == entries.len(),
        appended(prefix, entries).numbered(),
        forall|i: int|
            0 <= i < entries.len() ==> (#[trigger] appended(prefix, entries).actions[i])
                == (ActionView { number: i as nat, messages: entries[i].0, summary: entries[i].1 }),
    decreases entries.len(),
{
    if entries.len() > 0 {
        lemma_appends_number_by_position(prefix, entries.drop_last());
    }
}

/// Appending keeps every action that was there, under its number.
pub proof fn lemma_append_keeps_actions(
    history: HistoryView,
    messages: Seq<PromptItemView>,
    summary: Seq<char>,
)
    ensures
        history.append(messages, summary).actions.len() == history.actions.len() + 1,
        history.append(messages, summary).actions.subrange(0, history.actions.len() as int)
            == history.actions,
        history.numbered() ==> history.append(messages, summary).numbered(),
{
    assert(history.append(messages, summary).actions.subrange(0, history.actions.len() as int)
        =~= history.actions);
}

/// The shape of the compressed prompt of a history with `n` actions: the
/// prefix, then one summary for each of the first `max(0, n - 5)` actions, then
/// the message blocks of the last `min(n, 5)` actions.
pub proof fn lemma_compression_bound(history: HistoryView)
    ensures
        ({
            let n = history.actions.len() as int;
            let skip = skip_count(history.actions.len()) as int;
            let p = history.prefix.len() as int;
            let c = history.compressed();
            &&& skip == if n >= 5 { n - 5 } else { 0 }
            &&& n - skip == if n <= 5 { n } else { 5 }
            &&& c.len() == p + skip + history.recent_messages().len()
            &&& c.subrange(0, p) == history.prefix
            &&& forall|i: int| 0 <= i < skip ==> #[trigger] c[p + i] == summary_item(history.actions[i])
            &&& c.subrange(p + skip, c.len() as int) == history.recent_messages()
            &&& history.recent_messages() == history.actions.subrange(skip, n).map_values(
                |a: ActionView| a.messages,
            ).flatten()
        }),
{
}

/// The prefix and the actions taken so far. Actions are only ever added at the
/// end, and each is numbered by its position.
pub struct History {
    prefix: Vec<PromptItem>,
    actions: Vec<Action>,
}

impl View for History {
    type V = HistoryView;

    closed spec fn view(&self) -> HistoryView {
        HistoryView { prefix: self.prefix.deep_view(), actions: self.actions.deep_view() }
    }
}

impl History {
    #[verifier::type_invariant]
    spec fn numbered_by_position(self) -> bool {
        forall|i: int| 0 <= i < self.actions@.len() ==> (#[trigger] self.actions@[i]).number == i
    }

    /// A history with the given prefix and no action.
    pub fn new(prefix: Vec<PromptItem>) -> (history: History)
        ensures
            history@ == HistoryView::new(prefix.deep_view()),
    {
        let history = History { prefix, actions: Vec::new() };
        assert(history.actions.deep_view() =~= Seq::<ActionView>::empty());
        history
    }

    /// The messages that every prompt starts with.
    pub fn prefix(&self) -> (prefix: &Vec<PromptItem>)
        ensures
            prefix.deep_view() == self@.prefix,
    {
        &self.prefix
    }

    /// The actions taken so far, oldest first.
    pub fn actions(&self) -> (actions: &Vec<Action>)
        ensures
            actions.deep_view() == self@.actions,
            self@.numbered(),
    {
        proof {
            use_type_invariant(self);
        }
        &self.actions
    }

    /// The number of actions taken so far.
    pub fn len(&self) -> (n: usize)
        ensures
            n == self@.actions.len(),
    {
        self.actions.len()
    }

    /// Appends an action with the next number.
    pub fn append(&mut self, messages: Vec<PromptItem>, summary: String)
        ensures
            final(self)@ == old(self)@.append(messages.deep_view(), summary@),
            final(self)@.numbered(),
    {
        proof {
            use_type_invariant(&*self);
        }
        let mut taken = History { prefix: Vec::new(), actions: Vec::new() };
        core::mem::swap(self, &mut taken);
        let History { prefix, mut actions } = taken;
        let number = actions.len();
        let ghost entry = ActionView {
            number: number as nat,
            messages: messages.deep_view(),
            summary: summary@,
        };
        actions.push(Action { number, messages, summary });
        assert(actions.deep_view() =~= old(self).actions.deep_view().push(entry));
        *self = History { prefix, actions };
    }

    /// The prompt that stands for the whole history: the prefix, a one-line
    /// summary for each action but the most recent five, and the messages of
    /// those five.
    pub fn compressed_prompt(&self) -> (prompt: Prompt)
        ensures
            prompt@ == self@.compressed(),
    {
        let total = self.actions.len();
        let skip = if total > MAX_ACTIONS_TO_KEEP {
            total - MAX_ACTIONS_TO_KEEP
        } else {
            0
        };
        let ghost view = self@;
        let mut items = clone_items(&self.prefix);
        let mut i: usize = 0;
        while i < skip
            invariant
                i <= skip <= total,
                total == self.actions@.len(),
                view == self@,
                skip == skip_count(total as nat),
                items.deep_view() == view.prefix + view.actions.subrange(0, i as int).map_values(
                    |a: ActionView| summary_item(a),
                ),
            decreases skip - i,
        {
            let action = &self.actions[i];
            let mut text = "Summary for action ".to_owned();
            push_decimal(&mut text, action.number as u64);
            text.append(": ");
            text.append(action.summary.as_str());
            let ghost before = items.deep_view();
            items.push(PromptItem::System { text });
            assert(items.deep_view() =~= before.push(summary_item(action@)));
            assert(view.actions.subrange(0, i + 1).map_values(|a: ActionView| summary_item(a))
                =~= view.actions.subrange(0, i as int).map_values(
                |a: ActionView| summary_item(a),
            ).push(summary_item(action@)));
            i += 1;
        }
        while i < total
            invariant
                skip <= i <= total,
                total == self.actions@.len(),
                view == self@,
                skip == skip_count(total as nat),
                items.deep_view() == view.prefix + view.summaries() + view.actions.subrange(
                    skip as int,
                    i as int,
                ).map_values(|a: ActionView| a.messages).flatten(),
            decreases total - i,
        {
            let action = &self.actions[i];
            let mut block = clone_items(&action.messages);
            let ghost before = items.deep_view();
            let ghost kept = view.actions.subrange(skip as int, i as int).map_values(
                |a: ActionView| a.messages,
            );
            items.append(&mut block);
            assert(items.deep_view() =~= before + action@.messages);
            assert(view.actions.subrange(skip as int, i + 1).map_values(
                |a: ActionView| a.messages,
            ) =~= kept.push(action@.messages));
            proof {
                kept.lemma_flatten_push(action@.messages);
            }
            i += 1;
        }
        Prompt { items }
    }
}

} // verus!
