//! The rollout items that the truncation logic reads: model messages, turn
//! lifecycle events and turn context records.
use vstd::prelude::*;

verus! {

/// One piece of a model message.
#[derive(Debug, PartialEq, Eq)]
pub enum ContentItem {
    InputText { text: String },
    OutputText { text: String },
}

/// What the turn parser (`parse_turn_item`) makes of a model message: a user message,
/// an agent message, or nothing (for instance the session-prefix messages, such as the
/// environment context, that carry the role `user` without being a user's request).
#[derive(Debug, Clone, Copy, PartialEq, Eq, Structural)]
pub enum TurnItemKind {
    UserMessage,
    AgentMessage,
}

/// An item of the model conversation. A message carries, beside its role and content,
/// what the turn parser made of it.
#[derive(Debug, PartialEq, Eq)]
pub enum ResponseItem {
    Message { role: String, content: Vec<ContentItem>, turn_item: Option<TurnItemKind> },
    Reasoning { id: String, summary: Vec<String> },
    FunctionCall { call_id: String, name: String, arguments: String },
    FunctionCallOutput { call_id: String, output: String },
}

/// The value of a [`ResponseItem`]: its vectors taken as sequences.
pub enum ResponseItemView {
    Message { role: String, content: Seq<ContentItem>, turn_item: Option<TurnItemKind> },
    Reasoning { id: String, summary: Seq<String> },
    FunctionCall { call_id: String, name: String, arguments: String },
    FunctionCallOutput { call_id: String, output: String },
}

impl View for ResponseItem {
    type V = ResponseItemView;

    open spec fn view(&self) -> ResponseItemView {
        match self {
            ResponseItem::Message { role, content, turn_item } => ResponseItemView::Message {
                role: *role,
                content: content@,
                turn_item: *turn_item,
            },
            ResponseItem::Reasoning { id, summary } => ResponseItemView::Reasoning {
                id: *id,
                summary: summary@,
            },
            ResponseItem::FunctionCall { call_id, name, arguments } =>
                ResponseItemView::FunctionCall {
                call_id: *call_id,
                name: *name,
                arguments: *arguments,
            },
            ResponseItem::FunctionCallOutput { call_id, output } =>
                ResponseItemView::FunctionCallOutput { call_id: *call_id, output: *output },
        }
    }
}

/// A lifecycle event recorded in a rollout.
#[allow(inconsistent_fields)]
#[derive(Debug, PartialEq, Eq)]
pub enum EventMsg {
    TurnStarted { turn_id: String },
    UserMessage { message: String },
    TurnComplete { turn_id: String, last_agent_message: Option<String> },
    TurnAborted { turn_id: Option<String> },
    ThreadRolledBack { num_turns: u32 },
    AgentMessage { message: String },
}

/// One line of a rollout.
#[derive(Debug, PartialEq, Eq)]
pub enum RolloutItem {
    ResponseItem(ResponseItem),
    EventMsg(EventMsg),
    TurnContext { turn_id: Option<String> },
    Compacted { message: String },
}

/// The value of a [`RolloutItem`].
pub enum RolloutItemView {
    ResponseItem(ResponseItemView),
    EventMsg(EventMsg),
    TurnContext { turn_id: Option<String> },
    Compacted { message: String },
}

impl View for RolloutItem {
    type V = RolloutItemView;

    open spec fn view(&self) -> RolloutItemView {
        match self {
            RolloutItem::ResponseItem(item) => RolloutItemView::ResponseItem(item@),
            RolloutItem::EventMsg(event) => RolloutItemView::EventMsg(*event),
            RolloutItem::TurnContext { turn_id } => RolloutItemView::TurnContext {
                turn_id: *turn_id,
            },
            RolloutItem::Compacted { message } => RolloutItemView::Compacted { message: *message },
        }
    }
}

/// The values of a sequence of rollout items.
pub open spec fn items_view(items: Seq<RolloutItem>) -> Seq<RolloutItemView> {
    items.map_values(|item: RolloutItem| item@)
}

pub fn clone_opt_string(s: &Option<String>) -> (res: Option<String>)
    ensures
        res == *s,
{
    match s {
        Some(t) => Some(t.clone()),
        None => None,
    }
}

pub fn clone_strings(v: &Vec<String>) -> (res: Vec<String>)
    ensures
        res@ == v@,
{
    let mut out: Vec<String> = Vec::new();
    let mut i: usize = 0;
    while i < v.len()
        invariant
            i <= v.len(),
            out@ == v@.take(i as int),
        decreases v.len() - i,
    {
        out.push(v[i].clone());
        assert(out@ =~= v@.take(i + 1));
        i = i + 1;
    }
    assert(v@.take(v.len() as int) =~= v@);
    out
}

impl Clone for ContentItem {
    fn clone(&self) -> (res: Self)
        ensures
            res == *self,
    {
        match self {
            ContentItem::InputText { text } => ContentItem::InputText { text: text.clone() },
            ContentItem::OutputText { text } => ContentItem::OutputText { text: text.clone() },
        }
    }
}

pub fn clone_contents(v: &Vec<ContentItem>) -> (res: Vec<ContentItem>)
    ensures
        res@ == v@,
{
    let mut out: Vec<ContentItem> = Vec::new();
    let mut i: usize = 0;
    while i < v.len()
        invariant
            i <= v.len(),
            out@ == v@.take(i as int),
        decreases v.len() - i,
    {
        out.push(v[i].clone());
        assert(out@ =~= v@.take(i + 1));
        i = i + 1;
    }
    assert(v@.take(v.len() as int) =~= v@);
    out
}

impl Clone for ResponseItem {
    fn clone(&self) -> (res: Self)
        ensures
            res@ == self@,
    {
        match self {
            ResponseItem::Message { role, content, turn_item } => ResponseItem::Message {
                role: role.clone(),
                content: clone_contents(content),
                turn_item: *turn_item,
            },
            ResponseItem::Reasoning { id, summary } => ResponseItem::Reasoning {
                id: id.clone(),
                summary: clone_strings(summary),
            },
            ResponseItem::FunctionCall { call_id, name, arguments } => ResponseItem::FunctionCall {
                call_id: call_id.clone(),
                name: name.clone(),
                arguments: arguments.clone(),
            },
            ResponseItem::FunctionCallOutput { call_id, output } => ResponseItem::FunctionCallOutput {
                call_id: call_id.clone(),
                output: output.clone(),
            },
        }
    }
}

impl Clone for EventMsg {
    fn clone(&self) -> (res: Self)
        ensures
            res == *self,
    {
        match self {
            EventMsg::TurnStarted { turn_id } => EventMsg::TurnStarted { turn_id: turn_id.clone() },
            EventMsg::UserMessage { message } => EventMsg::UserMessage { message: message.clone() },
            EventMsg::TurnComplete { turn_id, last_agent_message } => EventMsg::TurnComplete {
                turn_id: turn_id.clone(),
                last_agent_message: clone_opt_string(last_agent_message),
            },
            EventMsg::TurnAborted { turn_id } => EventMsg::TurnAborted {
                turn_id: clone_opt_string(turn_id),
            },
            EventMsg::ThreadRolledBack { num_turns } => EventMsg::ThreadRolledBack {
                num_turns: *num_turns,
            },
            EventMsg::AgentMessage { message } => EventMsg::AgentMessage {
                message: message.clone(),
            },
        }
    }
}

impl Clone for RolloutItem {
    fn clone(&self) -> (res: Self)
        ensures
            res@ == self@,
    {
        match self {
            RolloutItem::ResponseItem(item) => RolloutItem::ResponseItem(item.clone()),
            RolloutItem::EventMsg(event) => RolloutItem::EventMsg(event.clone()),
            RolloutItem::TurnContext { turn_id } => RolloutItem::TurnContext {
                turn_id: clone_opt_string(turn_id),
            },
            RolloutItem::Compacted { message } => RolloutItem::Compacted {
                message: message.clone(),
            },
        }
    }
}

/// Copies `items[..end]`.
pub fn clone_prefix(items: &[RolloutItem], end: usize) -> (res: Vec<RolloutItem>)
    requires
        end <= items@.len(),
    ensures
        items_view(res@) == items_view(items@).take(end as int),
{
    let mut out: Vec<RolloutItem> = Vec::new();
    let mut i: usize = 0;
    while i < end
        invariant
            end <= items@.len(),
            i <= end,
            out@.len() == i,
            items_view(out@) == items_view(items@).take(i as int),
        decreases end - i,
    {
        let item = items[i].clone();
        let ghost prev = out@;
        out.push(item);
        assert(out@ == prev.push(item));
        assert forall|k: int| 0 <= k < i + 1 implies #[trigger] items_view(out@)[k] == items_view(
            items@,
        ).take(i + 1)[k] by {
            if k < i {
                assert(items_view(prev)[k] == items_view(items@).take(i as int)[k]);
            }
        }
        assert(items_view(out@) =~= items_view(items@).take(i + 1));
        i = i + 1;
    }
    out
}

} // verus!
