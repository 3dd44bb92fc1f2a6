//! Truncating rollouts at user-turn boundaries.
//!
//! A user turn starts at a model message that the turn parser reads as a user message
//! (the `turn_item` that the message carries); user-role messages that it does not
//! read as one, such as the session prefix, are no boundaries. Rollouts may contain
//! `ThreadRolledBack` markers, which remove the last N user turns from the effective
//! history; every function here applies them, so that indexing follows the history
//! after rollbacks rather than the raw stream.
use vstd::prelude::*;

use crate::protocol::clone_prefix;
use crate::protocol::items_view;
use crate::protocol::EventMsg;
use crate::protocol::ResponseItem;
use crate::protocol::RolloutItem;
use crate::protocol::TurnItemKind;
use crate::text::opt_string_view;
use crate::text::str_eq;

verus! {

/// A user-message boundary: a model message that the turn parser reads as a user
/// message.
pub open spec fn is_user_message(item: RolloutItem) -> bool {
    match item {
        RolloutItem::ResponseItem(ResponseItem::Message { turn_item, .. }) => turn_item == Some(
            TurnItemKind::UserMessage,
        ),
        _ => false,
    }
}

/// The number of user turns that a `ThreadRolledBack` marker removes.
pub open spec fn rollback_turns(item: RolloutItem) -> Option<u32> {
    match item {
        RolloutItem::EventMsg(EventMsg::ThreadRolledBack { num_turns }) => Some(num_turns),
        _ => None,
    }
}

/// `len - n`, or zero when `n` is at least `len`.
pub open spec fn saturating_sub(len: nat, n: nat) -> nat {
    if n >= len {
        0
    } else {
        (len - n) as nat
    }
}

/// The indices of the user messages of `items` that survive the rollback markers
/// of `items`, in order: a user message appends its index, a rollback of `n` turns
/// drops the last `n` indices gathered so far.
pub open spec fn user_message_positions(items: Seq<RolloutItem>) -> Seq<usize>
    decreases items.len(),
{
    if items.len() == 0 {
        Seq::empty()
    } else {
        let prev = user_message_positions(items.drop_last());
        let last = items.last();
        if is_user_message(last) {
            prev.push((items.len() - 1) as usize)
        } else if let Some(n) = rollback_turns(last) {
            prev.take(saturating_sub(prev.len(), n as nat) as int)
        } else {
            prev
        }
    }
}

/// What cutting strictly before the `n`-th surviving user message (counted from 0)
/// leaves of `items`: all of them when `n` is `usize::MAX`, nothing when there are at
/// most `n` surviving user messages.
pub open spec fn before_nth_user_message(items: Seq<RolloutItem>, n: usize) -> Seq<RolloutItem> {
    let positions = user_message_positions(items);
    if n == usize::MAX {
        items
    } else if positions.len() <= n {
        Seq::empty()
    } else {
        items.take(positions[n as int] as int)
    }
}

/// What cutting strictly before the last surviving user message leaves of `items`:
/// all of them when no user message survives.
pub open spec fn before_last_user_message(items: Seq<RolloutItem>) -> Seq<RolloutItem> {
    let positions = user_message_positions(items);
    if positions.len() == 0 {
        items
    } else {
        items.take(positions.last() as int)
    }
}

/// Whether `item` is a user-message boundary.
pub fn is_user_message_item(item: &RolloutItem) -> (res: bool)
    ensures
        res == is_user_message(*item),
{
    match item {
        RolloutItem::ResponseItem(ResponseItem::Message { turn_item, .. }) => match turn_item {
            Some(TurnItemKind::UserMessage) => true,
            _ => false,
        },
        _ => false,
    }
}

proof fn lemma_take_step(items: Seq<RolloutItem>, i: int)
    requires
        0 <= i < items.len(),
    ensures
        items.take(i + 1).drop_last() == items.take(i),
        items.take(i + 1).last() == items[i],
        items.take(i + 1).len() == i + 1,
{
    assert(items.take(i + 1).drop_last() =~= items.take(i));
}

/// Returns the indices of the user-message boundaries of a rollout, after applying
/// its `ThreadRolledBack` markers.
pub fn user_message_positions_in_rollout(items: &[RolloutItem]) -> (res: Vec<usize>)
    ensures
        res@ == user_message_positions(items@),
{
    let mut user_positions: Vec<usize> = Vec::new();
    let mut idx: usize = 0;
    while idx < items.len()
        invariant
            idx <= items@.len(),
            user_positions@ == user_message_positions(items@.take(idx as int)),
        decreases items.len() - idx,
    {
        proof {
            lemma_take_step(items@, idx as int);
        }
        let item = &items[idx];
        if is_user_message_item(item) {
            user_positions.push(idx);
        } else {
            match item {
                RolloutItem::EventMsg(EventMsg::ThreadRolledBack { num_turns }) => {
                    let num_turns = *num_turns as usize;
                    let new_len = if num_turns >= user_positions.len() {
                        0
                    } else {
                        user_positions.len() - num_turns
                    };
                    user_positions.truncate(new_len);
                },
                _ => {},
            }
        }
        idx = idx + 1;
    }
    assert(items@.take(items@.len() as int) =~= items@);
    user_positions
}

/// The surviving user-message positions are strictly increasing indices of user
/// messages of `items`.
pub proof fn lemma_user_message_positions(items: Seq<RolloutItem>)
    requires
        items.len() <= usize::MAX,
    ensures
        user_message_positions(items).len() <= items.len(),
        forall|k: int|
            0 <= k < user_message_positions(items).len() ==> {
                &&& (#[trigger] user_message_positions(items)[k]) < items.len()
                &&& is_user_message(items[user_message_positions(items)[k] as int])
            },
        forall|a: int, b: int|
            0 <= a < b < user_message_positions(items).len() ==> (#[trigger] user_message_positions(
                items,
            )[a]) < (#[trigger] user_message_positions(items)[b]),
    decreases items.len(),
{
    if items.len() > 0 {
        let prefix = items.drop_last();
        lemma_user_message_positions(prefix);
        let prev = user_message_positions(prefix);
        let cur = user_message_positions(items);
        assert forall|k: int| 0 <= k < prefix.len() implies prefix[k] == items[k] by {}
        if is_user_message(items.last()) {
            assert(cur == prev.push((items.len() - 1) as usize));
            assert forall|k: int| 0 <= k < cur.len() implies {
                &&& (#[trigger] cur[k]) < items.len()
                &&& is_user_message(items[cur[k] as int])
            } by {
                if k < prev.len() {
                    assert(cur[k] == prev[k]);
                }
            }
            assert forall|a: int, b: int| 0 <= a < b < cur.len() implies (#[trigger] cur[a]) < (
            #[trigger] cur[b]) by {
                assert(cur[a] == prev[a]);
                if b < prev.len() {
                    assert(cur[b] == prev[b]);
                }
            }
        } else if let Some(n) = rollback_turns(items.last()) {
            let keep = saturating_sub(prev.len(), n as nat) as int;
            assert(cur == prev.take(keep));
            assert forall|k: int| 0 <= k < cur.len() implies {
                &&& (#[trigger] cur[k]) < items.len()
                &&& is_user_message(items[cur[k] as int])
            } by {
                assert(cur[k] == prev[k]);
            }
            assert forall|a: int, b: int| 0 <= a < b < cur.len() implies (#[trigger] cur[a]) < (
            #[trigger] cur[b]) by {
                assert(cur[a] == prev[a]);
                assert(cur[b] == prev[b]);
            }
        } else {
            assert(cur == prev);
            assert forall|k: int| 0 <= k < cur.len() implies {
                &&& (#[trigger] cur[k]) < items.len()
                &&& is_user_message(items[cur[k] as int])
            } by {
                assert(cur[k] == prev[k]);
            }
        }
    }
}

/// Returns the prefix of `items` that ends strictly before the `n_from_start`-th
/// surviving user message (counted from 0): `n_from_start = 0` leaves out the first
/// user message and everything after it.
///
/// With `n_from_start == usize::MAX` the whole rollout comes back; when at most
/// `n_from_start` user messages survive, the result is empty.
pub fn truncate_rollout_before_nth_user_message_from_start(
    items: &[RolloutItem],
    n_from_start: usize,
) -> (res: Vec<RolloutItem>)
    ensures
        items_view(res@) == items_view(before_nth_user_message(items@, n_from_start)),
{
    if n_from_start == usize::MAX {
        return clone_prefix(items, items.len());
    }
    let user_positions = user_message_positions_in_rollout(items);
    if user_positions.len() <= n_from_start {
        return Vec::new();
    }
    proof {
        assert(items@.len() == items.len());
        lemma_user_message_positions(items@);
    }
    let cut_idx = user_positions[n_from_start];
    clone_prefix(items, cut_idx)
}

/// Returns the prefix of `items` that ends strictly before the last surviving user
/// message, or the whole rollout when no user message survives.
pub fn truncate_rollout_before_last_user_message(items: &[RolloutItem]) -> (res: Vec<RolloutItem>)
    ensures
        items_view(res@) == items_view(before_last_user_message(items@)),
{
    let user_positions = user_message_positions_in_rollout(items);
    if user_positions.len() == 0 {
        return clone_prefix(items, items.len());
    }
    proof {
        assert(items@.len() == items.len());
        lemma_user_message_positions(items@);
    }
    let cut_idx = user_positions[user_positions.len() - 1];
    clone_prefix(items, cut_idx)
}

/// The user-turn segment that is open while a rollout is scanned.
pub struct ActiveSegment {
    pub start_idx: usize,
    pub turn_id: Option<Seq<char>>,
    pub counts_as_user_turn: bool,
}

/// The state of a scan for user-turn segments.
pub struct SegmentScan {
    pub saw_turn_events: bool,
    pub starts: Seq<usize>,
    pub active: Option<ActiveSegment>,
}

pub open spec fn opt_str_view(s: Option<&str>) -> Option<Seq<char>> {
    match s {
        Some(t) => Some(t@),
        None => None,
    }
}

/// An event with turn id `item` may close the segment of turn `active`: either is
/// unknown, or both are the same.
pub open spec fn turn_ids_compatible(active: Option<Seq<char>>, item: Option<Seq<char>>) -> bool {
    match active {
        None => true,
        Some(a) => match item {
            None => true,
            Some(i) => i == a,
        },
    }
}

/// Closing the active segment records its start when it holds a user turn.
pub open spec fn finalize_starts(active: Option<ActiveSegment>, starts: Seq<usize>) -> Seq<usize> {
    match active {
        Some(seg) => if seg.counts_as_user_turn {
            starts.push(seg.start_idx)
        } else {
            starts
        },
        None => starts,
    }
}

/// The active segment, or a new one that starts at `idx` with no turn id.
pub open spec fn active_or_new(active: Option<ActiveSegment>, idx: usize) -> ActiveSegment {
    match active {
        Some(seg) => seg,
        None => ActiveSegment { start_idx: idx, turn_id: None, counts_as_user_turn: false },
    }
}

pub open spec fn marked_user_turn(seg: ActiveSegment) -> ActiveSegment {
    ActiveSegment { start_idx: seg.start_idx, turn_id: seg.turn_id, counts_as_user_turn: true }
}

/// Closes the active segment if the event's turn id is compatible with it.
pub open spec fn close_if_compatible(st: SegmentScan, event_turn_id: Option<Seq<char>>) -> SegmentScan {
    match st.active {
        Some(seg) => if turn_ids_compatible(seg.turn_id, event_turn_id) {
            SegmentScan {
                saw_turn_events: true,
                starts: finalize_starts(st.active, st.starts),
                active: None,
            }
        } else {
            SegmentScan { saw_turn_events: true, starts: st.starts, active: st.active }
        },
        None => SegmentScan { saw_turn_events: true, starts: st.starts, active: st.active },
    }
}

/// One step of the scan, at index `idx`:
/// - `TurnStarted` closes the active segment and opens one for its turn;
/// - a `UserMessage` event marks the active (or a new) segment as a user turn;
/// - a `TurnContext` gives the active (or a new) segment its turn id if it has none;
/// - a user message marks the active (or a new) segment as a user turn, once turn
///   events have been seen;
/// - `TurnComplete` and `TurnAborted` close the active segment of a compatible turn;
/// - `ThreadRolledBack` drops the last recorded segment starts.
pub open spec fn scan_step(st: SegmentScan, idx: usize, item: RolloutItem) -> SegmentScan {
    match item {
        RolloutItem::EventMsg(EventMsg::TurnStarted { turn_id }) => SegmentScan {
            saw_turn_events: true,
            starts: finalize_starts(st.active, st.starts),
            active: Some(
                ActiveSegment { start_idx: idx, turn_id: Some(turn_id@), counts_as_user_turn: false },
            ),
        },
        RolloutItem::EventMsg(EventMsg::UserMessage { .. }) => SegmentScan {
            saw_turn_events: true,
            starts: st.starts,
            active: Some(marked_user_turn(active_or_new(st.active, idx))),
        },
        RolloutItem::TurnContext { turn_id } => {
            let seg = active_or_new(st.active, idx);
            let seg = if seg.turn_id is None {
                ActiveSegment {
                    start_idx: seg.start_idx,
                    turn_id: opt_string_view(turn_id),
                    counts_as_user_turn: seg.counts_as_user_turn,
                }
            } else {
                seg
            };
            SegmentScan { saw_turn_events: st.saw_turn_events, starts: st.starts, active: Some(seg) }
        },
        RolloutItem::EventMsg(EventMsg::TurnComplete { turn_id, .. }) => close_if_compatible(
            st,
            Some(turn_id@),
        ),
        RolloutItem::EventMsg(EventMsg::TurnAborted { turn_id }) => close_if_compatible(
            st,
            opt_string_view(turn_id),
        ),
        RolloutItem::EventMsg(EventMsg::ThreadRolledBack { num_turns }) => SegmentScan {
            saw_turn_events: st.saw_turn_events,
            starts: st.starts.take(saturating_sub(st.starts.len(), num_turns as nat) as int),
            active: st.active,
        },
        _ => if is_user_message(item) && st.saw_turn_events {
            SegmentScan {
                saw_turn_events: true,
                starts: st.starts,
                active: Some(marked_user_turn(active_or_new(st.active, idx))),
            }
        } else {
            st
        },
    }
}

/// The state after scanning all of `items`.
pub open spec fn scan_segments(items: Seq<RolloutItem>) -> SegmentScan
    decreases items.len(),
{
    if items.len() == 0 {
        SegmentScan { saw_turn_events: false, starts: Seq::empty(), active: None }
    } else {
        scan_step(scan_segments(items.drop_last()), (items.len() - 1) as usize, items.last())
    }
}

/// What cutting strictly before the newest surviving user-turn segment leaves of
/// `items`. With turn events, the cut falls at the start of the last recorded segment
/// (after closing the open one), or nowhere when none was recorded; without turn
/// events, it falls before the last surviving user message.
pub open spec fn before_last_user_turn_segment(items: Seq<RolloutItem>) -> Seq<RolloutItem> {
    let st = scan_segments(items);
    if st.saw_turn_events {
        let starts = finalize_starts(st.active, st.starts);
        if starts.len() == 0 {
            items
        } else {
            items.take(starts.last() as int)
        }
    } else {
        before_last_user_message(items)
    }
}

/// An item at which a user-turn segment can start: `TurnStarted`, a `UserMessage`
/// event, a `TurnContext`, or a user message.
pub open spec fn opens_segment(item: RolloutItem) -> bool {
    match item {
        RolloutItem::EventMsg(EventMsg::TurnStarted { .. }) => true,
        RolloutItem::EventMsg(EventMsg::UserMessage { .. }) => true,
        RolloutItem::TurnContext { .. } => true,
        _ => is_user_message(item),
    }
}

/// `idx` is the index of an item of `items` at which a segment can start.
pub open spec fn segment_start_of(items: Seq<RolloutItem>, idx: usize) -> bool {
    idx < items.len() && opens_segment(items[idx as int])
}

/// Every recorded segment start, and the start of the open segment, is the index of
/// an item of `items` at which a segment can start.
pub proof fn lemma_segment_starts(items: Seq<RolloutItem>)
    requires
        items.len() <= usize::MAX,
    ensures
        forall|k: int|
            0 <= k < scan_segments(items).starts.len() ==> segment_start_of(
                items,
                #[trigger] scan_segments(items).starts[k],
            ),
        scan_segments(items).active matches Some(seg) ==> segment_start_of(items, seg.start_idx),
    decreases items.len(),
{
    if items.len() > 0 {
        let prefix = items.drop_last();
        lemma_segment_starts(prefix);
        assert forall|i: int| 0 <= i < prefix.len() implies prefix[i] == items[i] by {}
        let prev = scan_segments(prefix);
        let cur = scan_segments(items);
        let fin = finalize_starts(prev.active, prev.starts);
        assert forall|k: int| 0 <= k < prev.starts.len() implies segment_start_of(
            items,
            #[trigger] prev.starts[k],
        ) by {
            assert(segment_start_of(prefix, prev.starts[k]));
        }
        if let Some(seg) = prev.active {
            assert(segment_start_of(prefix, seg.start_idx));
            assert(segment_start_of(items, seg.start_idx));
        }
        assert forall|k: int| 0 <= k < fin.len() implies segment_start_of(
            items,
            #[trigger] fin[k],
        ) by {
            if k < prev.starts.len() {
                assert(fin[k] == prev.starts[k]);
            }
        }
        assert forall|k: int| 0 <= k < cur.starts.len() implies segment_start_of(
            items,
            #[trigger] cur.starts[k],
        ) by {
            if cur.starts.len() <= prev.starts.len() && k < prev.starts.len() {
                assert(cur.starts[k] == prev.starts[k] || cur.starts[k] == fin[k]);
            }
        }
    }
}

/// Whether an event with turn id `item_turn_id` may close the segment of turn
/// `active_turn_id`: either is unknown, or both are the same.
pub fn turn_ids_are_compatible(active_turn_id: Option<&str>, item_turn_id: Option<&str>) -> (res:
    bool)
    ensures
        res == turn_ids_compatible(opt_str_view(active_turn_id), opt_str_view(item_turn_id)),
{
    match active_turn_id {
        None => true,
        Some(turn_id) => match item_turn_id {
            None => true,
            Some(item_turn_id) => str_eq(item_turn_id, turn_id),
        },
    }
}

/// The open user-turn segment of the scan.
struct ActiveUserTurnSegment {
    start_idx: usize,
    turn_id: Option<String>,
    counts_as_user_turn: bool,
}

spec fn segment_view(seg: ActiveUserTurnSegment) -> ActiveSegment {
    ActiveSegment {
        start_idx: seg.start_idx,
        turn_id: opt_string_view(seg.turn_id),
        counts_as_user_turn: seg.counts_as_user_turn,
    }
}

spec fn active_view(active: Option<ActiveUserTurnSegment>) -> Option<ActiveSegment> {
    match active {
        Some(seg) => Some(segment_view(seg)),
        None => None,
    }
}

fn finalize_active_segment(
    active_segment: &mut Option<ActiveUserTurnSegment>,
    user_turn_segment_starts: &mut Vec<usize>,
)
    ensures
        *final(active_segment) is None,
        final(user_turn_segment_starts)@ == finalize_starts(
            active_view(*old(active_segment)),
            old(user_turn_segment_starts)@,
        ),
{
    if let Some(seg) = active_segment.take() {
        if seg.counts_as_user_turn {
            user_turn_segment_starts.push(seg.start_idx);
        }
    }
}

fn active_or_new_segment(active_segment: Option<ActiveUserTurnSegment>, idx: usize) -> (res:
    ActiveUserTurnSegment)
    ensures
        segment_view(res) == active_or_new(active_view(active_segment), idx),
{
    match active_segment {
        Some(seg) => seg,
        None => ActiveUserTurnSegment { start_idx: idx, turn_id: None, counts_as_user_turn: false },
    }
}

fn segment_turn_id_compatible(seg: &ActiveUserTurnSegment, event_turn_id: Option<&str>) -> (res:
    bool)
    ensures
        res == turn_ids_compatible(segment_view(*seg).turn_id, opt_str_view(event_turn_id)),
{
    match &seg.turn_id {
        Some(t) => turn_ids_are_compatible(Some(t.as_str()), event_turn_id),
        None => turn_ids_are_compatible(None, event_turn_id),
    }
}

/// Returns the prefix of `items` that ends strictly before the newest surviving
/// user-turn segment.
///
/// When turn events are present, the cut falls at the start of the segment rather
/// than at the user message itself, so that trailing turn scaffolding such as
/// `TurnStarted` does not leak into a forked rollout. Rollouts without turn events
/// are cut before the last user message.
pub fn truncate_rollout_before_last_user_turn_segment(items: &[RolloutItem]) -> (res: Vec<
    RolloutItem,
>)
    ensures
        items_view(res@) == items_view(before_last_user_turn_segment(items@)),
{
    let mut saw_turn_events = false;
    let mut user_turn_segment_starts: Vec<usize> = Vec::new();
    let mut active_segment: Option<ActiveUserTurnSegment> = None;
    let mut idx: usize = 0;
    while idx < items.len()
        invariant
            idx <= items@.len(),
            saw_turn_events == scan_segments(items@.take(idx as int)).saw_turn_events,
            user_turn_segment_starts@ == scan_segments(items@.take(idx as int)).starts,
            active_view(active_segment) == scan_segments(items@.take(idx as int)).active,
        decreases items.len() - idx,
    {
        proof {
            lemma_take_step(items@, idx as int);
        }
        let item = &items[idx];
        match item {
            RolloutItem::EventMsg(EventMsg::TurnStarted { turn_id }) => {
                saw_turn_events = true;
                finalize_active_segment(&mut active_segment, &mut user_turn_segment_starts);
                active_segment = Some(
                    ActiveUserTurnSegment {
                        start_idx: idx,
                        turn_id: Some(turn_id.clone()),
                        counts_as_user_turn: false,
                    },
                );
            },
            RolloutItem::EventMsg(EventMsg::UserMessage { .. }) => {
                saw_turn_events = true;
                let seg = active_or_new_segment(active_segment.take(), idx);
                active_segment = Some(
                    ActiveUserTurnSegment {
                        start_idx: seg.start_idx,
                        turn_id: seg.turn_id,
                        counts_as_user_turn: true,
                    },
                );
            },
            RolloutItem::TurnContext { turn_id } => {
                let seg = active_or_new_segment(active_segment.take(), idx);
                let seg_turn_id = match seg.turn_id {
                    Some(t) => Some(t),
                    None => match turn_id {
                        Some(t) => Some(t.clone()),
                        None => None,
                    },
                };
                active_segment = Some(
                    ActiveUserTurnSegment {
                        start_idx: seg.start_idx,
                        turn_id: seg_turn_id,
                        counts_as_user_turn: seg.counts_as_user_turn,
                    },
                );
            },
            RolloutItem::EventMsg(EventMsg::TurnComplete { turn_id, .. }) => {
                saw_turn_events = true;
                let close = match &active_segment {
                    Some(seg) => segment_turn_id_compatible(seg, Some(turn_id.as_str())),
                    None => false,
                };
                if close {
                    finalize_active_segment(&mut active_segment, &mut user_turn_segment_starts);
                }
            },
            RolloutItem::EventMsg(EventMsg::TurnAborted { turn_id }) => {
                saw_turn_events = true;
                let event_turn_id = match turn_id {
                    Some(t) => Some(t.as_str()),
                    None => None,
                };
                let close = match &active_segment {
                    Some(seg) => segment_turn_id_compatible(seg, event_turn_id),
                    None => false,
                };
                if close {
                    finalize_active_segment(&mut active_segment, &mut user_turn_segment_starts);
                }
            },
            RolloutItem::EventMsg(EventMsg::ThreadRolledBack { num_turns }) => {
                let num_turns = *num_turns as usize;
                let new_len = if num_turns >= user_turn_segment_starts.len() {
                    0
                } else {
                    user_turn_segment_starts.len() - num_turns
                };
                user_turn_segment_starts.truncate(new_len);
            },
            _ => {
                if is_user_message_item(item) && saw_turn_events {
                    let seg = active_or_new_segment(active_segment.take(), idx);
                    active_segment = Some(
                        ActiveUserTurnSegment {
                            start_idx: seg.start_idx,
                            turn_id: seg.turn_id,
                            counts_as_user_turn: true,
                        },
                    );
                }
            },
        }
        idx = idx + 1;
    }
    assert(items@.take(items@.len() as int) =~= items@);
    if saw_turn_events {
        proof {
            assert(items@.len() == items.len());
            lemma_segment_starts(items@);
        }
        finalize_active_segment(&mut active_segment, &mut user_turn_segment_starts);
        if user_turn_segment_starts.len() == 0 {
            return clone_prefix(items, items.len());
        }
        let cut_idx = user_turn_segment_starts[user_turn_segment_starts.len() - 1];
        return clone_prefix(items, cut_idx);
    }
    truncate_rollout_before_last_user_message(items)
}

/// A turn lifecycle event: `TurnStarted`, a `UserMessage` event, `TurnComplete` or
/// `TurnAborted`.
pub open spec fn is_turn_event(item: RolloutItem) -> bool {
    match item {
        RolloutItem::EventMsg(EventMsg::TurnStarted { .. }) => true,
        RolloutItem::EventMsg(EventMsg::UserMessage { .. }) => true,
        RolloutItem::EventMsg(EventMsg::TurnComplete { .. }) => true,
        RolloutItem::EventMsg(EventMsg::TurnAborted { .. }) => true,
        _ => false,
    }
}

/// `p` is a prefix of `items`.
pub open spec fn is_prefix_of(p: Seq<RolloutItem>, items: Seq<RolloutItem>) -> bool {
    p.len() <= items.len() && p == items.take(p.len() as int)
}

proof fn lemma_saw_turn_events(items: Seq<RolloutItem>)
    ensures
        scan_segments(items).saw_turn_events <==> exists|i: int|
            0 <= i < items.len() && is_turn_event(#[trigger] items[i]),
    decreases items.len(),
{
    if items.len() > 0 {
        let prefix = items.drop_last();
        lemma_saw_turn_events(prefix);
        assert forall|i: int| 0 <= i < prefix.len() implies prefix[i] == items[i] by {}
        if scan_segments(items).saw_turn_events && !is_turn_event(items.last()) {
            let i = choose|i: int| 0 <= i < prefix.len() && is_turn_event(#[trigger] prefix[i]);
            assert(is_turn_event(items[i]));
        }
        if exists|i: int| 0 <= i < items.len() && is_turn_event(#[trigger] items[i]) {
            let i = choose|i: int| 0 <= i < items.len() && is_turn_event(#[trigger] items[i]);
            if i < prefix.len() {
                assert(is_turn_event(prefix[i]));
            }
        }
    }
}

/// Every truncation of a rollout is a prefix of it.
pub proof fn law_truncations_are_prefixes(items: Seq<RolloutItem>, n: usize)
    requires
        items.len() <= usize::MAX,
    ensures
        is_prefix_of(before_nth_user_message(items, n), items),
        is_prefix_of(before_last_user_message(items), items),
        is_prefix_of(before_last_user_turn_segment(items), items),
{
    lemma_user_message_positions(items);
    lemma_segment_starts(items);
    assert(items.take(items.len() as int) =~= items);
    assert(Seq::<RolloutItem>::empty() =~= items.take(0));
    let p = user_message_positions(items);
    if p.len() > 0 {
        assert(p[p.len() - 1] < items.len());
    }
    if n < p.len() {
        assert(p[n as int] < items.len());
    }
    let st = scan_segments(items);
    let starts = finalize_starts(st.active, st.starts);
    if st.saw_turn_events && starts.len() > 0 {
        assert(starts.last() < items.len()) by {
            if st.starts.len() > 0 {
                assert(st.starts[st.starts.len() - 1] < items.len());
            }
        }
    }
}

/// Cutting before the `n`-th user message from the start: the whole rollout for
/// `usize::MAX`, nothing when at most `n` user messages survive, and otherwise a
/// prefix that stops right at a user message.
pub proof fn law_before_nth_user_message(items: Seq<RolloutItem>, n: usize)
    requires
        items.len() <= usize::MAX,
    ensures
        n == usize::MAX ==> before_nth_user_message(items, n) == items,
        n < usize::MAX && user_message_positions(items).len() <= n ==> before_nth_user_message(
            items,
            n,
        ).len() == 0,
        n < user_message_positions(items).len() ==> {
            let cut = before_nth_user_message(items, n).len();
            &&& cut < items.len()
            &&& is_user_message(items[cut as int])
            &&& cut == user_message_positions(items)[n as int]
        },
{
    lemma_user_message_positions(items);
    let p = user_message_positions(items);
    if n < p.len() {
        assert(p[n as int] < items.len());
    }
}

/// Cutting earlier in the user-message order keeps a prefix of what cutting later keeps.
pub proof fn law_before_nth_user_message_monotonic(items: Seq<RolloutItem>, n1: usize, n2: usize)
    requires
        items.len() <= usize::MAX,
        n1 <= n2,
        n2 < user_message_positions(items).len(),
    ensures
        is_prefix_of(before_nth_user_message(items, n1), before_nth_user_message(items, n2)),
{
    lemma_user_message_positions(items);
    let p = user_message_positions(items);
    assert(p[n2 as int] < items.len());
    assert(p[n1 as int] < items.len());
    if n1 < n2 {
        assert(p[n1 as int] < p[n2 as int]);
    }
    assert(items.take(p[n2 as int] as int).take(p[n1 as int] as int) =~= items.take(
        p[n1 as int] as int,
    ));
}

/// Cutting before the last user message is cutting before the user message whose
/// index from the start is one less than the number of surviving user messages; with
/// none, nothing is cut.
pub proof fn law_last_user_message_is_last_from_start(items: Seq<RolloutItem>)
    requires
        items.len() <= usize::MAX,
    ensures
        user_message_positions(items).len() == 0 ==> before_last_user_message(items) == items,
        user_message_positions(items).len() > 0 ==> before_last_user_message(items)
            == before_nth_user_message(
            items,
            (user_message_positions(items).len() - 1) as usize,
        ),
{
    lemma_user_message_positions(items);
}

/// Without turn events, the segment cut is the cut before the last user message.
pub proof fn law_segment_cut_without_turn_events(items: Seq<RolloutItem>)
    requires
        forall|i: int| 0 <= i < items.len() ==> !is_turn_event(#[trigger] items[i]),
    ensures
        before_last_user_turn_segment(items) == before_last_user_message(items),
{
    lemma_saw_turn_events(items);
}

/// With turn events, a cut before the newest user-turn segment falls right at the item
/// that started that segment (a `TurnStarted`, a `UserMessage` event, a `TurnContext`
/// or a user message), so none of its scaffolding stays in the result.
pub proof fn law_segment_cut_at_segment_start(items: Seq<RolloutItem>)
    requires
        items.len() <= usize::MAX,
        exists|i: int| 0 <= i < items.len() && is_turn_event(#[trigger] items[i]),
    ensures
        before_last_user_turn_segment(items).len() < items.len() ==> opens_segment(
            items[before_last_user_turn_segment(items).len() as int],
        ),
{
    lemma_saw_turn_events(items);
    lemma_segment_starts(items);
    let st = scan_segments(items);
    let starts = finalize_starts(st.active, st.starts);
    if starts.len() > 0 {
        if st.starts.len() > 0 {
            assert(segment_start_of(items, st.starts[st.starts.len() - 1]));
        }
        assert(segment_start_of(items, starts.last()));
    }
}

/// A user-message position is always the index of a model message that the turn
/// parser read as a user message (never an event, a turn context or another
/// message); and in a rollout without rollback markers, every such message is a
/// position.
pub proof fn law_positions_are_parsed_user_messages(items: Seq<RolloutItem>)
    requires
        items.len() <= usize::MAX,
    ensures
        forall|k: int|
            0 <= k < user_message_positions(items).len() ==> items[#[trigger] user_message_positions(
                items,
            )[k] as int] matches RolloutItem::ResponseItem(
                ResponseItem::Message { turn_item: Some(TurnItemKind::UserMessage), .. },
            ),
        (forall|i: int|
            0 <= i < items.len() ==> !(#[trigger] items[i] matches RolloutItem::EventMsg(
                EventMsg::ThreadRolledBack { .. },
            ))) ==> forall|i: int|
            0 <= i < items.len() && (#[trigger] items[i] matches RolloutItem::ResponseItem(
                ResponseItem::Message { turn_item: Some(TurnItemKind::UserMessage), .. },
            )) ==> user_message_positions(items).contains(i as usize),
    decreases items.len(),
{
    lemma_user_message_positions(items);
    if items.len() > 0 {
        let prefix = items.drop_last();
        law_positions_are_parsed_user_messages(prefix);
        assert forall|i: int| 0 <= i < prefix.len() implies prefix[i] == items[i] by {}
        let prev = user_message_positions(prefix);
        let cur = user_message_positions(items);
        if forall|i: int|
            0 <= i < items.len() ==> !(#[trigger] items[i] matches RolloutItem::EventMsg(
                EventMsg::ThreadRolledBack { .. },
            )) {
            assert forall|i: int|
                0 <= i < prefix.len() implies !(#[trigger] prefix[i] matches RolloutItem::EventMsg(
                EventMsg::ThreadRolledBack { .. },
            )) by {
                assert(prefix[i] == items[i]);
            }
            assert(!(items[items.len() - 1] matches RolloutItem::EventMsg(
                EventMsg::ThreadRolledBack { .. },
            )));
            assert forall|i: int|
                0 <= i < items.len() && (#[trigger] items[i] matches RolloutItem::ResponseItem(
                    ResponseItem::Message { turn_item: Some(TurnItemKind::UserMessage), .. },
                )) implies cur.contains(i as usize) by {
                if i < prefix.len() {
                    assert(prefix[i] == items[i]);
                    assert(prev.contains(i as usize));
                    let j = choose|j: int| 0 <= j < prev.len() && prev[j] == i as usize;
                    if is_user_message(items.last()) {
                        assert(cur[j] == prev[j]);
                    } else {
                        assert(cur == prev);
                    }
                } else {
                    assert(cur[cur.len() - 1] == i as usize);
                }
            }
        }
    }
}

/// The rollback marker that removes the last `k` user turns.
pub open spec fn rollback_marker(k: u32) -> RolloutItem {
    RolloutItem::EventMsg(EventMsg::ThreadRolledBack { num_turns: k })
}

/// Rolling back `k` turns after a rollout whose user-turn segments are all closed
/// moves the segment cut to the start of the newest segment that survives: with `m`
/// recorded segments starting at `s[0..m]`, the cut falls at `s[m - 1 - k]`, and
/// nothing is cut once `k >= m`. A rolled-back turn is never the one cut before.
pub proof fn law_segment_cut_skips_rolled_back_turns(items: Seq<RolloutItem>, k: u32)
    requires
        scan_segments(items).saw_turn_events,
        scan_segments(items).active is None,
    ensures
        ({
            let s = scan_segments(items).starts;
            let rolled = items.push(rollback_marker(k));
            if k >= s.len() {
                before_last_user_turn_segment(rolled) == rolled
            } else {
                before_last_user_turn_segment(rolled) == rolled.take(
                    s[s.len() - 1 - k] as int,
                )
            }
        }),
{
    let rolled = items.push(rollback_marker(k));
    assert(rolled.drop_last() =~= items);
    assert(rolled.last() == rollback_marker(k));
}

/// How one more item changes the user-message positions: a model message parsed as a
/// user message adds its index; a rollback of `k` turns drops the last `k` positions
/// (all of them when there are fewer); any other item leaves them as they are.
pub proof fn law_positions_step(items: Seq<RolloutItem>, item: RolloutItem)
    requires
        items.len() < usize::MAX,
    ensures
        ({
            let before = user_message_positions(items);
            let after = user_message_positions(items.push(item));
            if item matches RolloutItem::ResponseItem(
                ResponseItem::Message { turn_item: Some(TurnItemKind::UserMessage), .. },
            ) {
                after == before.push(items.len() as usize)
            } else if let RolloutItem::EventMsg(EventMsg::ThreadRolledBack { num_turns }) = item {
                after == if num_turns >= before.len() {
                    Seq::<usize>::empty()
                } else {
                    before.take(before.len() - num_turns)
                }
            } else {
                after == before
            }
        }),
{
    let next = items.push(item);
    assert(next.drop_last() =~= items);
    assert(next.last() == item);
    let before = user_message_positions(items);
    if let RolloutItem::EventMsg(EventMsg::ThreadRolledBack { num_turns }) = item {
        if num_turns >= before.len() {
            assert(before.take(0) =~= Seq::<usize>::empty());
        }
    }
}

/// A turn that has just started and holds a user's message (a `UserMessage` event, or
/// a model message parsed as a user message) is the newest user-turn segment:
/// forking right then cuts exactly before its `TurnStarted`, so the child inherits all
/// that came before and none of the new turn.
pub proof fn law_segment_cut_before_a_started_user_turn(
    items: Seq<RolloutItem>,
    turn_id: String,
    user_item: RolloutItem,
)
    requires
        items.len() + 2 <= usize::MAX,
        (user_item matches RolloutItem::EventMsg(EventMsg::UserMessage { .. })) || (user_item matches RolloutItem::ResponseItem(
            ResponseItem::Message { turn_item: Some(TurnItemKind::UserMessage), .. },
        )),
    ensures
        ({
            let forked = items.push(RolloutItem::EventMsg(EventMsg::TurnStarted { turn_id })).push(
                user_item,
            );
            before_last_user_turn_segment(forked) == items
        }),
{
    let started = items.push(RolloutItem::EventMsg(EventMsg::TurnStarted { turn_id }));
    let forked = started.push(user_item);
    assert(started.drop_last() =~= items);
    assert(forked.drop_last() =~= started);
    let st1 = scan_segments(started);
    assert(st1 == scan_step(
        scan_segments(items),
        items.len() as usize,
        RolloutItem::EventMsg(EventMsg::TurnStarted { turn_id }),
    ));
    assert(st1.saw_turn_events);
    assert(st1.active == Some(
        ActiveSegment {
            start_idx: items.len() as usize,
            turn_id: Some(turn_id@),
            counts_as_user_turn: false,
        },
    ));
    let st2 = scan_segments(forked);
    assert(st2 == scan_step(st1, started.len() as usize, user_item));
    assert(st2.saw_turn_events);
    assert(st2.active == Some(
        ActiveSegment {
            start_idx: items.len() as usize,
            turn_id: Some(turn_id@),
            counts_as_user_turn: true,
        },
    ));
    assert(finalize_starts(st2.active, st2.starts) == st2.starts.push(items.len() as usize));
    assert(forked.take(items.len() as int) =~= items);
}

/// Two turn ids are compatible when either is unknown; two known ids are compatible
/// exactly when they are the same id.
pub proof fn law_turn_id_compatibility(active: Option<Seq<char>>, item: Option<Seq<char>>)
    ensures
        active is None ==> turn_ids_compatible(active, item),
        item is None ==> turn_ids_compatible(active, item),
        (active is Some && item is Some) ==> (turn_ids_compatible(active, item) <==> active->0
            == item->0),
{
}

/// A started user turn is closed, and recorded as a segment that starts at its
/// `TurnStarted`, by a `TurnComplete` of the same turn; a `TurnComplete` of another
/// turn leaves it open and records nothing.
pub proof fn law_turn_complete_closes_only_its_turn(
    items: Seq<RolloutItem>,
    turn_id: String,
    message: String,
    complete_id: String,
    last_agent_message: Option<String>,
)
    requires
        items.len() + 3 <= usize::MAX,
    ensures
        ({
            let started = items.push(RolloutItem::EventMsg(EventMsg::TurnStarted { turn_id })).push(
                RolloutItem::EventMsg(EventMsg::UserMessage { message }),
            );
            let completed = started.push(
                RolloutItem::EventMsg(
                    EventMsg::TurnComplete { turn_id: complete_id, last_agent_message },
                ),
            );
            let before = finalize_starts(scan_segments(items).active, scan_segments(items).starts);
            if complete_id@ == turn_id@ {
                &&& scan_segments(completed).active is None
                &&& scan_segments(completed).starts == before.push(items.len() as usize)
            } else {
                &&& scan_segments(completed).active == scan_segments(started).active
                &&& scan_segments(completed).starts == before
            }
        }),
{
    let ts = RolloutItem::EventMsg(EventMsg::TurnStarted { turn_id });
    let um = RolloutItem::EventMsg(EventMsg::UserMessage { message });
    let tc = RolloutItem::EventMsg(EventMsg::TurnComplete { turn_id: complete_id, last_agent_message });
    let s1 = items.push(ts);
    let s2 = s1.push(um);
    let s3 = s2.push(tc);
    assert(s1.drop_last() =~= items);
    assert(s2.drop_last() =~= s1);
    assert(s3.drop_last() =~= s2);
    assert(scan_segments(s1) == scan_step(scan_segments(items), items.len() as usize, ts));
    assert(scan_segments(s2) == scan_step(scan_segments(s1), s1.len() as usize, um));
    assert(scan_segments(s3) == scan_step(scan_segments(s2), s2.len() as usize, tc));
    assert(scan_segments(s2).active == Some(
        ActiveSegment {
            start_idx: items.len() as usize,
            turn_id: Some(turn_id@),
            counts_as_user_turn: true,
        },
    ));
}

} // verus!
