//! The checklist screen's decisions: which rows trade places when one is
//! dragged, and the swipe-to-delete flow with its undo window.
use vstd::prelude::*;

use crate::components::gear_menu::{notice_of, notice_view, Notice};
use crate::components::toast::ToastType;
use crate::domain::calendar::str_option_view;
use crate::domain::checklist::ChecklistItem;
use crate::error::ValidationError;
use crate::text::{chars_of, string_from_chars, trim};

verus! {

/// The first position of `id` in `ids`, or the length when it is absent.
pub open spec fn position_of(ids: Seq<i64>, id: i64) -> int
    decreases ids.len(),
{
    if ids.len() == 0 {
        0
    } else if ids[0] == id {
        0
    } else {
        1 + position_of(ids.drop_first(), id)
    }
}

proof fn lemma_position_of(ids: Seq<i64>, id: i64, k: int)
    requires
        0 <= k <= ids.len(),
        forall|j: int| 0 <= j < k ==> ids[j] != id,
        k == ids.len() || ids[k] == id,
    ensures
        position_of(ids, id) == k,
    decreases k,
{
    if k > 0 {
        let rest = ids.drop_first();
        assert forall|j: int| 0 <= j < k - 1 implies rest[j] != id by {
            assert(rest[j] == ids[j + 1]);
        }
        if k < ids.len() {
            assert(rest[k - 1] == ids[k]);
        }
        lemma_position_of(rest, id, k - 1);
    }
}

/// A position moved by `shift` rows and held inside `0..len`.
pub open spec fn clamped_target(len: int, from: int, shift: int) -> int {
    if from + shift < 0 {
        0
    } else if from + shift > len - 1 {
        len - 1
    } else {
        from + shift
    }
}

/// The row move that a drag of `shift` rows of row `id` asks for: none when
/// the row is not listed, the drag is shorter than a row, or the clamped
/// target is the row's own place.
pub open spec fn spec_reorder_indices(ids: Seq<i64>, id: i64, shift: int) -> Option<(int, int)> {
    let from = position_of(ids, id);
    if from >= ids.len() || shift == 0 || clamped_target(ids.len() as int, from, shift) == from {
        None
    } else {
        Some((from, clamped_target(ids.len() as int, from, shift)))
    }
}

/// Where the row with `id` moves when dragged by `shift` rows.
pub fn reorder_indices(ids: &Vec<i64>, id: i64, shift: i64) -> (r: Option<(usize, usize)>)
    ensures
        match (r, spec_reorder_indices(ids@, id, shift as int)) {
            (Some((f, t)), Some((sf, st))) => f == sf && t == st,
            (None, None) => true,
            _ => false,
        },
{
    let mut k: usize = 0;
    while k < ids.len() && !(ids[k] == id)
        invariant
            k <= ids@.len(),
            forall|j: int| 0 <= j < k ==> ids@[j] != id,
        decreases ids@.len() - k,
    {
        k = k + 1;
    }
    proof {
        lemma_position_of(ids@, id, k as int);
    }
    if k == ids.len() {
        return None;
    }
    let from = k;
    if shift == 0 {
        return None;
    }
    let sum: i128 = from as i128 + shift as i128;
    let last: i128 = ids.len() as i128 - 1;
    let target: i128 = if sum < 0 {
        0
    } else if sum > last {
        last
    } else {
        sum
    };
    let target = target as usize;
    if target == from {
        None
    } else {
        Some((from, target))
    }
}

/// The rows after the row at `from` is taken out and put back at `target`.
pub open spec fn moved<T>(rows: Seq<T>, from: int, target: int) -> Seq<T> {
    rows.remove(from).insert(target, rows[from])
}

/// Takes the row at `from` out and puts it back at `target`.
pub fn move_row<T>(rows: Vec<T>, from: usize, target: usize) -> (r: Vec<T>)
    requires
        from < rows@.len(),
        target < rows@.len(),
    ensures
        r@ == moved(rows@, from as int, target as int),
{
    let mut rows = rows;
    let row = rows.remove(from);
    rows.insert(target, row);
    rows
}

/// Moving a row keeps every row: the result is a rearrangement.
pub proof fn lemma_move_is_permutation<T>(rows: Seq<T>, from: int, target: int)
    requires
        0 <= from < rows.len(),
        0 <= target < rows.len(),
    ensures
        moved(rows, from, target).to_multiset() == rows.to_multiset(),
        moved(rows, from, target).len() == rows.len(),
        moved(rows, from, target)[target] == rows[from],
{
    broadcast use vstd::seq_lib::group_to_multiset_ensures;

    let x = rows[from];
    let rest = rows.remove(from);
    let m = moved(rows, from, target);
    assert(m.remove(target) =~= rest);
    assert(m[target] == x);
    assert(m.remove(target).to_multiset() == m.to_multiset().remove(x));
    assert(rows.remove(from).to_multiset() == rows.to_multiset().remove(x));
    assert(m.contains(x));
    assert(rows.contains(x));
    assert(m.to_multiset().count(x) > 0);
    assert(rows.to_multiset().count(x) > 0);
    assert(m.to_multiset() =~= rows.to_multiset());
}

/// Moving a row back to where it came from undoes the move.
pub proof fn lemma_move_back<T>(rows: Seq<T>, from: int, target: int)
    requires
        0 <= from < rows.len(),
        0 <= target < rows.len(),
    ensures
        moved(moved(rows, from, target), target, from) == rows,
{
    let m = moved(rows, from, target);
    assert(m[target] == rows[from]);
    assert(m.remove(target) =~= rows.remove(from));
    assert(rows.remove(from).insert(from, rows[from]) =~= rows);
}

/// The row id that stands for the item being added, which has no id yet.
pub const NEW_ROW: i64 = -1;

/// What committing a row's text saves: a new item, or a new text for an
/// existing one.
#[derive(Debug, Clone, PartialEq, Eq)]
pub enum ChecklistCommit {
    Add(String),
    Rename(i64, String),
}

/// Whether a commit of row `id` is ignored: the row is being saved, there
/// is no new item to add, or the row is not the one being edited.
pub open spec fn commit_ignored(id: i64, busy: bool, editing: Option<i64>, new_draft: Option<Seq<char>>) -> bool {
    busy || (id == NEW_ROW && new_draft is None) || (id != NEW_ROW && editing != Some(id))
}

/// The text that a commit of row `id` saves before trimming: the new
/// item's draft, or the row's own draft (empty when there is none).
pub open spec fn commit_text(id: i64, new_draft: Option<Seq<char>>, draft: Option<Seq<char>>) -> Seq<char> {
    let raw = if id == NEW_ROW {
        new_draft
    } else {
        draft
    };
    match raw {
        Some(t) => t,
        None => Seq::empty(),
    }
}

/// What committing row `id` does: `None` when the commit is ignored, the
/// validation error when its trimmed text is blank, and otherwise the save
/// to make with the trimmed text. `draft` is the row's edited text.
pub fn commit_request(
    id: i64,
    busy: bool,
    editing: Option<i64>,
    new_draft: Option<&str>,
    draft: Option<&str>,
) -> (r: Option<Result<ChecklistCommit, ValidationError>>)
    ensures
        r is None <==> commit_ignored(id, busy, editing, str_option_view(new_draft)),
        match r {
            Some(Ok(ChecklistCommit::Add(text))) => id == NEW_ROW && text@ == trim(
                commit_text(id, str_option_view(new_draft), str_option_view(draft)),
            ) && text@.len() > 0,
            Some(Ok(ChecklistCommit::Rename(row, text))) => id != NEW_ROW && row == id && text@ == trim(
                commit_text(id, str_option_view(new_draft), str_option_view(draft)),
            ) && text@.len() > 0,
            Some(Err(e)) => e == ValidationError::BlankChecklistText && trim(
                commit_text(id, str_option_view(new_draft), str_option_view(draft)),
            ).len() == 0,
            None => true,
        },
{
    if busy {
        return None;
    }
    if id == NEW_ROW && new_draft.is_none() {
        return None;
    }
    if id != NEW_ROW && !(match editing {
        Some(e) => e == id,
        None => false,
    }) {
        return None;
    }
    let raw: &str = if id == NEW_ROW {
        match new_draft {
            Some(t) => t,
            None => "",
        }
    } else {
        match draft {
            Some(t) => t,
            None => "",
        }
    };
    proof {
        reveal_strlit("");
    }
    match ChecklistItem::validate_text(raw) {
        Ok(text) => if id == NEW_ROW {
            Some(Ok(ChecklistCommit::Add(text)))
        } else {
            Some(Ok(ChecklistCommit::Rename(id, text)))
        },
        Err(e) => Some(Err(e)),
    }
}

/// How many of `items` are checked.
pub open spec fn checked_count(items: Seq<ChecklistItem>) -> nat
    decreases items.len(),
{
    if items.len() == 0 {
        0
    } else {
        checked_count(items.drop_last()) + if items.last().is_checked {
            1nat
        } else {
            0nat
        }
    }
}

/// The preparation progress of a checklist: checked items, all items, and
/// the whole percentage checked (0 for an empty list; the product with 100
/// saturates at the largest `usize`).
pub fn checklist_progress(items: &Vec<ChecklistItem>) -> (r: (usize, usize, usize))
    ensures
        r.0 == checked_count(items@),
        r.1 == items@.len(),
        r.2 == if r.1 == 0 {
            0int
        } else if r.0 * 100 > usize::MAX {
            usize::MAX as int / r.1 as int
        } else {
            (r.0 * 100) / (r.1 as int)
        },
{
    let mut completed: usize = 0;
    let mut i: usize = 0;
    while i < items.len()
        invariant
            i <= items@.len(),
            completed <= i,
            completed == checked_count(items@.subrange(0, i as int)),
        decreases items@.len() - i,
    {
        assert(items@.subrange(0, i + 1).drop_last() =~= items@.subrange(0, i as int));
        if items[i].is_checked {
            completed = completed + 1;
        }
        i = i + 1;
    }
    assert(items@.subrange(0, items@.len() as int) =~= items@);
    let total = items.len();
    if total == 0 {
        return (completed, total, 0);
    }
    let scaled: usize = if completed <= usize::MAX / 100 {
        completed * 100
    } else {
        usize::MAX
    };
    (completed, total, scaled / total)
}

/// A row sliding out after a swipe, and the side it leaves by (1 for
/// right, -1 for left).
#[derive(Debug, Clone, PartialEq, Eq)]
pub struct DismissingDelete {
    pub item: ChecklistItem,
    pub direction: i8,
}

/// The swipe-to-delete flow of the checklist. A swiped row first slides
/// out (`dismissing`), then waits in the undo bar (`pending`) until the undo
/// window closes and it is deleted. Each swipe and each undo starts a new
/// round; a timer of an earlier round changes nothing.
#[derive(Debug, Clone, PartialEq, Eq)]
pub struct SwipeDelete {
    pub round: u64,
    pub dismissing: Option<DismissingDelete>,
    pub pending: Option<ChecklistItem>,
}

/// The flow with nothing under way.
pub open spec fn swipe_idle(round: u64) -> SwipeDelete {
    SwipeDelete { round, dismissing: None, pending: None }
}

/// A swipe of `item` towards `direction`: refused (state unchanged, no
/// round) while another removal is under way or the row is busy; otherwise
/// a new round starts with the row sliding out.
pub open spec fn spec_swipe(s: SwipeDelete, item: ChecklistItem, direction: i8, busy: bool) -> (
    SwipeDelete,
    Option<u64>,
) {
    if s.pending is Some || s.dismissing is Some || busy {
        (s, None)
    } else {
        let round = (s.round + 1) as u64;
        (SwipeDelete { round, dismissing: Some(DismissingDelete { item, direction }), pending: s.pending }, Some(round))
    }
}

/// The slide-out timer of `round` has run out: if the round is current and
/// a row is sliding out, that row moves to the undo bar.
pub open spec fn spec_slide_out_finished(s: SwipeDelete, round: u64) -> (SwipeDelete, bool) {
    if round == s.round && s.dismissing is Some {
        (SwipeDelete { round: s.round, dismissing: None, pending: Some(s.dismissing.unwrap().item) }, true)
    } else {
        (s, false)
    }
}

/// The row to delete when the undo window of `round` closes: the row in the
/// undo bar, if the round is still current.
pub open spec fn spec_undo_window_closed(s: SwipeDelete, round: u64) -> Option<i64> {
    if round == s.round && s.pending is Some {
        Some(s.pending.unwrap().id)
    } else {
        None
    }
}

/// The deletion of `round` has finished: the undo bar closes if the round
/// is still current.
pub open spec fn spec_deletion_finished(s: SwipeDelete, round: u64) -> (SwipeDelete, bool) {
    if round == s.round {
        (SwipeDelete { round: s.round, dismissing: s.dismissing, pending: None }, true)
    } else {
        (s, false)
    }
}

/// Undo: a new round starts with nothing under way.
pub open spec fn spec_undo(s: SwipeDelete) -> SwipeDelete {
    swipe_idle((s.round + 1) as u64)
}

impl SwipeDelete {
    /// The flow before any swipe.
    pub fn new() -> (r: SwipeDelete)
        ensures
            r == swipe_idle(0),
    {
        SwipeDelete { round: 0, dismissing: None, pending: None }
    }

    /// Swipes `item` away towards `direction`; `busy` tells whether the row
    /// is being saved. Returns the new round, whose slide-out timer the
    /// caller starts, or `None` when the swipe is refused.
    pub fn swipe(&mut self, item: ChecklistItem, direction: i8, busy: bool) -> (r: Option<u64>)
        requires
            old(self).round < u64::MAX,
        ensures
            (*final(self), r) == spec_swipe(*old(self), item, direction, busy),
    {
        if self.pending.is_some() || self.dismissing.is_some() || busy {
            return None;
        }
        self.round = self.round + 1;
        self.dismissing = Some(DismissingDelete { item, direction });
        Some(self.round)
    }

    /// The slide-out timer of `round` has run out. Returns whether the row
    /// moved to the undo bar, in which case the caller starts the undo timer.
    pub fn slide_out_finished(&mut self, round: u64) -> (r: bool)
        ensures
            (*final(self), r) == spec_slide_out_finished(*old(self), round),
    {
        if round != self.round {
            return false;
        }
        match self.dismissing.take() {
            Some(dismissing) => {
                self.pending = Some(dismissing.item);
                true
            },
            None => false,
        }
    }

    /// The undo window of `round` has closed: the id of the row to delete
    /// now, if any.
    pub fn undo_window_closed(&self, round: u64) -> (r: Option<i64>)
        ensures
            r == spec_undo_window_closed(*self, round),
    {
        if round != self.round {
            return None;
        }
        match &self.pending {
            Some(item) => Some(item.id),
            None => None,
        }
    }

    /// The deletion started in `round` has finished. Returns whether the
    /// round was still current, in which case the undo bar closed and the
    /// caller refreshes the list or reports the failure.
    pub fn deletion_finished(&mut self, round: u64) -> (r: bool)
        ensures
            (*final(self), r) == spec_deletion_finished(*old(self), round),
    {
        if round != self.round {
            return false;
        }
        self.pending = None;
        true
    }

    /// Undoes the removal under way, if any.
    pub fn undo(&mut self)
        requires
            old(self).round < u64::MAX,
        ensures
            *final(self) == spec_undo(*old(self)),
    {
        self.round = self.round + 1;
        self.dismissing = None;
        self.pending = None;
    }
}

/// A swipe is refused while another removal is under way: at most one row
/// is ever sliding out or waiting in the undo bar.
pub proof fn lemma_one_removal_at_a_time(s: SwipeDelete, item: ChecklistItem, direction: i8, busy: bool)
    requires
        s.dismissing is Some || s.pending is Some,
    ensures
        spec_swipe(s, item, direction, busy) == (s, None::<u64>),
{
}

/// A swipe that is not undone deletes its row: after the slide-out and the
/// undo window of its round, the swiped row is the one deleted.
pub proof fn lemma_swipe_deletes_row(round: u64, item: ChecklistItem, direction: i8)
    requires
        round < u64::MAX,
    ensures
        ({
            let (s1, r) = spec_swipe(swipe_idle(round), item, direction, false);
            let (s2, moved) = spec_slide_out_finished(s1, r.unwrap());
            &&& r == Some((round + 1) as u64)
            &&& moved
            &&& spec_undo_window_closed(s2, r.unwrap()) == Some(item.id)
        }),
{
}

/// Undo prevents the deletion: after an undo, the timers of every earlier
/// round change nothing and delete no row.
pub proof fn lemma_undo_cancels_earlier_rounds(s: SwipeDelete, round: u64)
    requires
        s.round < u64::MAX,
        round <= s.round,
    ensures
        spec_slide_out_finished(spec_undo(s), round) == (spec_undo(s), false),
        spec_undo_window_closed(spec_undo(s), round) is None,
        spec_deletion_finished(spec_undo(s), round) == (spec_undo(s), false),
{
}

/// The error shown when a swiped row could not be deleted; `error` is the
/// storage error's text.
pub fn deletion_failed_notice(error: String) -> (r: Notice)
    ensures
        notice_view(r) == notice_of(ToastType::Error, "Checklist item was not deleted"@, error@),
{
    let title = chars_of("Checklist item was not deleted");
    Notice { kind: ToastType::Error, title: string_from_chars(title.as_slice()), description: error }
}

} // verus!
