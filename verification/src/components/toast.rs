//! Toast notifications: their kinds, display options, and the queue of
//! notifications on screen.
use vstd::prelude::*;

use std::collections::VecDeque;
use std::time::Duration;

verus! {

/// The kind of a notification.
#[derive(Debug, Clone, Copy, PartialEq, Eq, Structural)]
pub enum ToastType {
    Success,
    Error,
    Warning,
    Info,
}

pub open spec fn spec_toast_type_name(toast_type: ToastType) -> Seq<char> {
    match toast_type {
        ToastType::Success => "success"@,
        ToastType::Error => "error"@,
        ToastType::Warning => "warning"@,
        ToastType::Info => "info"@,
    }
}

impl ToastType {
    /// The name that styles the notification.
    pub fn as_str(self) -> (r: &'static str)
        ensures
            r@ == spec_toast_type_name(self),
    {
        match self {
            ToastType::Success => "success",
            ToastType::Error => "error",
            ToastType::Warning => "warning",
            ToastType::Info => "info",
        }
    }
}

/// How a notification is shown: an optional description, an optional
/// display time, and whether it stays until dismissed.
#[derive(Debug, Clone, PartialEq, Eq)]
pub struct ToastOptions {
    description: Option<String>,
    duration: Option<Duration>,
    permanent: bool,
}

impl Default for ToastOptions {
    fn default() -> (r: Self)
        ensures
            r.spec_description() is None,
            r.spec_duration() is None,
            !r.spec_permanent(),
    {
        ToastOptions { description: None, duration: None, permanent: false }
    }
}

impl ToastOptions {
    pub closed spec fn spec_description(&self) -> Option<String> {
        self.description
    }

    pub closed spec fn spec_duration(&self) -> Option<Duration> {
        self.duration
    }

    pub closed spec fn spec_permanent(&self) -> bool {
        self.permanent
    }

    /// Options with nothing set.
    pub fn new() -> (r: Self)
        ensures
            r.spec_description() is None,
            r.spec_duration() is None,
            !r.spec_permanent(),
    {
        Self::default()
    }

    /// The options with a description.
    pub fn description(self, description: String) -> (r: Self)
        ensures
            r.spec_description() == Some(description),
            r.spec_duration() == self.spec_duration(),
            r.spec_permanent() == self.spec_permanent(),
    {
        ToastOptions { description: Some(description), ..self }
    }

    /// The options with a display time.
    pub fn duration(self, duration: Duration) -> (r: Self)
        ensures
            r.spec_description() == self.spec_description(),
            r.spec_duration() == Some(duration),
            r.spec_permanent() == self.spec_permanent(),
    {
        ToastOptions { duration: Some(duration), ..self }
    }

    /// The options with the notification kept, or not, until dismissed.
    pub fn permanent(self, permanent: bool) -> (r: Self)
        ensures
            r.spec_description() == self.spec_description(),
            r.spec_duration() == self.spec_duration(),
            r.spec_permanent() == permanent,
    {
        ToastOptions { permanent, ..self }
    }

    /// The description, if set.
    pub fn description_text(&self) -> (r: Option<&String>)
        ensures
            match r {
                Some(d) => self.spec_description() == Some(*d),
                None => self.spec_description() is None,
            },
    {
        match &self.description {
            Some(d) => Some(d),
            None => None,
        }
    }

    /// The display time, if set.
    pub fn display_time(&self) -> (r: Option<Duration>)
        ensures
            r == self.spec_duration(),
    {
        self.duration
    }

    /// Whether the notification stays until dismissed.
    pub fn is_permanent(&self) -> (r: bool)
        ensures
            r == self.spec_permanent(),
    {
        self.permanent
    }
}

/// How long a notification stays when its options set no display time.
pub const DEFAULT_DISPLAY_SECONDS: u64 = 5;

/// The most notifications on screen at once; a new one pushes out the
/// oldest.
pub const MAX_TOASTS: usize = 10;

/// The `Duration` of `seconds` whole seconds.
pub uninterp spec fn seconds_duration(seconds: u64) -> Duration;

/// `Duration::from_secs`: the duration of `seconds` whole seconds.
#[verifier::external_body]
fn duration_from_secs(seconds: u64) -> (r: Duration)
    ensures
        r == seconds_duration(seconds),
{
    Duration::from_secs(seconds)
}

/// A notification on screen.
#[derive(Debug, Clone, PartialEq, Eq)]
pub struct ToastRecord {
    pub id: usize,
    pub title: String,
    pub description: Option<String>,
    pub toast_type: ToastType,
}

/// The notifications on screen, oldest first, each with an id of its own.
#[derive(Debug)]
pub struct ToastQueue {
    next_id: usize,
    records: VecDeque<ToastRecord>,
}

/// The first position of a record with `id`, or the length when none has it.
pub open spec fn position_of_id(records: Seq<ToastRecord>, id: usize) -> int
    decreases records.len(),
{
    if records.len() == 0 {
        0
    } else if records[0].id == id {
        0
    } else {
        1 + position_of_id(records.drop_first(), id)
    }
}

proof fn lemma_position_of_id(records: Seq<ToastRecord>, id: usize, k: int)
    requires
        0 <= k <= records.len(),
        forall|j: int| 0 <= j < k ==> records[j].id != id,
        k == records.len() || records[k].id == id,
    ensures
        position_of_id(records, id) == k,
    decreases k,
{
    if k > 0 {
        let rest = records.drop_first();
        assert forall|j: int| 0 <= j < k - 1 implies rest[j].id != id by {
            assert(rest[j] == records[j + 1]);
        }
        if k < records.len() {
            assert(rest[k - 1] == records[k]);
        }
        lemma_position_of_id(rest, id, k - 1);
    }
}

/// The display time of a notification pushed with `options`: none when it
/// stays until dismissed, else its own time or the default.
pub open spec fn display_timer(options: ToastOptions) -> Option<Duration> {
    if options.spec_permanent() {
        None
    } else {
        match options.spec_duration() {
            Some(d) => Some(d),
            None => Some(seconds_duration(DEFAULT_DISPLAY_SECONDS)),
        }
    }
}

/// The records after `record` joins `records`: the newest last, and the
/// oldest leaves when there are more than `MAX_TOASTS`.
pub open spec fn pushed(records: Seq<ToastRecord>, record: ToastRecord) -> Seq<ToastRecord> {
    let all = records.push(record);
    if all.len() > MAX_TOASTS {
        all.drop_first()
    } else {
        all
    }
}

/// The records after the one with `id`, if any, is dismissed.
pub open spec fn dismissed(records: Seq<ToastRecord>, id: usize) -> Seq<ToastRecord> {
    let k = position_of_id(records, id);
    if k < records.len() {
        records.remove(k)
    } else {
        records
    }
}

impl ToastQueue {
    /// The notifications on screen, oldest first.
    pub closed spec fn spec_records(&self) -> Seq<ToastRecord> {
        self.records@
    }

    /// The id that the next notification gets.
    pub closed spec fn spec_next_id(&self) -> usize {
        self.next_id
    }

    /// At most `MAX_TOASTS` records, with ids rising from oldest to newest,
    /// all below the next id.
    #[verifier::type_invariant]
    pub closed spec fn well_formed(&self) -> bool {
        &&& self.records@.len() <= MAX_TOASTS
        &&& forall|i: int, j: int|
            0 <= i < j < self.records@.len() ==> #[trigger] self.records@[i].id
                < #[trigger] self.records@[j].id
        &&& forall|i: int| 0 <= i < self.records@.len() ==> #[trigger] self.records@[i].id < self.next_id
    }

    /// No notification yet.
    pub fn new() -> (r: ToastQueue)
        ensures
            r.spec_records() == Seq::<ToastRecord>::empty(),
            r.spec_next_id() == 0,
    {
        ToastQueue { next_id: 0, records: VecDeque::new() }
    }

    /// Shows a notification. Returns its id and how long it stays (`None`:
    /// until dismissed), after which the caller dismisses it.
    pub fn push(&mut self, title: String, toast_type: ToastType, options: ToastOptions) -> (r: (
        usize,
        Option<Duration>,
    ))
        requires
            old(self).spec_next_id() < usize::MAX,
        ensures
            r.0 == old(self).spec_next_id(),
            r.1 == display_timer(options),
            final(self).spec_next_id() == old(self).spec_next_id() + 1,
            final(self).spec_records() == pushed(
                old(self).spec_records(),
                ToastRecord { id: r.0, title, description: options.spec_description(), toast_type },
            ),
    {
        proof {
            use_type_invariant(&*self);
        }
        let id = self.next_id;
        let timer = if options.permanent {
            None
        } else {
            match options.duration {
                Some(d) => Some(d),
                None => Some(duration_from_secs(DEFAULT_DISPLAY_SECONDS)),
            }
        };
        let record = ToastRecord { id, title, description: options.description, toast_type };
        let ghost expected = pushed(self.records@, record);
        let mut records: VecDeque<ToastRecord> = VecDeque::new();
        std::mem::swap(&mut records, &mut self.records);
        records.push_back(record);
        if records.len() > MAX_TOASTS {
            let _ = records.pop_front();
        }
        assert(records@ =~= expected);
        self.next_id = id + 1;
        self.records = records;
        (id, timer)
    }

    /// Takes the notification with `id` off the screen, if it is there.
    pub fn dismiss(&mut self, id: usize)
        ensures
            final(self).spec_next_id() == old(self).spec_next_id(),
            final(self).spec_records() == dismissed(old(self).spec_records(), id),
    {
        proof {
            use_type_invariant(&*self);
        }
        let mut k: usize = 0;
        while k < self.records.len() && self.records[k].id != id
            invariant
                k <= self.records@.len(),
                forall|j: int| 0 <= j < k ==> self.records@[j].id != id,
            decreases self.records@.len() - k,
        {
            k = k + 1;
        }
        proof {
            lemma_position_of_id(self.records@, id, k as int);
        }
        if k < self.records.len() {
            let ghost before = self.records@;
            let mut records: VecDeque<ToastRecord> = VecDeque::new();
            std::mem::swap(&mut records, &mut self.records);
            let _ = records.remove(k);
            assert forall|i: int, j: int|
                0 <= i < j < records@.len() implies #[trigger] records@[i].id
                    < #[trigger] records@[j].id by {
                let bi = if i < k { i } else { i + 1 };
                let bj = if j < k { j } else { j + 1 };
                assert(records@[i] == before[bi]);
                assert(records@[j] == before[bj]);
                assert(before[bi].id < before[bj].id);
            }
            assert forall|i: int| 0 <= i < records@.len() implies #[trigger] records@[i].id
                < self.next_id by {
                let bi = if i < k { i } else { i + 1 };
                assert(records@[i] == before[bi]);
                assert(before[bi].id < self.next_id);
            }
            self.records = records;
        }
    }

    /// The notifications on screen, oldest first.
    pub fn records(&self) -> (r: &VecDeque<ToastRecord>)
        ensures
            r@ == self.spec_records(),
    {
        &self.records
    }
}

/// The queue never holds more than `MAX_TOASTS` notifications, and no two of
/// them share an id.
pub proof fn lemma_queue_bounded_and_ids_distinct(q: ToastQueue)
    requires
        q.well_formed(),
    ensures
        q.spec_records().len() <= MAX_TOASTS,
        forall|i: int, j: int|
            0 <= i < q.spec_records().len() && 0 <= j < q.spec_records().len() && i != j
                ==> q.spec_records()[i].id != q.spec_records()[j].id,
{
    assert forall|i: int, j: int|
        0 <= i < q.spec_records().len() && 0 <= j < q.spec_records().len() && i != j implies q.spec_records()[i].id
        != q.spec_records()[j].id by {
        if i < j {
            assert(q.records@[i].id < q.records@[j].id);
        } else {
            assert(q.records@[j].id < q.records@[i].id);
        }
    }
}

/// Keeps the records whose id is not `id`.
pub open spec fn other_than(id: usize) -> spec_fn(ToastRecord) -> bool {
    |r: ToastRecord| r.id != id
}

proof fn lemma_position_of_id_props(records: Seq<ToastRecord>, id: usize)
    ensures
        0 <= position_of_id(records, id) <= records.len(),
        forall|j: int| 0 <= j < position_of_id(records, id) ==> #[trigger] records[j].id != id,
        position_of_id(records, id) < records.len() ==> records[position_of_id(records, id)].id
            == id,
    decreases records.len(),
{
    if records.len() > 0 && records[0].id != id {
        let rest = records.drop_first();
        lemma_position_of_id_props(rest, id);
        assert forall|j: int| 0 <= j < position_of_id(records, id) implies #[trigger] records[j].id
            != id by {
            if j > 0 {
                assert(records[j] == rest[j - 1]);
            }
        }
    }
}

proof fn lemma_filter_other_than(s: Seq<ToastRecord>, id: usize)
    requires
        forall|i: int, j: int| 0 <= i < j < s.len() ==> #[trigger] s[i].id < #[trigger] s[j].id,
    ensures
        s.filter(other_than(id)) == dismissed(s, id),
    decreases s.len(),
{
    reveal(Seq::filter);
    if s.len() > 0 {
        let t = s.drop_last();
        let last = s.last();
        assert forall|i: int, j: int| 0 <= i < j < t.len() implies #[trigger] t[i].id
            < #[trigger] t[j].id by {
            assert(t[i] == s[i] && t[j] == s[j]);
        }
        lemma_filter_other_than(t, id);
        lemma_position_of_id_props(t, id);
        let kt = position_of_id(t, id);
        assert(s.filter(other_than(id)) == if other_than(id)(last) {
            t.filter(other_than(id)).push(last)
        } else {
            t.filter(other_than(id))
        });
        if last.id == id {
            assert forall|j: int| 0 <= j < t.len() implies t[j].id != id by {
                assert(s[j].id < s[s.len() - 1].id);
                assert(t[j] == s[j]);
            }
            if kt < t.len() {
                assert(t[kt].id == id);
                assert(false);
            }
            assert forall|j: int| 0 <= j < s.len() - 1 implies s[j].id != id by {
                assert(t[j] == s[j]);
            }
            lemma_position_of_id(s, id, s.len() - 1);
            assert(s.remove(s.len() - 1) =~= t);
        } else if kt < t.len() {
            assert forall|j: int| 0 <= j < kt implies s[j].id != id by {
                assert(t[j] == s[j]);
            }
            assert(s[kt] == t[kt]);
            lemma_position_of_id(s, id, kt);
            assert(s.remove(kt) =~= t.remove(kt).push(last));
        } else {
            assert forall|j: int| 0 <= j < s.len() implies s[j].id != id by {
                if j < t.len() {
                    assert(t[j] == s[j]);
                }
            }
            lemma_position_of_id(s, id, s.len() as int);
            assert(t.push(last) =~= s);
        }
    }
}

/// Dismissing takes exactly the notifications with that id off the screen
/// and keeps every other one, in order.
pub proof fn lemma_dismiss_removes_only_that_id(q: ToastQueue, id: usize)
    requires
        q.well_formed(),
    ensures
        dismissed(q.spec_records(), id) == q.spec_records().filter(other_than(id)),
{
    lemma_filter_other_than(q.spec_records(), id);
}

/// A pushed notification is the newest on screen, and the ones before it
/// are the newest of those shown before.
pub proof fn lemma_push_keeps_newest(records: Seq<ToastRecord>, record: ToastRecord)
    requires
        records.len() <= MAX_TOASTS,
    ensures
        pushed(records, record).len() <= MAX_TOASTS,
        pushed(records, record).last() == record,
        pushed(records, record).drop_last() =~= if records.len() == MAX_TOASTS {
            records.drop_first()
        } else {
            records
        },
{
}

} // verus!
