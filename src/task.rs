//! The task entity: its query semantics, its mutations and its priority score.

use crate::engine::{Mutation, Query};
use crate::id::{ids_match, Id};
use crate::prop::{Prop, Timestamp};
use crate::recur::Recur;
use crate::tag::Sign;
use core::cmp::Ordering;
use vstd::prelude::*;
use vstd::std_specs::cmp::PartialOrdSpec;
use vstd::string::StringExecFns;

verus! {

/// A task as a mathematical value: times as integers, texts as character
/// sequences, tags as a set of names.
pub ghost struct TaskView {
    pub created_at: int,
    pub description: Option<Seq<char>>,
    pub done: Option<int>,
    pub due: Option<int>,
    pub id: Seq<char>,
    pub recur: Option<Recur>,
    pub snooze: Option<int>,
    pub updated_at: int,
    pub wait: Option<int>,
    pub tags: Set<Seq<char>>,
}

/// A task record. `tags` is a list of names read as a set: order and
/// repetition carry no meaning.
#[derive(Debug)]
pub struct Task {
    pub created_at: Timestamp,
    pub description: Option<String>,
    pub done: Option<Timestamp>,
    pub due: Option<Timestamp>,
    pub id: Id,
    pub recur: Option<Recur>,
    pub snooze: Option<Timestamp>,
    pub updated_at: Timestamp,
    pub wait: Option<Timestamp>,
    pub tags: Vec<String>,
}

/// The names held by a list of tags.
pub open spec fn tag_names(tags: Seq<String>) -> Set<Seq<char>> {
    Set::new(|n: Seq<char>| exists|i: int| 0 <= i < tags.len() && #[trigger] tags[i]@ == n)
}

/// An optional timestamp as an optional integer.
pub open spec fn opt_ts(t: Option<Timestamp>) -> Option<int> {
    match t {
        Some(v) => Some(v as int),
        None => None,
    }
}

impl View for Task {
    type V = TaskView;

    open spec fn view(&self) -> TaskView {
        TaskView {
            created_at: self.created_at as int,
            description: match self.description {
                Some(d) => Some(d@),
                None => None,
            },
            done: opt_ts(self.done),
            due: opt_ts(self.due),
            id: self.id@,
            recur: self.recur,
            snooze: opt_ts(self.snooze),
            updated_at: self.updated_at as int,
            wait: opt_ts(self.wait),
            tags: tag_names(self.tags@),
        }
    }
}

/// Outcome of scanning `queries` in order, starting from `default`: a
/// matching id or a present plus tag accepts, a present minus tag rejects, an
/// absent minus tag turns the default to acceptance.
pub open spec fn scan_queries(t: TaskView, queries: Seq<Query>, default: bool) -> bool
    decreases queries.len(),
{
    if queries.len() == 0 {
        default
    } else {
        let rest = queries.drop_first();
        match queries[0] {
            Query::Id(id) => if ids_match(id@, t.id) {
                true
            } else {
                scan_queries(t, rest, default)
            },
            Query::Tag(tag) => if tag.sign == Sign::Plus {
                if t.tags.contains(tag.name@) {
                    true
                } else {
                    scan_queries(t, rest, default)
                }
            } else {
                if t.tags.contains(tag.name@) {
                    false
                } else {
                    scan_queries(t, rest, true)
                }
            },
        }
    }
}

/// Whether a task is selected by a list of queries; an empty list selects
/// nothing.
pub open spec fn satisfies(t: TaskView, queries: Seq<Query>) -> bool {
    queries.len() > 0 && scan_queries(t, queries, false)
}

/// A time moved forward by `offset` seconds, held at the largest timestamp
/// rather than overflowing.
pub open spec fn shifted(t: int, offset: int) -> int {
    if t + offset > i64::MAX {
        i64::MAX as int
    } else {
        t + offset
    }
}

/// An optional time moved forward by `offset`, held at the largest timestamp.
pub open spec fn shift_opt(t: Option<int>, offset: int) -> Option<int> {
    match t {
        Some(v) => Some(shifted(v, offset)),
        None => None,
    }
}

/// The task after one mutation at time `now`: the named field or tag is
/// changed and `updated_at` becomes `now`. Marking a task with a recurrence
/// rule done moves its due and wait times forward by the rule's interval
/// instead of setting `done`. Setting `Blocked` changes no stored field.
pub open spec fn apply_spec(t: TaskView, m: Mutation, now: int) -> TaskView {
    let changed = match m {
        Mutation::SetTag(tag) => if tag.sign == Sign::Plus {
            TaskView { tags: t.tags.insert(tag.name@), ..t }
        } else {
            TaskView { tags: t.tags.remove(tag.name@), ..t }
        },
        Mutation::SetProp(p) => match p {
            Prop::Description(d) => TaskView { description: Some(d@), ..t },
            Prop::Blocked(_) => t,
            Prop::Done(ts) => match t.recur {
                Some(r) => TaskView {
                    due: shift_opt(t.due, r.spec_offset()),
                    wait: shift_opt(t.wait, r.spec_offset()),
                    ..t
                },
                None => TaskView { done: Some(ts as int), ..t },
            },
            Prop::Due(d) => TaskView { due: opt_ts(d), ..t },
            Prop::Recur(r) => TaskView { recur: r, ..t },
            Prop::Snooze(d) => TaskView { snooze: opt_ts(d), ..t },
            Prop::Wait(d) => TaskView { wait: opt_ts(d), ..t },
        },
    };
    TaskView { updated_at: now, ..changed }
}

/// The task after a batch of mutations applied in order at the same time.
pub open spec fn apply_all(t: TaskView, ms: Seq<Mutation>, now: int) -> TaskView
    decreases ms.len(),
{
    if ms.len() == 0 {
        t
    } else {
        apply_spec(apply_all(t, ms.drop_last(), now), ms.last(), now)
    }
}

/// `t` moved forward by a non-negative `offset`, held at the largest timestamp.
fn shift_ts(t: Timestamp, offset: i64) -> (r: Timestamp)
    requires
        offset >= 0,
    ensures
        r == shifted(t as int, offset as int),
{
    if t > i64::MAX - offset {
        i64::MAX
    } else {
        t + offset
    }
}

/// Reference point of due-date scoring: the largest signed 32-bit value, read
/// as seconds since the epoch. An earlier due date scores higher.
pub const BASELINE: i64 = 2_147_483_647;

/// Seconds in three days: the horizon of "soon due".
pub const SOON_DUE_SECONDS: i64 = 259_200;

/// Score contribution of a due date. Due dates past the baseline contribute
/// nothing rather than underflowing.
pub open spec fn due_base(due: int) -> int {
    if due < BASELINE {
        BASELINE - due
    } else {
        0
    }
}

/// The priority of a task at `now`, before it is held to the `u64` range.
pub open spec fn raw_score(t: TaskView, now: int) -> int {
    if t.done is Some {
        0
    } else if t.wait matches Some(w) && w > now {
        0
    } else if t.snooze matches Some(s) && s > now {
        0
    } else {
        let base = match t.due {
            Some(d) => if t.tags.contains("timely"@) && d < now {
                2 * due_base(d)
            } else {
                due_base(d)
            },
            None => if now >= t.updated_at {
                now - t.updated_at
            } else {
                0
            },
        };
        if t.tags.contains("urgent"@) {
            2 * base
        } else {
            base
        }
    }
}

/// The priority of a task at `now`: `raw_score`, held at `u64::MAX`.
pub open spec fn score_of(t: TaskView, now: int) -> int {
    if raw_score(t, now) > u64::MAX {
        u64::MAX as int
    } else {
        raw_score(t, now)
    }
}

/// A task just created at `now` under identifier `id`: no tags, no optional
/// field set.
pub open spec fn new_task_view(now: int, id: Seq<char>) -> TaskView {
    TaskView {
        created_at: now,
        description: None,
        done: None,
        due: None,
        id,
        recur: None,
        snooze: None,
        updated_at: now,
        wait: None,
        tags: Set::empty(),
    }
}

impl Task {
    /// A new task: created and updated at `now`, with no tags and no optional
    /// field set.
    pub fn generate(now: Timestamp, id: Id) -> (r: Task)
        ensures
            r@ == new_task_view(now as int, id@),
    {
        let r = Task {
            created_at: now,
            description: None,
            done: None,
            due: None,
            id,
            recur: None,
            snooze: None,
            updated_at: now,
            wait: None,
            tags: Vec::new(),
        };
        assert(r@.tags =~= Set::empty());
        r
    }

    /// Adds a tag name; a name already present is left as it is.
    fn insert_tag(&mut self, name: &String)
        ensures
            final(self)@ == (TaskView { tags: old(self)@.tags.insert(name@), ..old(self)@ }),
    {
        if !self.has_tag(name) {
            let ghost before = self.tags@;
            self.tags.push(name.clone());
            assert(tag_names(self.tags@) =~= tag_names(before).insert(name@)) by {
                assert forall|n: Seq<char>| tag_names(before).insert(name@).contains(n) implies tag_names(self.tags@).contains(n) by {
                    if n == name@ {
                        assert(self.tags@[before.len() as int]@ == n);
                    } else {
                        let i = choose|i: int| 0 <= i < before.len() && #[trigger] before[i]@ == n;
                        assert(self.tags@[i]@ == n);
                    }
                }
                assert forall|n: Seq<char>| tag_names(self.tags@).contains(n) implies tag_names(before).insert(name@).contains(n) by {
                    let i = choose|i: int| 0 <= i < self.tags@.len() && #[trigger] self.tags@[i]@ == n;
                    if i < before.len() {
                        assert(before[i]@ == n);
                    }
                }
            }
        } else {
            assert(self@.tags.insert(name@) =~= self@.tags);
        }
    }

    /// Drops every tag of this name; an absent name changes nothing.
    fn remove_tag(&mut self, name: &String)
        ensures
            final(self)@ == (TaskView { tags: old(self)@.tags.remove(name@), ..old(self)@ }),
    {
        let mut kept: Vec<String> = Vec::new();
        let mut i: usize = 0;
        while i < self.tags.len()
            invariant
                i <= self.tags.len(),
                forall|n: Seq<char>| #[trigger] tag_names(kept@).contains(n) <==> (n != name@ && exists|j: int| 0 <= j < i && #[trigger] self.tags@[j]@ == n),
            decreases self.tags.len() - i,
        {
            let ghost prev = kept@;
            if self.tags[i] != *name {
                kept.push(self.tags[i].clone());
            }
            assert forall|n: Seq<char>| #[trigger] tag_names(kept@).contains(n) <==> (n != name@ && exists|j: int| 0 <= j < i + 1 && #[trigger] self.tags@[j]@ == n) by {
                if tag_names(kept@).contains(n) {
                    let k = choose|k: int| 0 <= k < kept@.len() && #[trigger] kept@[k]@ == n;
                    if k < prev.len() {
                        assert(prev[k]@ == n);
                        assert(tag_names(prev).contains(n));
                    }
                }
                if n != name@ && exists|j: int| 0 <= j < i + 1 && #[trigger] self.tags@[j]@ == n {
                    let j = choose|j: int| 0 <= j < i + 1 && #[trigger] self.tags@[j]@ == n;
                    if j < i {
                        assert(tag_names(prev).contains(n));
                        let k = choose|k: int| 0 <= k < prev.len() && #[trigger] prev[k]@ == n;
                        assert(kept@[k]@ == n);
                    } else {
                        assert(kept@[prev.len() as int]@ == n);
                    }
                }
            }
            i += 1;
        }
        self.tags = kept;
        assert(self@.tags =~= old(self)@.tags.remove(name@));
    }

    /// Applies one mutation at time `now`; `updated_at` becomes `now` whether
    /// or not anything else changed.
    pub fn apply_mutation(&mut self, mutation: &Mutation, now: Timestamp)
        ensures
            final(self)@ == apply_spec(old(self)@, *mutation, now as int),
    {
        match mutation {
            Mutation::SetTag(tag) => {
                match tag.sign {
                    Sign::Plus => self.insert_tag(&tag.name),
                    Sign::Minus => self.remove_tag(&tag.name),
                }
            },
            Mutation::SetProp(Prop::Description(description)) => {
                self.description = Some(description.clone());
            },
            Mutation::SetProp(Prop::Blocked(_)) => {},
            Mutation::SetProp(Prop::Done(done)) => {
                match self.recur {
                    Some(recur) => {
                        let dt = recur.offset_seconds();
                        if let Some(due) = self.due {
                            self.due = Some(shift_ts(due, dt));
                        }
                        if let Some(wait) = self.wait {
                            self.wait = Some(shift_ts(wait, dt));
                        }
                    },
                    None => {
                        self.done = Some(*done);
                    },
                }
            },
            Mutation::SetProp(Prop::Due(due)) => {
                self.due = *due;
            },
            Mutation::SetProp(Prop::Recur(recur)) => {
                self.recur = *recur;
            },
            Mutation::SetProp(Prop::Snooze(snooze)) => {
                self.snooze = *snooze;
            },
            Mutation::SetProp(Prop::Wait(wait)) => {
                self.wait = *wait;
            },
        }
        self.updated_at = now;
    }

    /// Applies a batch of mutations in order, all at time `now`.
    pub fn apply_mutations(&mut self, mutations: &[Mutation], now: Timestamp)
        ensures
            final(self)@ == apply_all(old(self)@, mutations@, now as int),
    {
        let mut i: usize = 0;
        while i < mutations.len()
            invariant
                i <= mutations.len(),
                self@ == apply_all(old(self)@, mutations@.subrange(0, i as int), now as int),
            decreases mutations.len() - i,
        {
            assert(mutations@.subrange(0, i + 1).drop_last() =~= mutations@.subrange(0, i as int));
            self.apply_mutation(&mutations[i], now);
            i += 1;
        }
        assert(mutations@.subrange(0, mutations@.len() as int) =~= mutations@);
    }


    /// The task's priority at `now`: zero when done, waiting or snoozed;
    /// otherwise the due-date contribution (doubled for an overdue task tagged
    /// "timely"; zero for a due date past `BASELINE`), or without a due date
    /// the seconds since the last update (zero when `updated_at` is after
    /// `now`); the whole doubled for a task tagged "urgent". Held at
    /// `u64::MAX`.
    pub fn get_score(&self, now: Timestamp) -> (r: u64)
        ensures
            r == score_of(self@, now as int),
    {
        if self.done.is_some() {
            return 0;
        }
        if let Some(wait) = self.wait {
            if wait > now {
                return 0;
            }
        }
        if let Some(snooze) = self.snooze {
            if snooze > now {
                return 0;
            }
        }
        let timely = String::from_str("timely");
        let urgent = String::from_str("urgent");
        let mut score: i128 = match self.due {
            Some(due) => {
                let base: i128 = if due < BASELINE {
                    BASELINE as i128 - due as i128
                } else {
                    0
                };
                if self.has_tag(&timely) && due < now {
                    2 * base
                } else {
                    base
                }
            },
            None => {
                if now >= self.updated_at {
                    now as i128 - self.updated_at as i128
                } else {
                    0
                }
            },
        };
        if self.has_tag(&urgent) {
            score = score + score;
        }
        if score > u64::MAX as i128 {
            u64::MAX
        } else {
            score as u64
        }
    }

    /// Consumes the task into its pairing with its score at `now`.
    pub fn finalise(self, now: Timestamp) -> (r: FinalisedTask)
        ensures
            r.spec_task() == self,
            r.spec_score() == score_of(self@, now as int),
    {
        let score = self.get_score(now);
        FinalisedTask { task: self, score }
    }

    /// Whether the task has a due date strictly before `now`.
    pub fn is_overdue(&self, now: Timestamp) -> (r: bool)
        ensures
            r == (self.due matches Some(d) && d < now),
    {
        match self.due {
            Some(due) => due < now,
            None => false,
        }
    }

    /// Whether the task has a due date before three days from `now`.
    pub fn is_soon_due(&self, now: Timestamp) -> (r: bool)
        ensures
            r == (self.due matches Some(d) && d < now + SOON_DUE_SECONDS),
    {
        match self.due {
            Some(due) => (due as i128) < now as i128 + SOON_DUE_SECONDS as i128,
            None => false,
        }
    }

    /// The task's `created_at` field.
    pub fn get_created_at(&self) -> (r: &Timestamp)
        ensures
            *r == self.created_at,
    {
        &self.created_at
    }

    /// The task's `description` field.
    pub fn get_description(&self) -> (r: &Option<String>)
        ensures
            *r == self.description,
    {
        &self.description
    }

    /// The task's `done` field.
    pub fn get_done(&self) -> (r: &Option<Timestamp>)
        ensures
            *r == self.done,
    {
        &self.done
    }

    /// The task's `due` field.
    pub fn get_due(&self) -> (r: &Option<Timestamp>)
        ensures
            *r == self.due,
    {
        &self.due
    }

    /// The task's `id` field.
    pub fn get_id(&self) -> (r: &Id)
        ensures
            *r == self.id,
    {
        &self.id
    }

    /// The task's `recur` field.
    pub fn get_recur(&self) -> (r: &Option<Recur>)
        ensures
            *r == self.recur,
    {
        &self.recur
    }

    /// The task's `snooze` field.
    pub fn get_snooze(&self) -> (r: &Option<Timestamp>)
        ensures
            *r == self.snooze,
    {
        &self.snooze
    }

    /// The task's `tags` field.
    pub fn get_tags(&self) -> (r: &Vec<String>)
        ensures
            *r == self.tags,
    {
        &self.tags
    }

    /// The task's `updated_at` field.
    pub fn get_updated_at(&self) -> (r: &Timestamp)
        ensures
            *r == self.updated_at,
    {
        &self.updated_at
    }

    /// The task's `wait` field.
    pub fn get_wait(&self) -> (r: &Option<Timestamp>)
        ensures
            *r == self.wait,
    {
        &self.wait
    }

    /// Whether the task carries a tag of this name.
    pub fn has_tag(&self, name: &String) -> (r: bool)
        ensures
            r == self@.tags.contains(name@),
    {
        let mut i: usize = 0;
        while i < self.tags.len()
            invariant
                i <= self.tags.len(),
                forall|j: int| 0 <= j < i ==> self.tags@[j]@ != name@,
            decreases self.tags.len() - i,
        {
            if self.tags[i] == *name {
                assert(tag_names(self.tags@).contains(name@)) by {
                    assert(self.tags@[i as int]@ == name@);
                }
                return true;
            }
            i += 1;
        }
        false
    }

    /// Whether the task is selected by `queries`, scanned in order: an empty
    /// list selects nothing; a matching id or a present plus tag selects at
    /// once; a present minus tag rejects at once; otherwise the task is
    /// selected only if some minus tag was satisfied by absence.
    pub fn satisfies_queries(&self, queries: &[Query]) -> (r: bool)
        ensures
            r == satisfies(self@, queries@),
    {
        if queries.len() == 0 {
            return false;
        }
        let mut default = false;
        let mut i: usize = 0;
        assert(queries@.subrange(0, queries@.len() as int) =~= queries@);
        while i < queries.len()
            invariant
                i <= queries.len(),
                queries@.len() > 0,
                scan_queries(self@, queries@, false) == scan_queries(
                    self@,
                    queries@.subrange(i as int, queries@.len() as int),
                    default,
                ),
            decreases queries.len() - i,
        {
            let ghost rest = queries@.subrange(i as int, queries@.len() as int);
            assert(rest.drop_first() =~= queries@.subrange(i + 1, queries@.len() as int));
            assert(rest[0] == queries@[i as int]);
            match &queries[i] {
                Query::Id(id) => {
                    if id.matches(&self.id) {
                        return true;
                    }
                },
                Query::Tag(tag) => {
                    match tag.sign {
                        Sign::Plus => {
                            if self.has_tag(&tag.name) {
                                return true;
                            }
                        },
                        Sign::Minus => {
                            if self.has_tag(&tag.name) {
                                return false;
                            }
                            default = true;
                        },
                    }
                },
            }
            i += 1;
        }
        default
    }
}

/// A task paired with its score. Finalised tasks order by descending score
/// and compare equal when their scores are equal, whatever their tasks: the
/// order ranks, it does not identify.
#[derive(Debug)]
pub struct FinalisedTask {
    task: Task,
    score: u64,
}

impl FinalisedTask {
    pub closed spec fn spec_task(&self) -> Task {
        self.task
    }

    pub closed spec fn spec_score(&self) -> u64 {
        self.score
    }

    /// The task that was scored.
    pub fn get_task(&self) -> (r: &Task)
        ensures
            *r == self.spec_task(),
    {
        &self.task
    }

    /// The score computed when the task was finalised.
    pub fn get_score(&self) -> (r: &u64)
        ensures
            *r == self.spec_score(),
    {
        &self.score
    }
}

/// Descending order of scores: `Less` when `a` scores higher than `b`.
pub open spec fn rank_order(a: u64, b: u64) -> Ordering {
    if a > b {
        Ordering::Less
    } else if a == b {
        Ordering::Equal
    } else {
        Ordering::Greater
    }
}

impl PartialEq for FinalisedTask {
    fn eq(&self, other: &FinalisedTask) -> (r: bool) {
        self.score == other.score
    }
}

impl vstd::std_specs::cmp::PartialEqSpecImpl for FinalisedTask {
    open spec fn obeys_eq_spec() -> bool {
        true
    }

    open spec fn eq_spec(&self, other: &FinalisedTask) -> bool {
        self.spec_score() == other.spec_score()
    }
}

impl PartialOrd for FinalisedTask {
    fn partial_cmp(&self, other: &FinalisedTask) -> (r: Option<Ordering>) {
        if self.score > other.score {
            Some(Ordering::Less)
        } else if self.score == other.score {
            Some(Ordering::Equal)
        } else {
            Some(Ordering::Greater)
        }
    }
}

impl vstd::std_specs::cmp::PartialOrdSpecImpl for FinalisedTask {
    open spec fn obeys_partial_cmp_spec() -> bool {
        true
    }

    open spec fn partial_cmp_spec(&self, other: &FinalisedTask) -> Option<Ordering> {
        Some(rank_order(self.spec_score(), other.spec_score()))
    }
}

/// An empty query list selects no task.
pub proof fn lemma_empty_queries_select_nothing(t: TaskView)
    ensures
        !satisfies(t, Seq::<Query>::empty()),
{
}

/// A lone plus-tag query selects exactly the tasks that carry the tag.
pub proof fn lemma_lone_plus_tag(t: TaskView, q: Query)
    requires
        q matches Query::Tag(tag) && tag.sign == Sign::Plus,
    ensures
        q matches Query::Tag(tag) && satisfies(t, seq![q]) == t.tags.contains(tag.name@),
{
    reveal_with_fuel(scan_queries, 2);
    assert(seq![q].drop_first() =~= Seq::<Query>::empty());
}

/// A lone minus-tag query selects exactly the tasks that lack the tag.
pub proof fn lemma_lone_minus_tag(t: TaskView, q: Query)
    requires
        q matches Query::Tag(tag) && tag.sign == Sign::Minus,
    ensures
        q matches Query::Tag(tag) && satisfies(t, seq![q]) == !t.tags.contains(tag.name@),
{
    reveal_with_fuel(scan_queries, 2);
    assert(seq![q].drop_first() =~= Seq::<Query>::empty());
}

/// Marking a task with a recurrence rule done leaves `done` as it was and
/// moves the due and wait times, where set, forward by exactly the rule's
/// interval (when that stays within the timestamp range); without a rule,
/// `done` becomes the given time.
pub proof fn lemma_done_with_recurrence(t: TaskView, ts: Timestamp, now: int)
    requires
        t.recur matches Some(r) ==> (t.due matches Some(d) ==> d + r.spec_offset() <= i64::MAX)
            && (t.wait matches Some(w) ==> w + r.spec_offset() <= i64::MAX),
    ensures
        ({
            let after = apply_spec(t, Mutation::SetProp(Prop::Done(ts)), now);
            match t.recur {
                Some(r) => {
                    &&& after.done == t.done
                    &&& after.due == (match t.due {
                        Some(d) => Some(d + r.spec_offset()),
                        None => None,
                    })
                    &&& after.wait == (match t.wait {
                        Some(w) => Some(w + r.spec_offset()),
                        None => None,
                    })
                },
                None => after.done == Some(ts as int),
            }
        }),
{
}

/// A task that is done, still waiting or snoozed scores zero.
pub proof fn lemma_inactive_scores_zero(t: TaskView, now: int)
    requires
        t.done is Some || (t.wait matches Some(w) && w > now) || (t.snooze matches Some(s) && s
            > now),
    ensures
        score_of(t, now) == 0,
{
}

/// Of two tasks that differ only in their due dates, the one due earlier
/// scores at least as high.
pub proof fn lemma_earlier_due_scores_higher(t: TaskView, d1: int, d2: int, now: int)
    requires
        d1 <= d2,
    ensures
        score_of(TaskView { due: Some(d1), ..t }, now) >= score_of(
            TaskView { due: Some(d2), ..t },
            now,
        ),
{
}

/// Tagging an overdue task "timely" doubles its unclamped score.
pub proof fn lemma_timely_doubles_overdue(t: TaskView, now: int)
    requires
        t.due matches Some(d) && d < now,
        !t.tags.contains("timely"@),
    ensures
        raw_score(TaskView { tags: t.tags.insert("timely"@), ..t }, now) == 2 * raw_score(t, now),
{
    reveal_strlit("timely");
    reveal_strlit("urgent");
    let tagged = TaskView { tags: t.tags.insert("timely"@), ..t };
    assert("timely"@ != "urgent"@) by {
        assert("timely"@[0] != "urgent"@[0]);
    }
    assert(tagged.tags.contains("urgent"@) == t.tags.contains("urgent"@));
}

/// A finalised task with the higher score sorts first.
pub proof fn lemma_higher_score_sorts_first(a: FinalisedTask, b: FinalisedTask)
    requires
        a.spec_score() > b.spec_score(),
    ensures
        a.partial_cmp_spec(&b) == Some(Ordering::Less),
        b.partial_cmp_spec(&a) == Some(Ordering::Greater),
{
}

} // verus!
