//! Queries, mutations and the dispatcher that runs one verb over a task list.

use crate::id::Id;
use crate::prop::{Prop, Timestamp};
use crate::tag::Tag;
use crate::task::{apply_all, new_task_view, satisfies, Task};
use vstd::prelude::*;

verus! {

/// An edit instruction for a task.
#[derive(Debug, Clone)]
pub enum Mutation {
    SetProp(Prop),
    SetTag(Tag),
}

/// A filter criterion over tasks.
#[derive(Debug, Clone)]
pub enum Query {
    Id(Id),
    Tag(Tag),
}

/// One verb of the engine with its arguments.
#[derive(Debug)]
pub enum CortexEngine {
    Create(Vec<Mutation>),
    Read(Vec<Query>),
    Update(Vec<Query>, Vec<Mutation>),
    Delete(Vec<Query>),
}

/// Every stored record was loaded.
pub open spec fn all_loaded<E>(inputs: Seq<Result<Task, E>>) -> bool {
    forall|i: int| 0 <= i < inputs.len() ==> #[trigger] inputs[i] is Ok
}

/// The tasks of a list of records that all loaded.
pub open spec fn loaded<E>(inputs: Seq<Result<Task, E>>) -> Seq<Task> {
    inputs.map_values(|r: Result<Task, E>| r->Ok_0)
}

/// `e` is the failure of the first record that did not load.
pub open spec fn is_first_error<E>(inputs: Seq<Result<Task, E>>, e: E) -> bool {
    exists|k: int|
        0 <= k < inputs.len() && #[trigger] inputs[k] == Err::<Task, E>(e) && forall|j: int|
            0 <= j < k ==> #[trigger] inputs[j] is Ok
}

/// The tasks selected by `queries`, in the order they were given.
pub open spec fn selected(tasks: Seq<Task>, queries: Seq<Query>) -> Seq<Task>
    decreases tasks.len(),
{
    if tasks.len() == 0 {
        Seq::empty()
    } else {
        let rest = selected(tasks.drop_last(), queries);
        if satisfies(tasks.last()@, queries) {
            rest.push(tasks.last())
        } else {
            rest
        }
    }
}

/// Outcome of loading and filtering: the first load failure, or else the
/// selected tasks.
pub open spec fn read_outcome<E>(
    inputs: Seq<Result<Task, E>>,
    queries: Seq<Query>,
    r: Result<Vec<Task>, E>,
) -> bool {
    match r {
        Ok(v) => all_loaded(inputs) && v@ == selected(loaded(inputs), queries),
        Err(e) => !all_loaded(inputs) && is_first_error(inputs, e),
    }
}

/// Outcome of an update: the first load failure, or else each selected task,
/// in order, after the batch of mutations at `now`.
pub open spec fn update_outcome<E>(
    inputs: Seq<Result<Task, E>>,
    queries: Seq<Query>,
    mutations: Seq<Mutation>,
    now: int,
    r: Result<Vec<Task>, E>,
) -> bool {
    match r {
        Ok(v) => {
            let sel = selected(loaded(inputs), queries);
            &&& all_loaded(inputs)
            &&& v.len() == sel.len()
            &&& forall|i: int| 0 <= i < v.len() ==> #[trigger] v@[i]@ == apply_all(sel[i]@, mutations, now)
        },
        Err(e) => !all_loaded(inputs) && is_first_error(inputs, e),
    }
}

/// The loaded tasks, or the failure of the first record that did not load.
fn load_all<E>(inputs: Vec<Result<Task, E>>) -> (r: Result<Vec<Task>, E>)
    ensures
        match r {
            Ok(v) => all_loaded(inputs@) && v@ == loaded(inputs@),
            Err(e) => !all_loaded(inputs@) && is_first_error(inputs@, e),
        },
{
    broadcast use vstd::std_specs::vec::axiom_spec_into_iter;
    let ghost orig = inputs@;
    let mut tasks: Vec<Task> = Vec::new();
    for item in it: inputs.into_iter()
        invariant
            it.seq() == orig,
            0 <= it.index() <= orig.len(),
            forall|j: int| 0 <= j < it.index() ==> #[trigger] orig[j] is Ok,
            tasks@ == loaded(orig.subrange(0, it.index())),
    {
        assert(item == orig[it.index()]);
        match item {
            Ok(t) => {
                tasks.push(t);
                assert(loaded(orig.subrange(0, it.index() + 1)) =~= loaded(
                    orig.subrange(0, it.index()),
                ).push(t));
            },
            Err(e) => {
                assert(is_first_error(orig, e));
                return Err(e);
            },
        }
    }
    assert(orig.subrange(0, orig.len() as int) =~= orig);
    Ok(tasks)
}

/// The tasks selected by `queries`, in order.
fn select(tasks: Vec<Task>, queries: &[Query]) -> (r: Vec<Task>)
    ensures
        r@ == selected(tasks@, queries@),
{
    broadcast use vstd::std_specs::vec::axiom_spec_into_iter;
    let ghost orig = tasks@;
    let mut kept: Vec<Task> = Vec::new();
    for t in it: tasks.into_iter()
        invariant
            it.seq() == orig,
            0 <= it.index() <= orig.len(),
            kept@ == selected(orig.subrange(0, it.index()), queries@),
    {
        assert(t == orig[it.index()]);
        assert(orig.subrange(0, it.index() + 1).drop_last() =~= orig.subrange(0, it.index()));
        if t.satisfies_queries(queries) {
            kept.push(t);
        }
    }
    assert(orig.subrange(0, orig.len() as int) =~= orig);
    kept
}

/// Each task after the batch of mutations at `now`, in order.
fn update_each(tasks: Vec<Task>, mutations: &[Mutation], now: Timestamp) -> (r: Vec<Task>)
    ensures
        r.len() == tasks.len(),
        forall|i: int| 0 <= i < r.len() ==> #[trigger] r@[i]@ == apply_all(tasks@[i]@, mutations@, now as int),
{
    broadcast use vstd::std_specs::vec::axiom_spec_into_iter;
    let ghost orig = tasks@;
    let mut updated: Vec<Task> = Vec::new();
    for t in it: tasks.into_iter()
        invariant
            it.seq() == orig,
            0 <= it.index() <= orig.len(),
            updated.len() == it.index(),
            forall|i: int| 0 <= i < updated.len() ==> #[trigger] updated@[i]@ == apply_all(orig[i]@, mutations@, now as int),
    {
        assert(t == orig[it.index()]);
        let mut t = t;
        t.apply_mutations(mutations, now);
        updated.push(t);
    }
    updated
}

impl CortexEngine {
    /// Runs the verb once.
    ///
    /// - `Create`: ignores the stored records and returns the one task made
    ///   at `now` under `new_id`, with the mutations applied; the caller
    ///   persists it.
    /// - `Read`: the stored tasks selected by the queries, in order.
    /// - `Update`: the selected tasks with the mutations applied at `now`;
    ///   the caller persists each one and reports a failed write for that
    ///   task alone.
    /// - `Delete`: the selected tasks, which the caller removes from storage.
    ///
    /// All but `Create` fail at the first stored record that did not load,
    /// with its error: a malformed record is never skipped.
    pub fn run<E>(self, input_tasks: Vec<Result<Task, E>>, now: Timestamp, new_id: Id) -> (r:
        Result<Vec<Task>, E>)
        ensures
            match self {
                CortexEngine::Create(mutations) => r matches Ok(v) && v.len() == 1 && v@[0]@
                    == apply_all(new_task_view(now as int, new_id@), mutations@, now as int),
                CortexEngine::Read(queries) => read_outcome(input_tasks@, queries@, r),
                CortexEngine::Update(queries, mutations) => update_outcome(
                    input_tasks@,
                    queries@,
                    mutations@,
                    now as int,
                    r,
                ),
                CortexEngine::Delete(queries) => read_outcome(input_tasks@, queries@, r),
            },
    {
        match self {
            CortexEngine::Create(mutations) => {
                let mut new_task = Task::generate(now, new_id);
                new_task.apply_mutations(mutations.as_slice(), now);
                let mut created: Vec<Task> = Vec::new();
                created.push(new_task);
                Ok(created)
            },
            CortexEngine::Read(queries) => match load_all(input_tasks) {
                Ok(tasks) => Ok(select(tasks, queries.as_slice())),
                Err(e) => Err(e),
            },
            CortexEngine::Update(queries, mutations) => match load_all(input_tasks) {
                Ok(tasks) => {
                    let chosen = select(tasks, queries.as_slice());
                    Ok(update_each(chosen, mutations.as_slice(), now))
                },
                Err(e) => Err(e),
            },
            CortexEngine::Delete(queries) => match load_all(input_tasks) {
                Ok(tasks) => Ok(select(tasks, queries.as_slice())),
                Err(e) => Err(e),
            },
        }
    }
}

} // verus!
