//! The event runner and the worker's report: which bus events resume a
//! deferred run, and what becomes of a run's engine once it has been
//! driven.
use vstd::prelude::*;
use crate::error::{found, AppError};
use crate::event::{EngineEvent, ExecutionSignal};

verus! {

/// The run whose engine the runner looks up for `event`: the run of a
/// finished task; no run for any other event.
pub fn runner_run(event: &EngineEvent) -> (r: Option<String>)
    ensures
        match *event {
            EngineEvent::TaskFinished { run_id, .. } => r == Some(run_id),
            _ => r is None,
        },
{
    match event {
        EngineEvent::TaskFinished { run_id, .. } => Some(run_id.clone()),
        _ => None,
    }
}

/// What the runner does for one bus event.
#[derive(Debug)]
pub enum RunnerAction {
    /// Nothing: no signal is sent and the engine table stays as it is.
    Ignore,
    /// Send `signal` to the engine of `run_id` and drive that engine.
    Resume { run_id: String, signal: ExecutionSignal },
}

/// The runner's decision for `event`, where `has_engine` tells whether
/// the run that [`runner_run`] names for it has a live engine: a finished
/// task of such a run resumes it with one `TaskCompleted` signal carrying
/// the task's step and output; every other event, and a finished task of
/// a run without an engine, is ignored.
pub fn runner_step(event: EngineEvent, has_engine: bool) -> (r: RunnerAction)
    ensures
        match event {
            EngineEvent::TaskFinished { run_id, state_name, output } => if has_engine {
                r == RunnerAction::Resume {
                    run_id,
                    signal: ExecutionSignal::TaskCompleted { run_id, state_name, output },
                }
            } else {
                r == RunnerAction::Ignore
            },
            _ => r == RunnerAction::Ignore,
        },
{
    match event {
        EngineEvent::TaskFinished { run_id, state_name, output } => {
            if has_engine {
                let signal = ExecutionSignal::TaskCompleted { run_id: run_id.clone(), state_name, output };
                RunnerAction::Resume { run_id, signal }
            } else {
                RunnerAction::Ignore
            }
        },
        _ => RunnerAction::Ignore,
    }
}

/// How driving a run's engine with a signal went: the signal was not
/// taken, handling it failed, advancing the run failed, or the run
/// advanced until it blocked, finished or not.
#[derive(Debug, Clone, Copy)]
pub enum DriveOutcome {
    SignalRefused,
    HandleFailed,
    AdvanceFailed,
    Advanced { finished: bool },
}

/// Whether a driven engine leaves the engine table: only when every step
/// of driving it succeeded and its run has finished; otherwise it stays.
pub fn retire_engine(outcome: DriveOutcome) -> (r: bool)
    ensures
        r <==> outcome == (DriveOutcome::Advanced { finished: true }),
{
    match outcome {
        DriveOutcome::Advanced { finished } => finished,
        _ => false,
    }
}

/// The engines of an entry list by run id; a later entry for a run takes
/// the place of an earlier one.
pub open spec fn entries_map<E>(s: Seq<(String, E)>) -> Map<Seq<char>, E>
    decreases s.len(),
{
    if s.len() == 0 {
        Map::empty()
    } else {
        entries_map(s.drop_last()).insert(s.last().0@, s.last().1)
    }
}

/// No run has two entries.
pub open spec fn distinct_runs<E>(s: Seq<(String, E)>) -> bool {
    forall|i: int, j: int| 0 <= i < j < s.len() ==> #[trigger] s[i].0@ != #[trigger] s[j].0@
}

proof fn lemma_entries_map_dom<E>(s: Seq<(String, E)>, k: Seq<char>)
    ensures
        entries_map(s).contains_key(k) <==> exists|i: int| 0 <= i < s.len() && #[trigger] s[i].0@ == k,
    decreases s.len(),
{
    if s.len() > 0 {
        lemma_entries_map_dom(s.drop_last(), k);
        if entries_map(s).contains_key(k) && s.last().0@ != k {
            let i = choose|i: int| 0 <= i < s.drop_last().len() && #[trigger] s.drop_last()[i].0@ == k;
            assert(s[i].0@ == k);
        }
        if exists|i: int| 0 <= i < s.len() && #[trigger] s[i].0@ == k {
            let i = choose|i: int| 0 <= i < s.len() && #[trigger] s[i].0@ == k;
            if i < s.len() - 1 {
                assert(s.drop_last()[i].0@ == k);
            }
        }
    }
}

proof fn lemma_entries_map_value<E>(s: Seq<(String, E)>, i: int)
    requires
        distinct_runs(s),
        0 <= i < s.len(),
    ensures
        entries_map(s).contains_key(s[i].0@),
        entries_map(s)[s[i].0@] == s[i].1,
    decreases s.len(),
{
    if i < s.len() - 1 {
        assert(distinct_runs(s.drop_last()));
        lemma_entries_map_value(s.drop_last(), i);
        assert(s.drop_last()[i] == s[i]);
        assert(s[i].0@ != s[s.len() - 1].0@);
    }
}

proof fn lemma_entries_map_remove<E>(s: Seq<(String, E)>, i: int)
    requires
        distinct_runs(s),
        0 <= i < s.len(),
    ensures
        distinct_runs(s.remove(i)),
        entries_map(s.remove(i)) == entries_map(s).remove(s[i].0@),
{
    let t = s.remove(i);
    s.remove_ensures(i);
    assert forall|a: int, b: int| 0 <= a < b < t.len() implies #[trigger] t[a].0@ != #[trigger] t[b].0@ by {
        let a0 = if a < i { a } else { a + 1 };
        let b0 = if b < i { b } else { b + 1 };
        assert(t[a] == s[a0] && t[b] == s[b0]);
    }
    let k = s[i].0@;
    assert forall|key: Seq<char>| #[trigger] entries_map(t).contains_key(key) <==> entries_map(s).remove(k).contains_key(key) by {
        lemma_entries_map_dom(t, key);
        lemma_entries_map_dom(s, key);
        if entries_map(t).contains_key(key) {
            let j = choose|j: int| 0 <= j < t.len() && #[trigger] t[j].0@ == key;
            let j0 = if j < i { j } else { j + 1 };
            assert(s[j0].0@ == key);
            assert(key != k);
        }
        if entries_map(s).remove(k).contains_key(key) {
            let j = choose|j: int| 0 <= j < s.len() && #[trigger] s[j].0@ == key;
            assert(j != i);
            let j1 = if j < i { j } else { j - 1 };
            assert(t[j1].0@ == key);
        }
    }
    assert forall|key: Seq<char>| #[trigger] entries_map(t).contains_key(key) implies entries_map(t)[key] == entries_map(s)[key] by {
        lemma_entries_map_dom(t, key);
        let j = choose|j: int| 0 <= j < t.len() && #[trigger] t[j].0@ == key;
        let j0 = if j < i { j } else { j + 1 };
        assert(t[j] == s[j0]);
        lemma_entries_map_value(t, j);
        lemma_entries_map_value(s, j0);
    }
    assert(entries_map(t) =~= entries_map(s).remove(k));
}

/// The live engines of deferred runs, by run id.
pub struct EngineTable<E> {
    entries: Vec<(String, E)>,
}

impl<E> View for EngineTable<E> {
    type V = Map<Seq<char>, E>;

    closed spec fn view(&self) -> Map<Seq<char>, E> {
        entries_map(self.entries@)
    }
}

impl<E> EngineTable<E> {
    /// Every run has at most one entry.
    pub closed spec fn wf(&self) -> bool {
        distinct_runs(self.entries@)
    }

    /// A table without engines.
    pub fn new() -> (r: Self)
        ensures
            r.wf(),
            r@ == Map::<Seq<char>, E>::empty(),
    {
        EngineTable { entries: Vec::new() }
    }

    fn position(&self, run: &String) -> (r: Option<usize>)
        requires
            self.wf(),
        ensures
            match r {
                Some(i) => i < self.entries@.len() && self.entries@[i as int].0@ == run@,
                None => !self@.contains_key(run@),
            },
    {
        let mut i: usize = 0;
        while i < self.entries.len()
            invariant
                i <= self.entries@.len(),
                forall|j: int| 0 <= j < i ==> #[trigger] self.entries@[j].0@ != run@,
            decreases self.entries@.len() - i,
        {
            if self.entries[i].0.eq(run) {
                return Some(i);
            }
            i = i + 1;
        }
        proof {
            lemma_entries_map_dom(self.entries@, run@);
        }
        None
    }

    /// Whether `run` has a live engine.
    pub fn contains(&self, run: &String) -> (r: bool)
        requires
            self.wf(),
        ensures
            r == self@.contains_key(run@),
    {
        match self.position(run) {
            Some(i) => {
                proof {
                    lemma_entries_map_value(self.entries@, i as int);
                }
                true
            },
            None => false,
        }
    }

    /// Takes the engine of `run` out of the table, if it has one; the
    /// table is left without it. Without one, nothing changes.
    pub fn take(&mut self, run: &String) -> (r: Option<E>)
        requires
            old(self).wf(),
        ensures
            final(self).wf(),
            match r {
                Some(e) => old(self)@.contains_key(run@) && e == old(self)@[run@] && final(self)@ == old(self)@.remove(
                    run@,
                ),
                None => !old(self)@.contains_key(run@) && final(self)@ == old(self)@,
            },
    {
        match self.position(run) {
            Some(i) => {
                proof {
                    lemma_entries_map_value(self.entries@, i as int);
                    lemma_entries_map_remove(self.entries@, i as int);
                }
                let (_, e) = self.entries.remove(i);
                Some(e)
            },
            None => None,
        }
    }

    /// Gives `run` the engine `engine`, in place of any it had.
    pub fn insert(&mut self, run: String, engine: E)
        requires
            old(self).wf(),
        ensures
            final(self).wf(),
            final(self)@ == old(self)@.insert(run@, engine),
    {
        let _ = self.take(&run);
        let ghost before = self.entries@;
        self.entries.push((run, engine));
        proof {
            assert(self.entries@.drop_last() == before);
            assert forall|i: int, j: int| 0 <= i < j < self.entries@.len() implies #[trigger] self.entries@[i].0@
                != #[trigger] self.entries@[j].0@ by {
                if j == self.entries@.len() - 1 {
                    lemma_entries_map_dom(before, self.entries@[j].0@);
                    assert(before[i] == self.entries@[i]);
                } else {
                    assert(before[i] == self.entries@[i] && before[j] == self.entries@[j]);
                }
            }
            assert(entries_map(self.entries@) =~= entries_map(before).insert(run@, engine));
        }
    }
}

/// What the runner does for `event` on the engine table: for a finished
/// task of a run with a live engine, that engine is taken out of the
/// table and returned with its run and the one `TaskCompleted` signal to
/// drive it with; for every other event, and for a finished task of a
/// run without an engine, nothing is returned and the table is left as
/// it was.
pub fn runner_take<E>(table: &mut EngineTable<E>, event: EngineEvent) -> (r: Option<(String, ExecutionSignal, E)>)
    requires
        old(table).wf(),
    ensures
        final(table).wf(),
        match event {
            EngineEvent::TaskFinished { run_id, state_name, output } => if old(table)@.contains_key(run_id@) {
                &&& r == Some(
                    (run_id, ExecutionSignal::TaskCompleted { run_id, state_name, output }, old(table)@[run_id@]),
                )
                &&& final(table)@ == old(table)@.remove(run_id@)
            } else {
                r is None && final(table)@ == old(table)@
            },
            _ => r is None && final(table)@ == old(table)@,
        },
{
    match runner_run(&event) {
        None => None,
        Some(run) => {
            let has_engine = table.contains(&run);
            match runner_step(event, has_engine) {
                RunnerAction::Ignore => None,
                RunnerAction::Resume { run_id, signal } => {
                    match table.take(&run_id) {
                        Some(engine) => Some((run_id, signal, engine)),
                        None => None,
                    }
                },
            }
        },
    }
}

/// The engine that a worker's report for `run` drives, taken out of the
/// table; `NotFound` if the run has no live engine, the table then left
/// as it was.
pub fn report_take<E>(table: &mut EngineTable<E>, run: &String) -> (r: Result<E, AppError>)
    requires
        old(table).wf(),
    ensures
        final(table).wf(),
        old(table)@.contains_key(run@) ==> (r == Ok::<E, AppError>(old(table)@[run@]) && final(table)@ == old(
            table,
        )@.remove(run@)),
        !old(table)@.contains_key(run@) ==> (r matches Err(AppError::NotFound) && final(table)@ == old(table)@),
{
    found(table.take(run))
}

/// Puts a driven engine back in the table, unless it retires: it retires
/// only when every step of driving it succeeded and its run finished.
pub fn settle_engine<E>(table: &mut EngineTable<E>, run: String, engine: E, outcome: DriveOutcome)
    requires
        old(table).wf(),
    ensures
        final(table).wf(),
        final(table)@ == if outcome == (DriveOutcome::Advanced { finished: true }) {
            old(table)@
        } else {
            old(table)@.insert(run@, engine)
        },
{
    if !retire_engine(outcome) {
        table.insert(run, engine);
    }
}

/// A finished task resumes its run exactly once: taken out of the table
/// by [`runner_take`] with its one signal and driven, the run's engine is
/// back in the table afterwards, as driven, unless it retired (every
/// step succeeded and the run finished), and the engines of all other
/// runs are the ones that were there before.
pub proof fn lemma_resumed_run_settles<E>(
    before: Map<Seq<char>, E>,
    run: Seq<char>,
    driven: E,
    outcome: DriveOutcome,
    after: Map<Seq<char>, E>,
)
    requires
        before.contains_key(run),
        after == (if outcome == (DriveOutcome::Advanced { finished: true }) {
            before.remove(run)
        } else {
            before.remove(run).insert(run, driven)
        }),
    ensures
        after.contains_key(run) <==> outcome != (DriveOutcome::Advanced { finished: true }),
        after.contains_key(run) ==> after[run] == driven,
        forall|other: Seq<char>|
            other != run ==> (#[trigger] after.contains_key(other) <==> before.contains_key(other)) && (
            after.contains_key(other) ==> after[other] == before[other]),
{
}

} // verus!
