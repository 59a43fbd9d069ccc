//! In-memory storage of execution results, keyed by execution id, and the
//! cost breakdown derived from a stored result.

use vstd::prelude::*;
use vstd::string::StringExecFns;
use crate::execution_tools::value::{
    CostBreakdown, ExecutionId, ExecutionResult, ExecutionResultV, StepCost, StepResult,
    StepResultV,
};

verus! {

/// The first stored result with the given id.
pub open spec fn stored(es: Seq<ExecutionResultV>, id: u128) -> Option<ExecutionResultV>
    decreases es.len(),
{
    if es.len() == 0 {
        None
    } else if es[0].execution_id == id {
        Some(es[0])
    } else {
        stored(es.skip(1), id)
    }
}

/// No two stored results share an id.
pub open spec fn distinct_ids(es: Seq<ExecutionResultV>) -> bool {
    forall|i: int, j: int|
        0 <= i < j < es.len() ==> #[trigger] es[i].execution_id != #[trigger] es[j].execution_id
}

/// The number of successful steps.
pub open spec fn success_count(steps: Seq<StepResultV>) -> nat
    decreases steps.len(),
{
    if steps.len() == 0 {
        0
    } else {
        success_count(steps.drop_last()) + if steps.last().success { 1nat } else { 0nat }
    }
}

/// The cost entry of one step: one tool call where the step succeeded, no
/// tokens and no monetary cost.
pub open spec fn step_cost_of(c: StepCost, s: StepResultV) -> bool {
    &&& c.step_name@ == s.step_name
    &&& c.tokens == 0
    &&& c.tool_calls == (if s.success { 1u64 } else { 0u64 })
    &&& c.cost_micro is None
}

/// The cost breakdown of a stored result: per-step costs, the result's token
/// count (0 where unknown), and as tool calls the larger of the successful
/// steps and all steps.
pub open spec fn cost_of(e: ExecutionResultV, c: CostBreakdown) -> bool {
    &&& c.spec_execution_id() == e.execution_id
    &&& c.spec_step_costs().len() == e.steps.len()
    &&& forall|i: int|
        0 <= i < e.steps.len() ==> step_cost_of(#[trigger] c.spec_step_costs()[i], e.steps[i])
    &&& c.spec_total_tokens() == (match e.tokens_used {
        Some(t) => t,
        None => 0,
    })
    &&& c.spec_total_tool_calls() == (if success_count(e.steps) >= e.steps.len() {
        success_count(e.steps)
    } else {
        e.steps.len()
    })
    &&& c.spec_total_cost_micro() is None
}

proof fn lemma_success_count_bound(steps: Seq<StepResultV>)
    ensures
        success_count(steps) <= steps.len(),
    decreases steps.len(),
{
    if steps.len() > 0 {
        lemma_success_count_bound(steps.drop_last());
    }
}

proof fn lemma_stored_at(es: Seq<ExecutionResultV>, i: int)
    requires
        distinct_ids(es),
        0 <= i < es.len(),
    ensures
        stored(es, es[i].execution_id) == Some(es[i]),
    decreases i,
{
    if i > 0 {
        assert(es[0].execution_id != es[i].execution_id);
        assert(es.skip(1)[i - 1] == es[i]);
        lemma_stored_at(es.skip(1), i - 1);
    }
}

proof fn lemma_stored_absent(es: Seq<ExecutionResultV>, id: u128)
    requires
        forall|j: int| 0 <= j < es.len() ==> es[j].execution_id != id,
    ensures
        stored(es, id) is None,
    decreases es.len(),
{
    if es.len() > 0 {
        assert(es[0].execution_id != id);
        assert forall|j: int| 0 <= j < es.skip(1).len() implies es.skip(1)[j].execution_id
            != id by {
            assert(es.skip(1)[j] == es[j + 1]);
        }
        lemma_stored_absent(es.skip(1), id);
    }
}

/// Results under other ids are found as before when only entries of `id`
/// change or are added.
proof fn lemma_stored_frame(
    before: Seq<ExecutionResultV>,
    after: Seq<ExecutionResultV>,
    id: u128,
    k: u128,
)
    requires
        distinct_ids(before),
        distinct_ids(after),
        k != id,
        before.len() <= after.len(),
        forall|j: int|
            0 <= j < before.len() && before[j].execution_id != id ==> after[j] == before[j],
        forall|j: int|
            0 <= j < after.len() && (j >= before.len() || before[j].execution_id == id)
                ==> after[j].execution_id == id,
    ensures
        stored(after, k) == stored(before, k),
{
    if exists|j: int| 0 <= j < before.len() && before[j].execution_id == k {
        let j = choose|j: int| 0 <= j < before.len() && before[j].execution_id == k;
        lemma_stored_at(before, j);
        lemma_stored_at(after, j);
    } else {
        lemma_stored_absent(before, k);
        assert forall|j: int| 0 <= j < after.len() implies after[j].execution_id != k by {
            if j < before.len() && before[j].execution_id != id {
                assert(after[j] == before[j]);
            }
        }
        lemma_stored_absent(after, k);
    }
}

/// Thread-free in-memory execution storage: each execution id is held once.
pub struct InMemoryExecutionRepository {
    executions: Vec<ExecutionResult>,
}

impl InMemoryExecutionRepository {
    /// The stored results, in the order they were first saved.
    pub closed spec fn spec_executions(&self) -> Seq<ExecutionResultV> {
        self.executions@.map_values(|e: ExecutionResult| e@)
    }

    /// The storage holds each id at most once.
    pub open spec fn wf(&self) -> bool {
        distinct_ids(self.spec_executions())
    }

    /// The result stored under `id`.
    pub open spec fn lookup(&self, id: u128) -> Option<ExecutionResultV> {
        stored(self.spec_executions(), id)
    }

    /// An empty repository.
    pub fn new() -> (r: InMemoryExecutionRepository)
        ensures
            r.wf(),
            r.spec_executions() == Seq::<ExecutionResultV>::empty(),
            forall|id: u128| #[trigger] r.lookup(id) is None,
    {
        let r = InMemoryExecutionRepository { executions: Vec::new() };
        assert(r.spec_executions() =~= Seq::<ExecutionResultV>::empty());
        r
    }

    /// Stores a copy of `execution` under its id, replacing what was stored
    /// there; every other id keeps its result.
    pub fn save_execution(&mut self, execution: &ExecutionResult)
        requires
            old(self).wf(),
        ensures
            final(self).wf(),
            final(self).lookup(execution@.execution_id) == Some(execution@),
            forall|id: u128|
                id != execution@.execution_id ==> #[trigger] final(self).lookup(id) == old(
                    self,
                ).lookup(id),
    {
        let id = execution.execution_id();
        let ghost before = self.spec_executions();
        let mut i: usize = 0;
        while i < self.executions.len()
            invariant
                i <= self.executions.len(),
                self.spec_executions() == before,
                old(self).spec_executions() == before,
                distinct_ids(before),
                id == execution@.execution_id,
                forall|j: int| 0 <= j < i ==> before[j].execution_id != id,
            decreases self.executions.len() - i,
        {
            assert(before[i as int] == self.executions@[i as int]@);
            if self.executions[i].execution_id() == id {
                self.executions.set(i, execution.duplicate());
                proof {
                    let after = self.spec_executions();
                    assert(after =~= before.update(i as int, execution@));
                    assert(distinct_ids(after)) by {
                        assert forall|a: int, b: int| 0 <= a < b < after.len() implies
                            #[trigger] after[a].execution_id != #[trigger] after[b].execution_id by {
                            assert(before[a].execution_id != before[b].execution_id);
                        }
                    }
                    lemma_stored_at(after, i as int);
                    assert forall|k: u128| k != id implies #[trigger] stored(after, k) == stored(
                        before,
                        k,
                    ) by {
                        lemma_stored_frame(before, after, id, k);
                    }
                }
                return;
            }
            i = i + 1;
        }
        self.executions.push(execution.duplicate());
        proof {
            let after = self.spec_executions();
            assert(after =~= before.push(execution@));
            assert(distinct_ids(after)) by {
                assert forall|a: int, b: int| 0 <= a < b < after.len() implies
                    #[trigger] after[a].execution_id != #[trigger] after[b].execution_id by {
                    if b < before.len() {
                        assert(before[a].execution_id != before[b].execution_id);
                    }
                }
            }
            lemma_stored_at(after, before.len() as int);
            assert forall|k: u128| k != id implies #[trigger] stored(after, k) == stored(
                before,
                k,
            ) by {
                lemma_stored_frame(before, after, id, k);
            }
        }
    }

    fn position(&self, id: u128) -> (r: Option<usize>)
        requires
            self.wf(),
        ensures
            match r {
                Some(i) => i < self.spec_executions().len() && self.lookup(id) == Some(
                    self.spec_executions()[i as int],
                ),
                None => self.lookup(id) is None,
            },
    {
        let mut i: usize = 0;
        while i < self.executions.len()
            invariant
                i <= self.executions.len(),
                self.wf(),
                forall|j: int| 0 <= j < i ==> self.spec_executions()[j].execution_id != id,
            decreases self.executions.len() - i,
        {
            assert(self.spec_executions()[i as int] == self.executions@[i as int]@);
            if self.executions[i].execution_id() == id {
                proof {
                    lemma_stored_at(self.spec_executions(), i as int);
                }
                return Some(i);
            }
            i = i + 1;
        }
        proof {
            lemma_stored_absent(self.spec_executions(), id);
        }
        None
    }

    /// A copy of the result stored under `execution_id`.
    pub fn find_execution(&self, execution_id: &ExecutionId) -> (r: Option<ExecutionResult>)
        requires
            self.wf(),
        ensures
            match r {
                Some(e) => self.lookup(execution_id.0) == Some(e@),
                None => self.lookup(execution_id.0) is None,
            },
    {
        match self.position(execution_id.as_uuid()) {
            Some(i) => {
                assert(self.spec_executions()[i as int] == self.executions@[i as int]@);
                Some(self.executions[i].duplicate())
            },
            None => None,
        }
    }

    /// The cost breakdown of the result stored under `execution_id`.
    pub fn find_cost_breakdown(&self, execution_id: &ExecutionId) -> (r: Option<CostBreakdown>)
        requires
            self.wf(),
        ensures
            match r {
                Some(c) => self.lookup(execution_id.0) matches Some(e) && cost_of(e, c),
                None => self.lookup(execution_id.0) is None,
            },
    {
        match self.position(execution_id.as_uuid()) {
            Some(i) => {
                assert(self.spec_executions()[i as int] == self.executions@[i as int]@);
                Some(cost_breakdown(&self.executions[i]))
            },
            None => None,
        }
    }
}

/// The cost breakdown of one result.
fn cost_breakdown(exec: &ExecutionResult) -> (r: CostBreakdown)
    ensures
        cost_of(exec@, r),
{
    let steps: &Vec<StepResult> = exec.steps();
    let ghost sv = exec@.steps;
    let mut costs: Vec<StepCost> = Vec::new();
    let mut successes: u64 = 0;
    let mut i: usize = 0;
    while i < steps.len()
        invariant
            steps@.map_values(|s: StepResult| s@) == sv,
            i <= steps.len(),
            costs.len() == i,
            successes == success_count(sv.subrange(0, i as int)),
            successes <= i,
            forall|j: int| 0 <= j < i ==> step_cost_of(#[trigger] costs@[j], sv[j]),
        decreases steps.len() - i,
    {
        let s = &steps[i];
        assert(sv[i as int] == s@);
        assert(sv.subrange(0, i + 1).drop_last() =~= sv.subrange(0, i as int));
        let ok = s.is_success();
        costs.push(
            StepCost {
                step_name: String::from_str(s.step_name()),
                tokens: 0,
                tool_calls: if ok { 1 } else { 0 },
                cost_micro: None,
            },
        );
        if ok {
            successes = successes + 1;
        }
        i = i + 1;
    }
    proof {
        assert(sv.subrange(0, sv.len() as int) =~= sv);
        lemma_success_count_bound(sv);
    }
    let step_count = steps.len() as u64;
    let tool_calls = if successes >= step_count { successes } else { step_count };
    let tokens = match exec.tokens_used() {
        Some(t) => t,
        None => 0,
    };
    CostBreakdown::new(exec.execution_id(), costs, tokens, tool_calls, None)
}

/// A read gives back what the last write under the same id stored, and a
/// write under one id leaves every other id as it was.
pub proof fn law_read_after_write(
    before: Seq<ExecutionResultV>,
    after: Seq<ExecutionResultV>,
    e: ExecutionResultV,
    i: int,
)
    requires
        distinct_ids(before),
        0 <= i <= before.len(),
        i < before.len() ==> before[i].execution_id == e.execution_id && after == before.update(i, e),
        i == before.len() ==> (forall|j: int| 0 <= j < before.len() ==> before[j].execution_id
            != e.execution_id) && after == before.push(e),
    ensures
        distinct_ids(after),
        stored(after, e.execution_id) == Some(e),
        forall|id: u128| id != e.execution_id ==> #[trigger] stored(after, id) == stored(before, id),
{
    assert(distinct_ids(after)) by {
        assert forall|a: int, b: int| 0 <= a < b < after.len() implies #[trigger] after[a].execution_id
            != #[trigger] after[b].execution_id by {
            if b < before.len() {
                assert(before[a].execution_id != before[b].execution_id);
            }
        }
    }
    lemma_stored_at(after, i);
    assert forall|k: u128| k != e.execution_id implies #[trigger] stored(after, k) == stored(
        before,
        k,
    ) by {
        lemma_stored_frame(before, after, e.execution_id, k);
    }
}

} // verus!
