//! What holds of the store over every sequence of operations: ids stay
//! unique, and the status of a job only moves forward.

use vstd::prelude::*;
use crate::models::{
    assigned, busy, completed, idle, job_views, lemma_status_texts_distinct, node_views, pending,
    Job, JobView, Node, NodeView,
};
use crate::nodes::{jobs_with_assignment, jobs_with_result, nodes_with_status};
use crate::state::{
    has_job, has_node, job_ids_unique, job_position, lemma_first_job_exists,
    lemma_first_node_exists, lemma_push_job_keeps_ids_unique, lemma_push_node_keeps_ids_unique,
    lemma_update_job_keeps_ids, lemma_update_node_keeps_ids, node_ids_unique, node_position,
};

verus! {

/// Model of the store: the jobs and the nodes, each in insertion order.
pub struct StoreView {
    pub jobs: Seq<JobView>,
    pub nodes: Seq<NodeView>,
}

/// Model of a store that holds the given jobs and nodes.
pub open spec fn store_view(jobs: Seq<Job>, nodes: Seq<Node>) -> StoreView {
    StoreView { jobs: job_views(jobs), nodes: node_views(nodes) }
}

/// The operations that change the store.
pub enum Operation {
    /// A job is submitted.
    AddJob { job: JobView },
    /// A node is registered under an id.
    RegisterNode { node: NodeView, node_id: Seq<char> },
    /// A confirmed assignment is applied.
    ConfirmAssignment { job_id: Seq<char>, node_id: Seq<char>, address: Seq<char> },
    /// The result of a job is taken in.
    SubmitResult { job_id: Seq<char>, node_id: Seq<char>, result_hash: Seq<char> },
}

/// The store after an operation.
pub open spec fn step(store: StoreView, op: Operation) -> StoreView {
    match op {
        Operation::AddJob { job } => StoreView { jobs: store.jobs.push(job), nodes: store.nodes },
        Operation::RegisterNode { node, node_id } => StoreView {
            jobs: store.jobs,
            nodes: store.nodes.push(node.registered_as(node_id)),
        },
        Operation::ConfirmAssignment { job_id, node_id, address } => if has_job(store.jobs, job_id) {
            StoreView {
                jobs: jobs_with_assignment(store.jobs, job_id, node_id, address),
                nodes: nodes_with_status(store.nodes, node_id, busy()),
            }
        } else {
            store
        },
        Operation::SubmitResult { job_id, node_id, result_hash } => if has_job(store.jobs, job_id) {
            StoreView {
                jobs: jobs_with_result(store.jobs, job_id, result_hash),
                nodes: nodes_with_status(store.nodes, node_id, idle()),
            }
        } else {
            store
        },
    }
}

/// The operation brings no id that the store already holds.
pub open spec fn brings_new_id(store: StoreView, op: Operation) -> bool {
    match op {
        Operation::AddJob { job } => !has_job(store.jobs, job.job_id),
        Operation::RegisterNode { node, node_id } => !has_node(store.nodes, node_id),
        _ => true,
    }
}

/// An assignment, where the operation is one, is applied to a job that is
/// still pending.
pub open spec fn assigns_pending(store: StoreView, op: Operation) -> bool {
    match op {
        Operation::ConfirmAssignment { job_id, node_id, address } => has_job(store.jobs, job_id)
            ==> store.jobs[job_position(store.jobs, job_id)].status == pending(),
        _ => true,
    }
}

/// The store after a sequence of operations, applied in order.
pub open spec fn run(store: StoreView, ops: Seq<Operation>) -> StoreView
    decreases ops.len(),
{
    if ops.len() == 0 {
        store
    } else {
        step(run(store, ops.drop_last()), ops.last())
    }
}

/// Every operation of the sequence brings no id that the store holds when
/// the operation is applied.
pub open spec fn all_bring_new_ids(store: StoreView, ops: Seq<Operation>) -> bool
    decreases ops.len(),
{
    ops.len() == 0 || (all_bring_new_ids(store, ops.drop_last()) && brings_new_id(
        run(store, ops.drop_last()),
        ops.last(),
    ))
}

/// Every assignment of the sequence is applied to a job that is pending when
/// the assignment is applied.
pub open spec fn all_assign_pending(store: StoreView, ops: Seq<Operation>) -> bool
    decreases ops.len(),
{
    ops.len() == 0 || (all_assign_pending(store, ops.drop_last()) && assigns_pending(
        run(store, ops.drop_last()),
        ops.last(),
    ))
}

/// How far a job has come: 0 while pending, 1 once assigned, 2 once
/// completed. A status that is none of the three counts as 0: like a pending
/// job, such a job has been neither assigned nor completed.
pub open spec fn status_rank(status: Seq<char>) -> int {
    if status == completed() {
        2
    } else if status == assigned() {
        1
    } else {
        0
    }
}

/// An operation that brings no id already held keeps the job ids and the
/// node ids unique.
pub proof fn lemma_step_keeps_ids_unique(store: StoreView, op: Operation)
    requires
        job_ids_unique(store.jobs),
        node_ids_unique(store.nodes),
        brings_new_id(store, op),
    ensures
        job_ids_unique(step(store, op).jobs),
        node_ids_unique(step(store, op).nodes),
{
    match op {
        Operation::AddJob { job } => {
            lemma_push_job_keeps_ids_unique(store.jobs, job);
        },
        Operation::RegisterNode { node, node_id } => {
            lemma_push_node_keeps_ids_unique(store.nodes, node.registered_as(node_id));
        },
        Operation::ConfirmAssignment { job_id, node_id, address } => {
            if has_job(store.jobs, job_id) {
                lemma_first_job_exists(store.jobs, job_id);
                let i = job_position(store.jobs, job_id);
                lemma_update_job_keeps_ids(
                    store.jobs,
                    i,
                    store.jobs[i].assigned_to(node_id, address),
                );
                if has_node(store.nodes, node_id) {
                    lemma_first_node_exists(store.nodes, node_id);
                    let k = node_position(store.nodes, node_id);
                    lemma_update_node_keeps_ids(store.nodes, k, store.nodes[k].with_status(busy()));
                }
            }
        },
        Operation::SubmitResult { job_id, node_id, result_hash } => {
            if has_job(store.jobs, job_id) {
                lemma_first_job_exists(store.jobs, job_id);
                let i = job_position(store.jobs, job_id);
                lemma_update_job_keeps_ids(store.jobs, i, store.jobs[i].completed_with(result_hash));
                if has_node(store.nodes, node_id) {
                    lemma_first_node_exists(store.nodes, node_id);
                    let k = node_position(store.nodes, node_id);
                    lemma_update_node_keeps_ids(store.nodes, k, store.nodes[k].with_status(idle()));
                }
            }
        },
    }
}

/// Job ids and node ids that are unique stay unique over every sequence of
/// operations in which no submitted job and no registered node brings an id
/// that the store already holds.
pub proof fn lemma_ids_stay_unique(store: StoreView, ops: Seq<Operation>)
    requires
        job_ids_unique(store.jobs),
        node_ids_unique(store.nodes),
        all_bring_new_ids(store, ops),
    ensures
        job_ids_unique(run(store, ops).jobs),
        node_ids_unique(run(store, ops).nodes),
    decreases ops.len(),
{
    if ops.len() > 0 {
        lemma_ids_stay_unique(store, ops.drop_last());
        lemma_step_keeps_ids_unique(run(store, ops.drop_last()), ops.last());
    }
}

/// No operation removes a job, and none moves the status of a job backwards,
/// as long as an assignment is applied only to a pending job. A job moves
/// from pending straight to completed by a result, and by nothing else.
pub proof fn lemma_step_moves_status_forward(store: StoreView, op: Operation, k: int)
    requires
        assigns_pending(store, op),
        0 <= k < store.jobs.len(),
    ensures
        step(store, op).jobs.len() >= store.jobs.len(),
        step(store, op).jobs[k].job_id == store.jobs[k].job_id,
        status_rank(step(store, op).jobs[k].status) >= status_rank(store.jobs[k].status),
        status_rank(step(store, op).jobs[k].status) > status_rank(store.jobs[k].status) + 1
            ==> op is SubmitResult,
{
    lemma_status_texts_distinct();
    match op {
        Operation::ConfirmAssignment { job_id, node_id, address } => {
            if has_job(store.jobs, job_id) {
                lemma_first_job_exists(store.jobs, job_id);
            }
        },
        Operation::SubmitResult { job_id, node_id, result_hash } => {
            if has_job(store.jobs, job_id) {
                lemma_first_job_exists(store.jobs, job_id);
            }
        },
        _ => {},
    }
}

/// Over every sequence of operations in which assignments are applied to
/// pending jobs only, each job of the store stays where it is, keeps its id,
/// and has a status that is no earlier than before.
pub proof fn lemma_status_never_regresses(store: StoreView, ops: Seq<Operation>, k: int)
    requires
        all_assign_pending(store, ops),
        0 <= k < store.jobs.len(),
    ensures
        run(store, ops).jobs.len() >= store.jobs.len(),
        run(store, ops).jobs[k].job_id == store.jobs[k].job_id,
        status_rank(run(store, ops).jobs[k].status) >= status_rank(store.jobs[k].status),
    decreases ops.len(),
{
    if ops.len() > 0 {
        lemma_status_never_regresses(store, ops.drop_last(), k);
        lemma_step_moves_status_forward(run(store, ops.drop_last()), ops.last(), k);
    }
}

/// A result completes the job it names whatever the status of the job was:
/// a job that is still pending is completed without having been assigned.
pub proof fn lemma_result_completes_any_job(
    store: StoreView,
    job_id: Seq<char>,
    node_id: Seq<char>,
    result_hash: Seq<char>,
)
    requires
        has_job(store.jobs, job_id),
    ensures
        ({
            let after = step(store, Operation::SubmitResult { job_id, node_id, result_hash });
            let i = job_position(store.jobs, job_id);
            &&& 0 <= i < store.jobs.len()
            &&& after.jobs[i].status == completed()
            &&& after.jobs[i].result_hash == Some(result_hash)
            &&& after.jobs[i].assigned_node == store.jobs[i].assigned_node
        }),
{
    lemma_first_job_exists(store.jobs, job_id);
}

/// An operation leaves every field of a node but its status alone: an
/// assignment may make a node busy, a result may make one idle, and nothing
/// else changes a status. No operation removes a node.
pub proof fn lemma_step_changes_node_status_only(store: StoreView, op: Operation, k: int)
    requires
        0 <= k < store.nodes.len(),
    ensures
        step(store, op).nodes.len() >= store.nodes.len(),
        step(store, op).nodes[k] == store.nodes[k].with_status(step(store, op).nodes[k].status),
        step(store, op).nodes[k].status != store.nodes[k].status ==> {
            ||| op is ConfirmAssignment && step(store, op).nodes[k].status == busy()
            ||| op is SubmitResult && step(store, op).nodes[k].status == idle()
        },
{
    match op {
        Operation::ConfirmAssignment { job_id, node_id, address } => {
            if has_job(store.jobs, job_id) && has_node(store.nodes, node_id) {
                lemma_first_node_exists(store.nodes, node_id);
            }
        },
        Operation::SubmitResult { job_id, node_id, result_hash } => {
            if has_job(store.jobs, job_id) && has_node(store.nodes, node_id) {
                lemma_first_node_exists(store.nodes, node_id);
            }
        },
        _ => {},
    }
}

/// Jobs whose optional fields agree with their status keep that agreement
/// under every operation that submits a well-formed job or applies an
/// assignment to a pending job.
pub proof fn lemma_step_keeps_jobs_well_formed(store: StoreView, op: Operation)
    requires
        forall|k: int| 0 <= k < store.jobs.len() ==> (#[trigger] store.jobs[k]).well_formed(),
        assigns_pending(store, op),
        op matches Operation::AddJob { job } ==> job.well_formed(),
    ensures
        forall|k: int|
            0 <= k < step(store, op).jobs.len() ==> (#[trigger] step(store, op).jobs[k]).well_formed(),
{
    lemma_status_texts_distinct();
    match op {
        Operation::ConfirmAssignment { job_id, node_id, address } => {
            if has_job(store.jobs, job_id) {
                lemma_first_job_exists(store.jobs, job_id);
            }
        },
        Operation::SubmitResult { job_id, node_id, result_hash } => {
            if has_job(store.jobs, job_id) {
                lemma_first_job_exists(store.jobs, job_id);
            }
        },
        _ => {},
    }
    let after = step(store, op);
    assert forall|k: int| 0 <= k < after.jobs.len() implies (#[trigger] after.jobs[k]).well_formed() by {
        if k < store.jobs.len() {
            assert(store.jobs[k].well_formed());
        }
    }
}

} // verus!
