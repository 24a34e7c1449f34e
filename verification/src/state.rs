//! The entity store: lookups by id over the job and node collections, and
//! what it means for their ids to be unique.
//!
//! Both collections are plain vectors kept in insertion order. A program that
//! shares them between tasks guards each with a lock of its own and, where it
//! needs both, takes the jobs lock before the nodes lock.

use vstd::prelude::*;
use crate::models::{job_views, node_views, Job, JobView, Node, NodeView};

verus! {

/// Some job of the collection has this id.
pub open spec fn has_job(jobs: Seq<JobView>, id: Seq<char>) -> bool {
    exists|i: int| 0 <= i < jobs.len() && (#[trigger] jobs[i]).job_id == id
}

/// `i` is the position of the first job with this id.
pub open spec fn first_job(jobs: Seq<JobView>, id: Seq<char>, i: int) -> bool {
    &&& 0 <= i < jobs.len()
    &&& jobs[i].job_id == id
    &&& forall|k: int| 0 <= k < i ==> (#[trigger] jobs[k]).job_id != id
}

/// Some node of the collection has this id.
pub open spec fn has_node(nodes: Seq<NodeView>, id: Seq<char>) -> bool {
    exists|i: int| 0 <= i < nodes.len() && (#[trigger] nodes[i]).node_id == id
}

/// `i` is the position of the first node with this id.
pub open spec fn first_node(nodes: Seq<NodeView>, id: Seq<char>, i: int) -> bool {
    &&& 0 <= i < nodes.len()
    &&& nodes[i].node_id == id
    &&& forall|k: int| 0 <= k < i ==> (#[trigger] nodes[k]).node_id != id
}

/// The position of the first job with this id, where some job has it.
pub open spec fn job_position(jobs: Seq<JobView>, id: Seq<char>) -> int {
    choose|i: int| first_job(jobs, id, i)
}

/// The position of the first node with this id, where some node has it.
pub open spec fn node_position(nodes: Seq<NodeView>, id: Seq<char>) -> int {
    choose|i: int| first_node(nodes, id, i)
}

/// The first job with an id stands at one position only.
pub proof fn lemma_job_position(jobs: Seq<JobView>, id: Seq<char>, i: int)
    requires
        first_job(jobs, id, i),
    ensures
        has_job(jobs, id),
        job_position(jobs, id) == i,
{
    let p = job_position(jobs, id);
    assert(first_job(jobs, id, p));
    if p < i {
        assert(jobs[p].job_id != id);
    } else if i < p {
        assert(jobs[i].job_id != id);
    }
}

/// The first node with an id stands at one position only.
pub proof fn lemma_node_position(nodes: Seq<NodeView>, id: Seq<char>, i: int)
    requires
        first_node(nodes, id, i),
    ensures
        has_node(nodes, id),
        node_position(nodes, id) == i,
{
    let p = node_position(nodes, id);
    assert(first_node(nodes, id, p));
    if p < i {
        assert(nodes[p].node_id != id);
    } else if i < p {
        assert(nodes[i].node_id != id);
    }
}

/// Among the first `n` jobs, one with the id has a first one before it.
proof fn lemma_first_job_below(jobs: Seq<JobView>, id: Seq<char>, n: int)
    requires
        0 <= n <= jobs.len(),
    ensures
        (exists|i: int| 0 <= i < n && (#[trigger] jobs[i]).job_id == id) ==> exists|f: int|
            first_job(jobs, id, f),
    decreases n,
{
    if n > 0 {
        lemma_first_job_below(jobs, id, n - 1);
        if !(exists|i: int| 0 <= i < n - 1 && (#[trigger] jobs[i]).job_id == id) {
            if jobs[n - 1].job_id == id {
                assert(first_job(jobs, id, n - 1));
            }
        }
    }
}

/// Where some job has the id, the position of the first such job is one.
pub proof fn lemma_first_job_exists(jobs: Seq<JobView>, id: Seq<char>)
    requires
        has_job(jobs, id),
    ensures
        first_job(jobs, id, job_position(jobs, id)),
{
    lemma_first_job_below(jobs, id, jobs.len() as int);
}

/// Among the first `n` nodes, one with the id has a first one before it.
proof fn lemma_first_node_below(nodes: Seq<NodeView>, id: Seq<char>, n: int)
    requires
        0 <= n <= nodes.len(),
    ensures
        (exists|i: int| 0 <= i < n && (#[trigger] nodes[i]).node_id == id) ==> exists|f: int|
            first_node(nodes, id, f),
    decreases n,
{
    if n > 0 {
        lemma_first_node_below(nodes, id, n - 1);
        if !(exists|i: int| 0 <= i < n - 1 && (#[trigger] nodes[i]).node_id == id) {
            if nodes[n - 1].node_id == id {
                assert(first_node(nodes, id, n - 1));
            }
        }
    }
}

/// Where some node has the id, the position of the first such node is one.
pub proof fn lemma_first_node_exists(nodes: Seq<NodeView>, id: Seq<char>)
    requires
        has_node(nodes, id),
    ensures
        first_node(nodes, id, node_position(nodes, id)),
{
    lemma_first_node_below(nodes, id, nodes.len() as int);
}

/// No two jobs of the collection share an id.
pub open spec fn job_ids_unique(jobs: Seq<JobView>) -> bool {
    forall|i: int, j: int|
        0 <= i < j < jobs.len() ==> (#[trigger] jobs[i]).job_id != (#[trigger] jobs[j]).job_id
}

/// No two nodes of the collection share an id.
pub open spec fn node_ids_unique(nodes: Seq<NodeView>) -> bool {
    forall|i: int, j: int|
        0 <= i < j < nodes.len() ==> (#[trigger] nodes[i]).node_id != (#[trigger] nodes[j]).node_id
}

/// The ids of the jobs, in the collection's order.
pub open spec fn job_ids(jobs: Seq<JobView>) -> Seq<Seq<char>> {
    Seq::new(jobs.len(), |i: int| jobs[i].job_id)
}

/// The ids of the nodes, in the collection's order.
pub open spec fn node_ids(nodes: Seq<NodeView>) -> Seq<Seq<char>> {
    Seq::new(nodes.len(), |i: int| nodes[i].node_id)
}

/// Position of the first job with the given id, if there is one.
pub fn find_job(jobs: &Vec<Job>, job_id: &str) -> (r: Option<usize>)
    ensures
        match r {
            Some(i) => first_job(job_views(jobs@), job_id@, i as int),
            None => !has_job(job_views(jobs@), job_id@),
        },
{
    let key = job_id.to_owned();
    let mut i: usize = 0;
    while i < jobs.len()
        invariant
            i <= jobs.len(),
            key@ == job_id@,
            forall|k: int| 0 <= k < i ==> (#[trigger] job_views(jobs@)[k]).job_id != job_id@,
        decreases jobs.len() - i,
    {
        if jobs[i].job_id == key {
            return Some(i);
        }
        i += 1;
    }
    None
}

/// Position of the first node with the given id, if there is one.
pub fn find_node(nodes: &Vec<Node>, node_id: &str) -> (r: Option<usize>)
    ensures
        match r {
            Some(i) => first_node(node_views(nodes@), node_id@, i as int),
            None => !has_node(node_views(nodes@), node_id@),
        },
{
    let key = node_id.to_owned();
    let mut i: usize = 0;
    while i < nodes.len()
        invariant
            i <= nodes.len(),
            key@ == node_id@,
            forall|k: int| 0 <= k < i ==> (#[trigger] node_views(nodes@)[k]).node_id != node_id@,
        decreases nodes.len() - i,
    {
        if nodes[i].node_id == key {
            return Some(i);
        }
        i += 1;
    }
    None
}

/// Appending a job whose id no job has yet keeps the ids unique.
pub proof fn lemma_push_job_keeps_ids_unique(jobs: Seq<JobView>, job: JobView)
    requires
        job_ids_unique(jobs),
        !has_job(jobs, job.job_id),
    ensures
        job_ids_unique(jobs.push(job)),
{
    let after = jobs.push(job);
    assert forall|i: int, j: int| 0 <= i < j < after.len() implies (#[trigger] after[i]).job_id
        != (#[trigger] after[j]).job_id by {
        if j < jobs.len() {
            assert(after[i] == jobs[i] && after[j] == jobs[j]);
        } else {
            assert(after[i] == jobs[i]);
        }
    }
}

/// Appending a node whose id no node has yet keeps the ids unique.
pub proof fn lemma_push_node_keeps_ids_unique(nodes: Seq<NodeView>, node: NodeView)
    requires
        node_ids_unique(nodes),
        !has_node(nodes, node.node_id),
    ensures
        node_ids_unique(nodes.push(node)),
{
    let after = nodes.push(node);
    assert forall|i: int, j: int| 0 <= i < j < after.len() implies (#[trigger] after[i]).node_id
        != (#[trigger] after[j]).node_id by {
        if j < nodes.len() {
            assert(after[i] == nodes[i] && after[j] == nodes[j]);
        } else {
            assert(after[i] == nodes[i]);
        }
    }
}

/// Replacing a job by one with the same id keeps the sequence of ids, and
/// with it their uniqueness.
pub proof fn lemma_update_job_keeps_ids(jobs: Seq<JobView>, i: int, job: JobView)
    requires
        0 <= i < jobs.len(),
        job.job_id == jobs[i].job_id,
    ensures
        job_ids(jobs.update(i, job)) == job_ids(jobs),
        job_ids_unique(jobs) ==> job_ids_unique(jobs.update(i, job)),
{
    let after = jobs.update(i, job);
    assert(job_ids(after) =~= job_ids(jobs));
    if job_ids_unique(jobs) {
        assert forall|a: int, b: int| 0 <= a < b < after.len() implies (#[trigger] after[a]).job_id
            != (#[trigger] after[b]).job_id by {
            assert(after[a].job_id == jobs[a].job_id);
            assert(after[b].job_id == jobs[b].job_id);
        }
    }
}

/// Replacing a node by one with the same id keeps the sequence of ids, and
/// with it their uniqueness.
pub proof fn lemma_update_node_keeps_ids(nodes: Seq<NodeView>, i: int, node: NodeView)
    requires
        0 <= i < nodes.len(),
        node.node_id == nodes[i].node_id,
    ensures
        node_ids(nodes.update(i, node)) == node_ids(nodes),
        node_ids_unique(nodes) ==> node_ids_unique(nodes.update(i, node)),
{
    let after = nodes.update(i, node);
    assert(node_ids(after) =~= node_ids(nodes));
    if node_ids_unique(nodes) {
        assert forall|a: int, b: int| 0 <= a < b < after.len() implies (#[trigger] after[a]).node_id
            != (#[trigger] after[b]).node_id by {
            assert(after[a].node_id == nodes[a].node_id);
            assert(after[b].node_id == nodes[b].node_id);
        }
    }
}

} // verus!
