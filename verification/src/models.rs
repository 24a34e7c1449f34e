//! Jobs, nodes, and their mathematical models.

use vstd::prelude::*;
use chrono::Utc;

verus! {

/// Status text of a job that no node serves yet.
pub open spec fn pending() -> Seq<char> {
    "pending"@
}

/// Status text of a job that a node is serving.
pub open spec fn assigned() -> Seq<char> {
    "assigned"@
}

/// Status text of a job whose result has been handed in.
pub open spec fn completed() -> Seq<char> {
    "completed"@
}

/// Status text of a node that is free to take a job.
pub open spec fn idle() -> Seq<char> {
    "idle"@
}

/// Status text of a node that is serving a job.
pub open spec fn busy() -> Seq<char> {
    "busy"@
}

/// The three job statuses are pairwise distinct texts, and so are the two
/// node statuses.
pub proof fn lemma_status_texts_distinct()
    ensures
        pending() != assigned(),
        pending() != completed(),
        assigned() != completed(),
        idle() != busy(),
        pending().len() == 7,
        assigned().len() == 8,
        completed().len() == 9,
        idle().len() == 4,
        busy().len() == 4,
{
    reveal_strlit("pending");
    reveal_strlit("assigned");
    reveal_strlit("completed");
    reveal_strlit("idle");
    reveal_strlit("busy");
    assert(pending().len() == 7);
    assert(assigned().len() == 8);
    assert(completed().len() == 9);
    assert(idle()[0] == 'i');
    assert(busy()[0] == 'b');
}

/// View of an optional text.
pub open spec fn text_of(o: Option<String>) -> Option<Seq<char>> {
    match o {
        Some(s) => Some(s@),
        None => None,
    }
}

/// A unit of work.
///
/// `bounty` holds the payment amount as the bit pattern of an IEEE 754
/// double, so that the amount is carried through unchanged.
/// `retries` and `min_memory` are reserved: no operation reads or changes them.
#[derive(Debug, PartialEq, Eq)]
pub struct Job {
    pub job_id: String,
    pub owner: String,
    pub dataset_cid: String,
    pub container_cid: String,
    pub bounty: u64,
    pub deadline: String,
    pub required_specs: String,
    pub min_memory: u64,
    pub status: String,
    pub assigned_node: Option<String>,
    pub provider_address: Option<String>,
    pub result_hash: Option<String>,
    pub retries: u8,
    pub created_at: String,
    pub completed: bool,
}

/// Mathematical model of a [`Job`].
pub struct JobView {
    pub job_id: Seq<char>,
    pub owner: Seq<char>,
    pub dataset_cid: Seq<char>,
    pub container_cid: Seq<char>,
    pub bounty: u64,
    pub deadline: Seq<char>,
    pub required_specs: Seq<char>,
    pub min_memory: u64,
    pub status: Seq<char>,
    pub assigned_node: Option<Seq<char>>,
    pub provider_address: Option<Seq<char>>,
    pub result_hash: Option<Seq<char>>,
    pub retries: u8,
    pub created_at: Seq<char>,
    pub completed: bool,
}

impl View for Job {
    type V = JobView;

    open spec fn view(&self) -> JobView {
        JobView {
            job_id: self.job_id@,
            owner: self.owner@,
            dataset_cid: self.dataset_cid@,
            container_cid: self.container_cid@,
            bounty: self.bounty,
            deadline: self.deadline@,
            required_specs: self.required_specs@,
            min_memory: self.min_memory,
            status: self.status@,
            assigned_node: text_of(self.assigned_node),
            provider_address: text_of(self.provider_address),
            result_hash: text_of(self.result_hash),
            retries: self.retries,
            created_at: self.created_at@,
            completed: self.completed,
        }
    }
}

impl JobView {
    /// The optional fields and the `completed` flag agree with the status: a
    /// pending job names no node, no provider and no result; an assigned job
    /// names a node and a provider and no result; a completed job carries a
    /// result; the flag is set exactly on a completed job.
    pub open spec fn well_formed(self) -> bool {
        &&& self.status == pending() ==> self.assigned_node is None
            && self.provider_address is None && self.result_hash is None
        &&& self.status == assigned() ==> self.assigned_node is Some
            && self.provider_address is Some && self.result_hash is None
        &&& self.status == completed() ==> self.result_hash is Some
        &&& self.completed <==> self.status == completed()
    }

    /// The job as it stands once `node_id` serves it for `address`.
    pub open spec fn assigned_to(self, node_id: Seq<char>, address: Seq<char>) -> JobView {
        JobView {
            status: assigned(),
            assigned_node: Some(node_id),
            provider_address: Some(address),
            ..self
        }
    }

    /// The job as it stands once `result_hash` has been handed in for it.
    pub open spec fn completed_with(self, result_hash: Seq<char>) -> JobView {
        JobView { status: completed(), result_hash: Some(result_hash), completed: true, ..self }
    }
}

impl JobView {
    /// A job as it is submitted: pending, with no node, provider or result,
    /// never retried and not completed.
    pub open spec fn submitted(
        job_id: Seq<char>,
        owner: Seq<char>,
        dataset_cid: Seq<char>,
        container_cid: Seq<char>,
        bounty: u64,
        deadline: Seq<char>,
        required_specs: Seq<char>,
        min_memory: u64,
        created_at: Seq<char>,
    ) -> JobView {
        JobView {
            job_id,
            owner,
            dataset_cid,
            container_cid,
            bounty,
            deadline,
            required_specs,
            min_memory,
            status: pending(),
            assigned_node: None,
            provider_address: None,
            result_hash: None,
            retries: 0,
            created_at,
            completed: false,
        }
    }
}

/// Calls `chrono::Utc::now` and formats the instant with `to_rfc3339`.
/// Nothing is claimed of the text: it depends on the clock.
#[verifier::external_body]
fn current_timestamp() -> (r: String) {
    Utc::now().to_rfc3339()
}

impl Job {
    /// A pending job created at the given instant.
    pub fn with_timestamp(
        job_id: String,
        owner: String,
        dataset_cid: String,
        container_cid: String,
        bounty: u64,
        deadline: String,
        required_specs: String,
        min_memory: u64,
        created_at: String,
    ) -> (r: Job)
        ensures
            r@ == JobView::submitted(
                job_id@,
                owner@,
                dataset_cid@,
                container_cid@,
                bounty,
                deadline@,
                required_specs@,
                min_memory,
                created_at@,
            ),
            r@.well_formed(),
    {
        proof {
            lemma_status_texts_distinct();
        }
        Job {
            job_id,
            owner,
            dataset_cid,
            container_cid,
            bounty,
            deadline,
            required_specs,
            min_memory,
            provider_address: None,
            status: "pending".to_owned(),
            assigned_node: None,
            result_hash: None,
            retries: 0,
            created_at,
            completed: false,
        }
    }

    /// A pending job created now: `created_at` is the current instant in
    /// RFC 3339 form.
    pub fn new(
        job_id: String,
        owner: String,
        dataset_cid: String,
        container_cid: String,
        bounty: u64,
        deadline: String,
        required_specs: String,
        min_memory: u64,
    ) -> (r: Job)
        ensures
            r@ == JobView::submitted(
                job_id@,
                owner@,
                dataset_cid@,
                container_cid@,
                bounty,
                deadline@,
                required_specs@,
                min_memory,
                r@.created_at,
            ),
            r@.well_formed(),
    {
        Job::with_timestamp(
            job_id,
            owner,
            dataset_cid,
            container_cid,
            bounty,
            deadline,
            required_specs,
            min_memory,
            current_timestamp(),
        )
    }
}

impl Clone for Job {
    fn clone(&self) -> (r: Job)
        ensures
            r == *self,
    {
        Job {
            job_id: self.job_id.clone(),
            owner: self.owner.clone(),
            dataset_cid: self.dataset_cid.clone(),
            container_cid: self.container_cid.clone(),
            bounty: self.bounty,
            deadline: self.deadline.clone(),
            required_specs: self.required_specs.clone(),
            min_memory: self.min_memory,
            status: self.status.clone(),
            assigned_node: self.assigned_node.clone(),
            provider_address: self.provider_address.clone(),
            result_hash: self.result_hash.clone(),
            retries: self.retries,
            created_at: self.created_at.clone(),
            completed: self.completed,
        }
    }
}

/// A worker offering compute capacity.
#[derive(Debug, PartialEq, Eq)]
pub struct Node {
    pub node_id: String,
    pub gpu_name: Option<String>,
    pub gpu_specs: String,
    pub owner: Option<String>,
    pub memory: u64,
    pub status: String,
    pub active: bool,
}

/// Mathematical model of a [`Node`].
pub struct NodeView {
    pub node_id: Seq<char>,
    pub gpu_name: Option<Seq<char>>,
    pub gpu_specs: Seq<char>,
    pub owner: Option<Seq<char>>,
    pub memory: u64,
    pub status: Seq<char>,
    pub active: bool,
}

impl View for Node {
    type V = NodeView;

    open spec fn view(&self) -> NodeView {
        NodeView {
            node_id: self.node_id@,
            gpu_name: text_of(self.gpu_name),
            gpu_specs: self.gpu_specs@,
            owner: text_of(self.owner),
            memory: self.memory,
            status: self.status@,
            active: self.active,
        }
    }
}

impl NodeView {
    /// The node with its status replaced.
    pub open spec fn with_status(self, status: Seq<char>) -> NodeView {
        NodeView { status, ..self }
    }

    /// The node as registration stores it under `node_id`: idle and active,
    /// whatever the registrant sent for those two fields.
    pub open spec fn registered_as(self, node_id: Seq<char>) -> NodeView {
        NodeView { node_id, status: idle(), active: true, ..self }
    }
}

impl Clone for Node {
    fn clone(&self) -> (r: Node)
        ensures
            r == *self,
    {
        Node {
            node_id: self.node_id.clone(),
            gpu_name: self.gpu_name.clone(),
            gpu_specs: self.gpu_specs.clone(),
            owner: self.owner.clone(),
            memory: self.memory,
            status: self.status.clone(),
            active: self.active,
        }
    }
}

/// Models of the jobs of a collection, in its order.
pub open spec fn job_views(jobs: Seq<Job>) -> Seq<JobView> {
    Seq::new(jobs.len(), |i: int| jobs[i]@)
}

/// Models of the nodes of a collection, in its order.
pub open spec fn node_views(nodes: Seq<Node>) -> Seq<NodeView> {
    Seq::new(nodes.len(), |i: int| nodes[i]@)
}

} // verus!
