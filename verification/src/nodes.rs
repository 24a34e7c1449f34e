//! Node registration, node selection, and the two lifecycle flows: assigning
//! a provider to a job and taking in the result of a job.
//!
//! A job moves from pending to assigned to completed; a node moves between
//! idle and busy as the jobs it serves are assigned and completed.
//!
//! An assignment is split in two around the ledger call. Between the step
//! that selects a node and the step that applies a confirmed assignment the
//! store is not held, and the selected node is not reserved: a second
//! assignment that runs in between can select the same node, and a result
//! that arrives in between is overwritten by the assignment.

use vstd::prelude::*;
use uuid::Uuid;
use crate::error::{SchedulerError, StorageFailure};
use crate::ledger::{assign_on_chain, assignment_error, LedgerFailure};
use crate::lifecycle::{step, store_view, Operation};
use crate::models::{
    busy, idle, job_views, lemma_status_texts_distinct, node_views, pending, text_of, Job,
    JobView, Node, NodeView,
};
use crate::state::{
    find_job, find_node, first_job, has_job, has_node, job_ids, job_ids_unique, job_position,
    lemma_job_position, lemma_node_position, lemma_push_node_keeps_ids_unique,
    lemma_update_job_keeps_ids, lemma_update_node_keeps_ids, node_ids, node_ids_unique,
    node_position,
};
use crate::wallet::{
    checked_wallet, parse_address, validated, verdict_view, WalletAddress, WalletAddressView,
};

verus! {

/// The node can take the job: it is active, idle, and offers exactly the
/// capability that the job requires.
pub open spec fn eligible(node: NodeView, job: JobView) -> bool {
    node.active && node.status == idle() && node.gpu_specs == job.required_specs
}

/// Some node of the collection can take the job.
pub open spec fn has_eligible(nodes: Seq<NodeView>, job: JobView) -> bool {
    exists|i: int| 0 <= i < nodes.len() && eligible(#[trigger] nodes[i], job)
}

/// `i` is the position of the first node that can take the job.
pub open spec fn first_eligible(nodes: Seq<NodeView>, job: JobView, i: int) -> bool {
    &&& 0 <= i < nodes.len()
    &&& eligible(nodes[i], job)
    &&& forall|k: int| 0 <= k < i ==> !eligible(#[trigger] nodes[k], job)
}

/// The position of the first node that can take the job, where there is one.
pub open spec fn selected_position(nodes: Seq<NodeView>, job: JobView) -> int {
    choose|i: int| first_eligible(nodes, job, i)
}

/// The first eligible node stands at one position only.
pub proof fn lemma_selected_position(nodes: Seq<NodeView>, job: JobView, i: int)
    requires
        first_eligible(nodes, job, i),
    ensures
        has_eligible(nodes, job),
        selected_position(nodes, job) == i,
{
    let p = selected_position(nodes, job);
    assert(first_eligible(nodes, job, p));
    if p < i {
        assert(!eligible(nodes[p], job));
    } else if i < p {
        assert(!eligible(nodes[i], job));
    }
}

/// Selects the node that takes a job: the first in the collection's order
/// that is active, idle and offers the required capability. Memory plays no
/// part. Nothing is changed.
pub fn select_node_for_job(job: &Job, nodes: &Vec<Node>) -> (r: Option<Node>)
    ensures
        match r {
            Some(node) => {
                &&& first_eligible(node_views(nodes@), job@, selected_position(node_views(nodes@), job@))
                &&& node == nodes@[selected_position(node_views(nodes@), job@)]
                &&& eligible(node@, job@)
            },
            None => !has_eligible(node_views(nodes@), job@),
        },
{
    let idle_text = "idle".to_owned();
    let mut i: usize = 0;
    while i < nodes.len()
        invariant
            i <= nodes.len(),
            idle_text@ == idle(),
            forall|k: int| 0 <= k < i ==> !eligible(#[trigger] node_views(nodes@)[k], job@),
        decreases nodes.len() - i,
    {
        let node = &nodes[i];
        if node.active && node.status == idle_text && node.gpu_specs == job.required_specs {
            proof {
                lemma_selected_position(node_views(nodes@), job@, i as int);
            }
            return Some(node.clone());
        }
        i += 1;
    }
    None
}

/// Calls `uuid::Uuid::new_v4` and formats the identifier with `to_string`.
/// Claimed: the text is the hyphenated form, which has 36 characters
/// whatever the random identifier is.
#[verifier::external_body]
fn fresh_node_id() -> (r: String)
    ensures
        r@.len() == 36,
{
    Uuid::new_v4().to_string()
}

/// Stores a node under the given id, idle and active whatever status and
/// activity the registrant sent, and returns the node as stored.
pub fn store_node(nodes: &mut Vec<Node>, node: Node, node_id: String) -> (r: Node)
    ensures
        r@ == node@.registered_as(node_id@),
        final(nodes)@ == old(nodes)@.push(r),
        node_views(final(nodes)@) == node_views(old(nodes)@).push(node@.registered_as(node_id@)),
        node_ids_unique(node_views(old(nodes)@)) && !has_node(node_views(old(nodes)@), node_id@)
            ==> node_ids_unique(node_views(final(nodes)@)),
{
    let stored = Node {
        node_id,
        gpu_name: node.gpu_name,
        gpu_specs: node.gpu_specs,
        owner: node.owner,
        memory: node.memory,
        status: "idle".to_owned(),
        active: true,
    };
    let r = stored.clone();
    nodes.push(stored);
    proof {
        assert(node_views(nodes@) =~= node_views(old(nodes)@).push(r@));
        if node_ids_unique(node_views(old(nodes)@)) && !has_node(node_views(old(nodes)@), node_id@) {
            lemma_push_node_keeps_ids_unique(node_views(old(nodes)@), r@);
        }
    }
    r
}

/// Registers a node: appends it to the collection, idle and active, under
/// the id it came with or, where that is empty, under a generated one.
/// Returns the node as stored.
pub fn register_node(nodes: &mut Vec<Node>, node: Node) -> (r: Node)
    ensures
        r@ == node@.registered_as(r@.node_id),
        node@.node_id.len() > 0 ==> r@.node_id == node@.node_id,
        node@.node_id.len() == 0 ==> r@.node_id.len() == 36,
        final(nodes)@ == old(nodes)@.push(r),
        node_views(final(nodes)@) == node_views(old(nodes)@).push(r@),
        node_ids_unique(node_views(old(nodes)@)) && !has_node(node_views(old(nodes)@), r@.node_id)
            ==> node_ids_unique(node_views(final(nodes)@)),
{
    let node_id = if node.node_id.as_str().is_empty() {
        fresh_node_id()
    } else {
        node.node_id.clone()
    };
    store_node(nodes, node, node_id)
}

/// The result of a job as the serving node hands it in.
#[derive(Debug, PartialEq, Eq)]
pub struct JobResult {
    pub node_id: String,
    pub result_hash: String,
}

impl Clone for JobResult {
    fn clone(&self) -> (r: JobResult)
        ensures
            r == *self,
    {
        JobResult { node_id: self.node_id.clone(), result_hash: self.result_hash.clone() }
    }
}

/// The collection with the status of the first node that has the id
/// replaced; the collection itself where no node has the id.
pub open spec fn nodes_with_status(nodes: Seq<NodeView>, id: Seq<char>, status: Seq<char>) -> Seq<
    NodeView,
> {
    if has_node(nodes, id) {
        let i = node_position(nodes, id);
        nodes.update(i, nodes[i].with_status(status))
    } else {
        nodes
    }
}

/// The collection with the first job that has the id completed with the
/// hash; the collection itself where no job has the id.
pub open spec fn jobs_with_result(jobs: Seq<JobView>, id: Seq<char>, result_hash: Seq<char>) -> Seq<
    JobView,
> {
    if has_job(jobs, id) {
        let i = job_position(jobs, id);
        jobs.update(i, jobs[i].completed_with(result_hash))
    } else {
        jobs
    }
}

/// Marks a job completed and records its result hash, whatever its status
/// was: the status and the `completed` flag say so, and every other field
/// stays.
pub fn update_job_state_to_completed(job: &mut Job, result_hash: &str)
    ensures
        final(job)@ == old(job)@.completed_with(result_hash@),
        old(job)@.well_formed() ==> final(job)@.well_formed(),
{
    job.status = "completed".to_owned();
    job.result_hash = Some(result_hash.to_owned());
    job.completed = true;
    proof {
        lemma_status_texts_distinct();
    }
}

/// Sets the status of the first node with the given id; a collection without
/// such a node stays as it is.
fn set_node_status(nodes: &mut Vec<Node>, node_id: &str, status: &str)
    ensures
        node_views(final(nodes)@) == nodes_with_status(node_views(old(nodes)@), node_id@, status@),
        node_ids(node_views(final(nodes)@)) == node_ids(node_views(old(nodes)@)),
        node_ids_unique(node_views(old(nodes)@)) ==> node_ids_unique(node_views(final(nodes)@)),
{
    match find_node(nodes, node_id) {
        Some(i) => {
            proof {
                lemma_node_position(node_views(nodes@), node_id@, i as int);
            }
            nodes[i].status = status.to_owned();
            proof {
                let before = node_views(old(nodes)@);
                let after = before.update(i as int, before[i as int].with_status(status@));
                assert(node_views(nodes@) =~= after);
                lemma_update_node_keeps_ids(before, i as int, before[i as int].with_status(status@));
            }
        },
        None => {},
    }
}

/// Frees the first node with the given id: its status becomes idle. A
/// collection without such a node stays as it is.
pub fn update_node_status(nodes: &mut Vec<Node>, node_id: &str)
    ensures
        node_views(final(nodes)@) == nodes_with_status(node_views(old(nodes)@), node_id@, idle()),
        node_ids(node_views(final(nodes)@)) == node_ids(node_views(old(nodes)@)),
        node_ids_unique(node_views(old(nodes)@)) ==> node_ids_unique(node_views(final(nodes)@)),
{
    set_node_status(nodes, node_id, "idle")
}

/// Takes in the result of a job.
///
/// Where no job has the id, fails with `JobNotFound` and changes nothing.
/// Otherwise the first job with the id becomes completed with the given
/// hash, whatever its status was (a pending job is completed without ever
/// having been assigned, and a completed job is completed again), the first
/// node with the given node id becomes idle if there is one, and the job is
/// returned as it now stands.
///
/// The change is made before the ledger hears of the result, and stays
/// whatever the ledger then answers.
pub fn submit_job_result(
    jobs: &mut Vec<Job>,
    nodes: &mut Vec<Node>,
    job_id: &str,
    result: &JobResult,
) -> (r: Result<Job, SchedulerError>)
    ensures
        r is Ok <==> has_job(job_views(old(jobs)@), job_id@),
        r matches Err(e) ==> e == SchedulerError::JobNotFound && final(jobs)@ == old(jobs)@
            && final(nodes)@ == old(nodes)@,
        r matches Ok(job) ==> {
            let before = job_views(old(jobs)@);
            &&& job@ == before[job_position(before, job_id@)].completed_with(result.result_hash@)
            &&& node_views(final(nodes)@) == nodes_with_status(
                node_views(old(nodes)@),
                result.node_id@,
                idle(),
            )
        },
        store_view(final(jobs)@, final(nodes)@) == step(
            store_view(old(jobs)@, old(nodes)@),
            (Operation::SubmitResult {
                job_id: job_id@,
                node_id: result.node_id@,
                result_hash: result.result_hash@,
            }),
        ),
        job_ids(job_views(final(jobs)@)) == job_ids(job_views(old(jobs)@)),
        node_ids(node_views(final(nodes)@)) == node_ids(node_views(old(nodes)@)),
        job_ids_unique(job_views(old(jobs)@)) ==> job_ids_unique(job_views(final(jobs)@)),
        node_ids_unique(node_views(old(nodes)@)) ==> node_ids_unique(node_views(final(nodes)@)),
{
    match find_job(jobs, job_id) {
        None => Err(SchedulerError::JobNotFound),
        Some(i) => {
            proof {
                lemma_job_position(job_views(jobs@), job_id@, i as int);
            }
            update_job_state_to_completed(&mut jobs[i], result.result_hash.as_str());
            update_node_status(nodes, result.node_id.as_str());
            let job = jobs[i].clone();
            proof {
                let before = job_views(old(jobs)@);
                let after = before.update(i as int, job@);
                assert(job_views(jobs@) =~= after);
                lemma_update_job_keeps_ids(before, i as int, job@);
            }
            Ok(job)
        },
    }
}

/// A request to assign a provider to a job.
#[derive(Debug, PartialEq, Eq)]
pub struct AssignRequest {
    pub job_id: String,
    pub address: Option<String>,
}

impl Clone for AssignRequest {
    fn clone(&self) -> (r: AssignRequest)
        ensures
            r == *self,
    {
        AssignRequest { job_id: self.job_id.clone(), address: self.address.clone() }
    }
}

/// An assignment that waits for the ledger: the job, the wallet of the
/// provider, and the node that was selected.
#[derive(Debug, PartialEq, Eq)]
pub struct Assignment {
    pub job_id: String,
    pub wallet: WalletAddress,
    pub node: Node,
}

/// Mathematical model of an [`Assignment`].
pub struct AssignmentView {
    pub job_id: Seq<char>,
    pub wallet: WalletAddressView,
    pub node: NodeView,
}

impl View for Assignment {
    type V = AssignmentView;

    open spec fn view(&self) -> AssignmentView {
        AssignmentView { job_id: self.job_id@, wallet: self.wallet@, node: self.node@ }
    }
}

/// What a committed assignment answers: the job and the node as they stand
/// after it.
#[derive(Debug, PartialEq, Eq)]
pub struct AssignResponse {
    pub success: bool,
    pub job: Job,
    pub node: Node,
}

/// Mathematical model of an [`AssignResponse`].
pub struct AssignResponseView {
    pub success: bool,
    pub job: JobView,
    pub node: NodeView,
}

impl View for AssignResponse {
    type V = AssignResponseView;

    open spec fn view(&self) -> AssignResponseView {
        AssignResponseView { success: self.success, job: self.job@, node: self.node@ }
    }
}

/// Validates the settlement address of a request: `WalletRequired` where it
/// is missing or empty, `InvalidWallet` where it does not parse, else the
/// wallet with the text as sent.
pub fn validate_wallet(req: &AssignRequest) -> (r: Result<WalletAddress, SchedulerError>)
    ensures
        verdict_view(r) == validated(text_of(req.address)),
        r matches Ok(wallet) ==> wallet@.well_formed(),
{
    match &req.address {
        None => Err(SchedulerError::WalletRequired),
        Some(text) => {
            if text.as_str().is_empty() {
                Err(SchedulerError::WalletRequired)
            } else {
                checked_wallet(text, parse_address(text.as_str()))
            }
        },
    }
}

/// What looking up a job and selecting a node for it gives: `JobNotFound`
/// where no job has the id, `JobNotPending` where the first job with the id
/// has left the pending status, else the first eligible node, if any.
pub open spec fn selection(jobs: Seq<JobView>, nodes: Seq<NodeView>, job_id: Seq<char>) -> Result<
    Option<NodeView>,
    SchedulerError,
> {
    if !has_job(jobs, job_id) {
        Err(SchedulerError::JobNotFound)
    } else {
        let job = jobs[job_position(jobs, job_id)];
        if job.status != pending() {
            Err(SchedulerError::JobNotPending)
        } else if has_eligible(nodes, job) {
            Ok(Some(nodes[selected_position(nodes, job)]))
        } else {
            Ok(None)
        }
    }
}

/// Model of a selection result.
pub open spec fn selection_view(r: Result<Option<Node>, SchedulerError>) -> Result<
    Option<NodeView>,
    SchedulerError,
> {
    match r {
        Ok(Some(node)) => Ok(Some(node@)),
        Ok(None) => Ok(None),
        Err(e) => Err(e),
    }
}

/// Looks up a pending job and selects a node for it. Nothing is changed.
pub fn find_and_select_node(jobs: &Vec<Job>, nodes: &Vec<Node>, job_id: &str) -> (r: Result<
    Option<Node>,
    SchedulerError,
>)
    ensures
        selection_view(r) == selection(job_views(jobs@), node_views(nodes@), job_id@),
        r matches Ok(Some(node)) ==> {
            let at = job_position(job_views(jobs@), job_id@);
            &&& first_job(job_views(jobs@), job_id@, at)
            &&& eligible(node@, job_views(jobs@)[at])
        },
{
    match find_job(jobs, job_id) {
        None => Err(SchedulerError::JobNotFound),
        Some(i) => {
            proof {
                lemma_job_position(job_views(jobs@), job_id@, i as int);
            }
            let job = &jobs[i];
            if job.status != "pending".to_owned() {
                return Err(SchedulerError::JobNotPending);
            }
            Ok(select_node_for_job(job, nodes))
        },
    }
}

/// The assignment that a request opens: the failure of the address, else the
/// failure of the selection, else `NoEligibleNode` where no node can take the
/// job, else the job, the wallet and the selected node.
pub open spec fn assignment_plan(
    address: Option<Seq<char>>,
    jobs: Seq<JobView>,
    nodes: Seq<NodeView>,
    job_id: Seq<char>,
) -> Result<AssignmentView, SchedulerError> {
    match validated(address) {
        Err(e) => Err(e),
        Ok(wallet) => match selection(jobs, nodes, job_id) {
            Err(e) => Err(e),
            Ok(None) => Err(SchedulerError::NoEligibleNode),
            Ok(Some(node)) => Ok(AssignmentView { job_id, wallet, node }),
        },
    }
}

/// Model of an opened assignment.
pub open spec fn plan_view(r: Result<Assignment, SchedulerError>) -> Result<
    AssignmentView,
    SchedulerError,
> {
    match r {
        Ok(assignment) => Ok(assignment@),
        Err(e) => Err(e),
    }
}

/// Opens an assignment: validates the address, looks up the job, which must
/// be pending, and selects a node. Nothing is changed: the job stays pending
/// and the node idle until the ledger has confirmed the assignment and
/// [`confirm_assignment`] applies it.
pub fn assign_provider(req: &AssignRequest, jobs: &Vec<Job>, nodes: &Vec<Node>) -> (r: Result<
    Assignment,
    SchedulerError,
>)
    ensures
        plan_view(r) == assignment_plan(
            text_of(req.address),
            job_views(jobs@),
            node_views(nodes@),
            req.job_id@,
        ),
        r matches Ok(assignment) ==> {
            let at = job_position(job_views(jobs@), req.job_id@);
            &&& assignment@.wallet.well_formed()
            &&& first_job(job_views(jobs@), req.job_id@, at)
            &&& eligible(assignment@.node, job_views(jobs@)[at])
        },
{
    let wallet = match validate_wallet(req) {
        Ok(wallet) => wallet,
        Err(e) => {
            return Err(e);
        },
    };
    match find_and_select_node(jobs, nodes, req.job_id.as_str()) {
        Err(e) => Err(e),
        Ok(None) => Err(SchedulerError::NoEligibleNode),
        Ok(Some(node)) => Ok(Assignment { job_id: req.job_id.clone(), wallet, node }),
    }
}

/// The collection with the first job that has the id assigned to the node
/// for the address; the collection itself where no job has the id.
pub open spec fn jobs_with_assignment(
    jobs: Seq<JobView>,
    id: Seq<char>,
    node_id: Seq<char>,
    address: Seq<char>,
) -> Seq<JobView> {
    if has_job(jobs, id) {
        let i = job_position(jobs, id);
        jobs.update(i, jobs[i].assigned_to(node_id, address))
    } else {
        jobs
    }
}

/// Applies an assignment: the first job with the id becomes assigned to the
/// selected node for the wallet, and the first node with the id of the
/// selected node becomes busy, if there is one. Returns the job as it now
/// stands and the selected node as busy. Where no job has the id, returns
/// `None` and changes nothing.
///
/// The status of the job is not looked at: a job that has left the pending
/// status since the node was selected is assigned all the same.
pub fn update_job_and_node_state(
    jobs: &mut Vec<Job>,
    nodes: &mut Vec<Node>,
    job_id: &str,
    wallet: &WalletAddress,
    selected_node: &Node,
) -> (r: Option<AssignResponse>)
    ensures
        r is Some <==> has_job(job_views(old(jobs)@), job_id@),
        r is None ==> final(jobs)@ == old(jobs)@ && final(nodes)@ == old(nodes)@,
        r matches Some(response) ==> {
            let before = job_views(old(jobs)@);
            &&& response@ == (AssignResponseView {
                success: true,
                job: before[job_position(before, job_id@)].assigned_to(
                    selected_node@.node_id,
                    wallet@.text,
                ),
                node: selected_node@.with_status(busy()),
            })
            &&& node_views(final(nodes)@) == nodes_with_status(
                node_views(old(nodes)@),
                selected_node@.node_id,
                busy(),
            )
            &&& before[job_position(before, job_id@)].status == pending()
                && before[job_position(before, job_id@)].well_formed()
                ==> response@.job.well_formed()
        },
        job_views(final(jobs)@) == jobs_with_assignment(
            job_views(old(jobs)@),
            job_id@,
            selected_node@.node_id,
            wallet@.text,
        ),
        job_ids(job_views(final(jobs)@)) == job_ids(job_views(old(jobs)@)),
        node_ids(node_views(final(nodes)@)) == node_ids(node_views(old(nodes)@)),
        job_ids_unique(job_views(old(jobs)@)) ==> job_ids_unique(job_views(final(jobs)@)),
        node_ids_unique(node_views(old(nodes)@)) ==> node_ids_unique(node_views(final(nodes)@)),
{
    match find_job(jobs, job_id) {
        None => None,
        Some(i) => {
            proof {
                lemma_job_position(job_views(jobs@), job_id@, i as int);
                lemma_status_texts_distinct();
            }
            jobs[i].provider_address = Some(wallet.text.clone());
            jobs[i].assigned_node = Some(selected_node.node_id.clone());
            jobs[i].status = "assigned".to_owned();
            set_node_status(nodes, selected_node.node_id.as_str(), "busy");
            let job = jobs[i].clone();
            let mut node = selected_node.clone();
            node.status = "busy".to_owned();
            proof {
                let before = job_views(old(jobs)@);
                assert(job_views(jobs@) =~= before.update(i as int, job@));
                lemma_update_job_keeps_ids(before, i as int, job@);
            }
            Some(AssignResponse { success: true, job, node })
        },
    }
}

/// Ends an assignment by the outcome of its ledger call.
///
/// A call that was not confirmed fails the assignment with the failure that
/// [`assign_on_chain`] reports, and nothing is changed: the job stays as it
/// was and the node is not touched. A confirmed call is applied as
/// [`update_job_and_node_state`] says; where the job is no longer in the
/// collection, the assignment fails with `JobNotFound` and nothing is
/// changed.
pub fn confirm_assignment(
    jobs: &mut Vec<Job>,
    nodes: &mut Vec<Node>,
    assignment: &Assignment,
    reply: Result<(), LedgerFailure>,
) -> (r: Result<AssignResponse, SchedulerError>)
    ensures
        r is Ok <==> reply is Ok && has_job(job_views(old(jobs)@), assignment@.job_id),
        r matches Err(e) ==> {
            &&& final(jobs)@ == old(jobs)@
            &&& final(nodes)@ == old(nodes)@
            &&& e == match reply {
                Err(failure) => assignment_error(failure),
                Ok(_) => SchedulerError::JobNotFound,
            }
        },
        r matches Ok(response) ==> {
            let before = job_views(old(jobs)@);
            &&& response@ == (AssignResponseView {
                success: true,
                job: before[job_position(before, assignment@.job_id)].assigned_to(
                    assignment@.node.node_id,
                    assignment@.wallet.text,
                ),
                node: assignment@.node.with_status(busy()),
            })
            &&& store_view(final(jobs)@, final(nodes)@) == step(
                store_view(old(jobs)@, old(nodes)@),
                (Operation::ConfirmAssignment {
                    job_id: assignment@.job_id,
                    node_id: assignment@.node.node_id,
                    address: assignment@.wallet.text,
                }),
            )
        },
        job_ids(job_views(final(jobs)@)) == job_ids(job_views(old(jobs)@)),
        node_ids(node_views(final(nodes)@)) == node_ids(node_views(old(nodes)@)),
        job_ids_unique(job_views(old(jobs)@)) ==> job_ids_unique(job_views(final(jobs)@)),
        node_ids_unique(node_views(old(nodes)@)) ==> node_ids_unique(node_views(final(nodes)@)),
{
    match assign_on_chain(reply) {
        Err(e) => Err(e),
        Ok(_) => {
            match update_job_and_node_state(
                jobs,
                nodes,
                assignment.job_id.as_str(),
                &assignment.wallet,
                &assignment.node,
            ) {
                Some(response) => Ok(response),
                None => Err(SchedulerError::JobNotFound),
            }
        },
    }
}

/// The jobs that a stored node could serve, given the stored node record
/// or the reason why it could not be had.
///
/// Fails with `StorageReadFailed` or `StorageParseFailed` where the record
/// could not be had, and with `NodeNotFound` where no stored node has the
/// id. Otherwise gives the jobs, in the collection's order, that require
/// exactly the capability that the first stored node with the id offers. The
/// status of the jobs and of the node plays no part.
pub fn get_node_jobs(
    node_id: &str,
    stored: &Result<Vec<Node>, StorageFailure>,
    jobs: &Vec<Job>,
) -> (r: Result<Vec<Job>, SchedulerError>)
    ensures
        match *stored {
            Err(failure) => r == Err::<Vec<Job>, SchedulerError>(
                SchedulerError::spec_from_storage(failure),
            ),
            Ok(stored_nodes) => {
                let nodes = node_views(stored_nodes@);
                if has_node(nodes, node_id@) {
                    let tag = nodes[node_position(nodes, node_id@)].gpu_specs;
                    r matches Ok(found) && job_views(found@) == job_views(jobs@).filter(
                        |job: JobView| job.required_specs == tag,
                    )
                } else {
                    r == Err::<Vec<Job>, SchedulerError>(SchedulerError::NodeNotFound)
                }
            },
        },
{
    let stored_nodes = match stored {
        Err(failure) => {
            return Err(SchedulerError::from_storage(*failure));
        },
        Ok(stored_nodes) => stored_nodes,
    };
    let at = match find_node(stored_nodes, node_id) {
        None => {
            return Err(SchedulerError::NodeNotFound);
        },
        Some(at) => at,
    };
    proof {
        lemma_node_position(node_views(stored_nodes@), node_id@, at as int);
    }
    let node = &stored_nodes[at];
    let ghost tag = node@.gpu_specs;
    let ghost wanted = |job: JobView| job.required_specs == tag;
    let mut found: Vec<Job> = Vec::new();
    let mut i: usize = 0;
    proof {
        reveal(Seq::filter);
        assert(job_views(jobs@).take(0).filter(wanted) =~= job_views(found@));
    }
    while i < jobs.len()
        invariant
            i <= jobs.len(),
            tag == node@.gpu_specs,
            wanted == |job: JobView| job.required_specs == tag,
            job_views(found@) == job_views(jobs@).take(i as int).filter(wanted),
        decreases jobs.len() - i,
    {
        let ghost before = job_views(found@);
        if jobs[i].required_specs == node.gpu_specs {
            found.push(jobs[i].clone());
        }
        proof {
            reveal(Seq::filter);
            let views = job_views(jobs@);
            assert(views.take(i + 1).drop_last() =~= views.take(i as int));
            assert(views.take(i + 1).last() == views[i as int]);
            if wanted(views[i as int]) {
                assert(job_views(found@) =~= before.push(views[i as int]));
            }
        }
        i += 1;
    }
    proof {
        assert(job_views(jobs@).take(jobs.len() as int) =~= job_views(jobs@));
    }
    Ok(found)
}

} // verus!
