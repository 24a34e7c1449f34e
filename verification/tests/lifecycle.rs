use scheduler::error::SchedulerError;
use scheduler::jobs::add_job;
use scheduler::models::{Job, Node};
use scheduler::nodes::{
    assign_provider, confirm_assignment, register_node, submit_job_result,
    update_job_and_node_state, update_job_state_to_completed, update_node_status, AssignRequest,
    JobResult,
};
use scheduler::wallet::WalletAddress;

const ADDR: &str = "0x00000000000000000000000000000000000000ff";

fn job(id: &str, specs: &str) -> Job {
    Job::with_timestamp(
        id.to_string(),
        "alice".to_string(),
        "dataset".to_string(),
        "container".to_string(),
        0,
        "later".to_string(),
        specs.to_string(),
        64,
        "now".to_string(),
    )
}

fn node(id: &str, specs: &str, status: &str) -> Node {
    Node {
        node_id: id.to_string(),
        gpu_name: None,
        gpu_specs: specs.to_string(),
        owner: None,
        memory: 8,
        status: status.to_string(),
        active: true,
    }
}

fn rank(status: &str) -> u8 {
    match status {
        "pending" => 0,
        "assigned" => 1,
        "completed" => 2,
        other => panic!("unknown status {}", other),
    }
}

fn unique(ids: Vec<String>) -> bool {
    let mut seen = ids.clone();
    seen.sort();
    seen.dedup();
    seen.len() == ids.len()
}

#[test]
fn new_job_is_pending_and_bare() {
    let j = Job::new(
        "J1".to_string(),
        "alice".to_string(),
        "data".to_string(),
        "image".to_string(),
        2.5f64.to_bits(),
        "2030-01-01".to_string(),
        "A100".to_string(),
        4096,
    );
    assert_eq!(j.job_id, "J1");
    assert_eq!(j.owner, "alice");
    assert_eq!(j.dataset_cid, "data");
    assert_eq!(j.container_cid, "image");
    assert_eq!(f64::from_bits(j.bounty), 2.5);
    assert_eq!(j.deadline, "2030-01-01");
    assert_eq!(j.required_specs, "A100");
    assert_eq!(j.min_memory, 4096);
    assert_eq!(j.status, "pending");
    assert_eq!(j.assigned_node, None);
    assert_eq!(j.provider_address, None);
    assert_eq!(j.result_hash, None);
    assert_eq!(j.retries, 0);
    assert!(!j.completed);
    // RFC 3339: date, 'T', time, offset
    assert!(j.created_at.len() >= 20);
    assert_eq!(&j.created_at[4..5], "-");
    assert_eq!(&j.created_at[10..11], "T");
    assert!(j.created_at.ends_with("+00:00"));
}

#[test]
fn with_timestamp_keeps_the_instant() {
    let j = job("J1", "A100");
    assert_eq!(j.created_at, "now");
    assert_eq!(j.clone(), j);
}

#[test]
fn add_job_appends_as_is() {
    let mut jobs = vec![job("J1", "A100")];
    let mut odd = job("J2", "V100");
    odd.status = "completed".to_string();
    odd.retries = 3;
    odd.completed = true;
    add_job(&mut jobs, odd.clone());
    assert_eq!(jobs, vec![job("J1", "A100"), odd]);
}

#[test]
fn add_job_does_not_reject_a_repeated_id() {
    let mut jobs = vec![job("J1", "A100")];
    add_job(&mut jobs, job("J1", "V100"));
    assert_eq!(jobs.len(), 2);
    assert!(!unique(jobs.iter().map(|j| j.job_id.clone()).collect()));
}

#[test]
fn ids_stay_unique_over_a_run_of_operations() {
    let mut jobs: Vec<Job> = Vec::new();
    let mut nodes: Vec<Node> = Vec::new();
    add_job(&mut jobs, job("J1", "A100"));
    add_job(&mut jobs, job("J2", "A100"));
    add_job(&mut jobs, job("J3", "V100"));
    register_node(&mut nodes, node("N1", "A100", ""));
    register_node(&mut nodes, node("", "A100", ""));
    register_node(&mut nodes, node("", "V100", ""));
    for id in ["J1", "J2", "J3"] {
        let req = AssignRequest { job_id: id.to_string(), address: Some(ADDR.to_string()) };
        let a = assign_provider(&req, &jobs, &nodes).unwrap();
        confirm_assignment(&mut jobs, &mut nodes, &a, Ok(())).unwrap();
        let job_ids: Vec<String> = jobs.iter().map(|j| j.job_id.clone()).collect();
        assert_eq!(job_ids, vec!["J1", "J2", "J3"]);
        assert!(unique(nodes.iter().map(|n| n.node_id.clone()).collect()));
    }
    for (i, id) in ["J2", "J1", "J3"].iter().enumerate() {
        let node_id = jobs.iter().find(|j| j.job_id == *id).unwrap().assigned_node.clone().unwrap();
        let result = JobResult { node_id, result_hash: format!("h{}", i) };
        submit_job_result(&mut jobs, &mut nodes, id, &result).unwrap();
        let job_ids: Vec<String> = jobs.iter().map(|j| j.job_id.clone()).collect();
        assert_eq!(job_ids, vec!["J1", "J2", "J3"]);
        assert!(unique(nodes.iter().map(|n| n.node_id.clone()).collect()));
        assert_eq!(nodes.len(), 3);
    }
    assert!(jobs.iter().all(|j| j.status == "completed"));
    assert!(nodes.iter().all(|n| n.status == "idle"));
}

#[test]
fn status_moves_forward_only() {
    let mut jobs = vec![job("J1", "A100")];
    let mut nodes = vec![node("N1", "A100", "idle")];
    let mut seen = vec![rank(&jobs[0].status)];

    let req = AssignRequest { job_id: "J1".to_string(), address: Some(ADDR.to_string()) };
    let a = assign_provider(&req, &jobs, &nodes).unwrap();
    seen.push(rank(&jobs[0].status));
    confirm_assignment(&mut jobs, &mut nodes, &a, Ok(())).unwrap();
    seen.push(rank(&jobs[0].status));
    // an assigned job cannot be assigned again
    assert_eq!(assign_provider(&req, &jobs, &nodes), Err(SchedulerError::JobNotPending));
    seen.push(rank(&jobs[0].status));
    let result = JobResult { node_id: "N1".to_string(), result_hash: "h".to_string() };
    submit_job_result(&mut jobs, &mut nodes, "J1", &result).unwrap();
    seen.push(rank(&jobs[0].status));
    // nor can a completed one
    assert_eq!(assign_provider(&req, &jobs, &nodes), Err(SchedulerError::JobNotPending));
    seen.push(rank(&jobs[0].status));

    assert_eq!(seen, vec![0, 0, 1, 1, 2, 2]);
}

#[test]
fn result_on_a_pending_job_skips_assigned() {
    let mut jobs = vec![job("J1", "A100")];
    let mut nodes = vec![node("N1", "A100", "idle")];
    let result = JobResult { node_id: "N1".to_string(), result_hash: "h".to_string() };
    let done = submit_job_result(&mut jobs, &mut nodes, "J1", &result).unwrap();
    assert_eq!(done.status, "completed");
    assert_eq!(done.result_hash, Some("h".to_string()));
    assert_eq!(done.assigned_node, None);
    assert_eq!(done.provider_address, None);
    assert_eq!(jobs, vec![done]);
}

#[test]
fn a_second_result_is_accepted_and_replaces_the_hash() {
    let mut jobs = vec![job("J1", "A100")];
    let mut nodes = vec![node("N1", "A100", "busy")];
    let first = JobResult { node_id: "N1".to_string(), result_hash: "h1".to_string() };
    let second = JobResult { node_id: "N1".to_string(), result_hash: "h2".to_string() };
    submit_job_result(&mut jobs, &mut nodes, "J1", &first).unwrap();
    let done = submit_job_result(&mut jobs, &mut nodes, "J1", &second).unwrap();
    assert_eq!(done.status, "completed");
    assert_eq!(done.result_hash, Some("h2".to_string()));
    assert_eq!(nodes[0].status, "idle");
}

#[test]
fn result_for_unknown_job_changes_nothing() {
    let mut jobs = vec![job("J1", "A100")];
    let mut nodes = vec![node("N1", "A100", "busy")];
    let result = JobResult { node_id: "N1".to_string(), result_hash: "h".to_string() };
    let r = submit_job_result(&mut jobs, &mut nodes, "J2", &result);
    assert_eq!(r, Err(SchedulerError::JobNotFound));
    assert_eq!(jobs, vec![job("J1", "A100")]);
    assert_eq!(nodes, vec![node("N1", "A100", "busy")]);
}

#[test]
fn result_with_unknown_node_still_completes_the_job() {
    let mut jobs = vec![job("J1", "A100")];
    let mut nodes = vec![node("N1", "A100", "busy")];
    let result = JobResult { node_id: "N9".to_string(), result_hash: "h".to_string() };
    let done = submit_job_result(&mut jobs, &mut nodes, "J1", &result).unwrap();
    assert_eq!(done.status, "completed");
    assert_eq!(nodes, vec![node("N1", "A100", "busy")]);
}

#[test]
fn result_touches_only_the_first_job_with_the_id() {
    let mut jobs = vec![job("J0", "A100"), job("J1", "A100"), job("J1", "V100")];
    let mut nodes: Vec<Node> = Vec::new();
    let result = JobResult { node_id: "".to_string(), result_hash: "h".to_string() };
    submit_job_result(&mut jobs, &mut nodes, "J1", &result).unwrap();
    assert_eq!(jobs[0], job("J0", "A100"));
    assert_eq!(jobs[1].status, "completed");
    assert_eq!(jobs[2], job("J1", "V100"));
}

#[test]
fn node_status_helpers() {
    let mut nodes = vec![node("N1", "A100", "busy"), node("N2", "A100", "busy"), node("N2", "V100", "busy")];
    update_node_status(&mut nodes, "N2");
    assert_eq!(nodes, vec![node("N1", "A100", "busy"), node("N2", "A100", "idle"), node("N2", "V100", "busy")]);
    update_node_status(&mut nodes, "N3");
    assert_eq!(nodes, vec![node("N1", "A100", "busy"), node("N2", "A100", "idle"), node("N2", "V100", "busy")]);

    let mut j = job("J1", "A100");
    update_job_state_to_completed(&mut j, "abc");
    let mut expected = job("J1", "A100");
    expected.status = "completed".to_string();
    expected.result_hash = Some("abc".to_string());
    expected.completed = true;
    assert_eq!(j, expected);
}

#[test]
fn applying_an_assignment_directly() {
    let wallet = WalletAddress { text: ADDR.to_string(), bytes: [0u8; 20] };
    let mut jobs = vec![job("J1", "A100")];
    let mut nodes = vec![node("N1", "A100", "idle")];
    let r = update_job_and_node_state(&mut jobs, &mut nodes, "J2", &wallet, &node("N1", "A100", "idle"));
    assert_eq!(r, None);
    assert_eq!(jobs, vec![job("J1", "A100")]);
    assert_eq!(nodes, vec![node("N1", "A100", "idle")]);

    // a selected node that the collection no longer holds leaves the nodes alone
    let r = update_job_and_node_state(&mut jobs, &mut nodes, "J1", &wallet, &node("N7", "A100", "idle")).unwrap();
    assert_eq!(r.job.assigned_node, Some("N7".to_string()));
    assert_eq!(r.node, node("N7", "A100", "busy"));
    assert_eq!(jobs[0].status, "assigned");
    assert_eq!(nodes, vec![node("N1", "A100", "idle")]);
}
