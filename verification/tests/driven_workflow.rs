use poll_core::driven_workflow::{
    CancelWorkflow, DrivenWorkflow, JobVariant, OtherJob, SignalWorkflow, StartedAttributes,
    WfCommand, WorkflowFetcher,
};

struct FixedFetcher {
    payloads: Vec<String>,
}

impl WorkflowFetcher for FixedFetcher {
    fn fetch_workflow_iteration_output(&mut self) -> Vec<WfCommand> {
        let mut out = Vec::new();
        for p in &self.payloads {
            out.push(WfCommand { payload: p.clone() });
        }
        out
    }
}

fn attrs(workflow_type: &str, original_run_id: &str, arguments: &str) -> StartedAttributes {
    StartedAttributes {
        workflow_type: workflow_type.to_string(),
        original_run_id: original_run_id.to_string(),
        arguments: arguments.to_string(),
    }
}

fn empty_fetcher() -> FixedFetcher {
    FixedFetcher { payloads: Vec::new() }
}

#[test]
fn fifo_job_delivery() {
    let mut wf = DrivenWorkflow::new(empty_fetcher());
    assert!(!wf.has_pending_jobs());

    wf.start("wid-1".to_string(), 42, attrs("my_workflow", "run-1", "args"));
    wf.signal(SignalWorkflow {
        signal_name: "sig-a".to_string(),
        input: "in-a".to_string(),
    });
    wf.cancel(CancelWorkflow { details: "bye".to_string() });
    wf.send_job(JobVariant::SignalWorkflow(SignalWorkflow {
        signal_name: "sig-b".to_string(),
        input: "in-b".to_string(),
    }));
    // A job kind this core does not know travels through untouched.
    wf.send_job(JobVariant::Other(OtherJob { payload: "timer-fired".to_string() }));
    assert!(wf.has_pending_jobs());

    let jobs = wf.drain_jobs();
    assert_eq!(jobs.len(), 5);
    match jobs[0].variant.as_ref().unwrap() {
        JobVariant::StartWorkflow(s) => {
            assert_eq!(s.workflow_id, "wid-1");
            assert_eq!(s.randomness_seed, 42);
            assert_eq!(s.attributes, attrs("my_workflow", "run-1", "args"));
        }
        other => panic!("expected a start job, got {:?}", other),
    }
    match jobs[1].variant.as_ref().unwrap() {
        JobVariant::SignalWorkflow(s) => {
            assert_eq!(s.signal_name, "sig-a");
            assert_eq!(s.input, "in-a");
        }
        other => panic!("expected a signal job, got {:?}", other),
    }
    match jobs[2].variant.as_ref().unwrap() {
        JobVariant::CancelWorkflow(c) => assert_eq!(c.details, "bye"),
        other => panic!("expected a cancel job, got {:?}", other),
    }
    match jobs[3].variant.as_ref().unwrap() {
        JobVariant::SignalWorkflow(s) => assert_eq!(s.signal_name, "sig-b"),
        other => panic!("expected a signal job, got {:?}", other),
    }
    match jobs[4].variant.as_ref().unwrap() {
        JobVariant::Other(o) => assert_eq!(o.payload, "timer-fired"),
        other => panic!("expected the opaque job, got {:?}", other),
    }

    // A second drain with nothing sent in between returns an empty sequence.
    assert!(!wf.has_pending_jobs());
    let again = wf.drain_jobs();
    assert!(again.is_empty());
}

#[test]
fn started_attrs_none_before_start() {
    let wf = DrivenWorkflow::new(empty_fetcher());
    assert!(wf.get_started_attrs().is_none());
}

#[test]
fn started_attrs_follow_most_recent_start() {
    let mut wf = DrivenWorkflow::new(empty_fetcher());

    wf.start("wid-1".to_string(), 1, attrs("wt", "run-1", "first"));
    assert_eq!(wf.get_started_attrs().unwrap(), &attrs("wt", "run-1", "first"));

    // A second start is a caller-contract violation this layer does not turn
    // into an error: the stored attributes are overwritten and a second start
    // job is enqueued.
    wf.start("wid-1".to_string(), 2, attrs("wt", "run-2", "second"));
    assert_eq!(wf.get_started_attrs().unwrap(), &attrs("wt", "run-2", "second"));
    let jobs = wf.drain_jobs();
    assert_eq!(jobs.len(), 2);
    assert!(matches!(
        jobs[1].variant.as_ref().unwrap(),
        JobVariant::StartWorkflow(s) if s.attributes.original_run_id == "run-2"
    ));
    assert_eq!(wf.get_started_attrs().unwrap(), &attrs("wt", "run-2", "second"));
}

#[test]
fn has_pending_jobs_reflects_queue() {
    let mut wf = DrivenWorkflow::new(empty_fetcher());
    assert!(!wf.has_pending_jobs());
    wf.send_job(JobVariant::CancelWorkflow(CancelWorkflow { details: String::new() }));
    assert!(wf.has_pending_jobs());
    let _ = wf.drain_jobs();
    assert!(!wf.has_pending_jobs());
}

#[test]
fn fetch_output_passes_through() {
    let fetcher = FixedFetcher {
        payloads: vec!["cmd-1".to_string(), "cmd-2".to_string()],
    };
    let mut wf = DrivenWorkflow::new(fetcher);
    wf.start("wid-1".to_string(), 7, attrs("wt", "run-1", "args"));
    wf.send_job(JobVariant::Other(OtherJob { payload: "tick".to_string() }));

    let out = wf.fetch_workflow_iteration_output();
    assert_eq!(out.len(), 2);
    assert_eq!(out[0].payload, "cmd-1");
    assert_eq!(out[1].payload, "cmd-2");

    // The fetch leaves the job queue and the started attributes untouched.
    assert_eq!(wf.get_started_attrs().unwrap(), &attrs("wt", "run-1", "args"));
    let jobs = wf.drain_jobs();
    assert_eq!(jobs.len(), 2);
    assert!(matches!(
        jobs[1].variant.as_ref().unwrap(),
        JobVariant::Other(o) if o.payload == "tick"
    ));
}

#[test]
fn fetch_output_composes_through_layers() {
    // A driven workflow is itself a fetcher, so wrappers can be layered.
    let inner = DrivenWorkflow::new(FixedFetcher {
        payloads: vec!["cmd".to_string()],
    });
    let mut outer = DrivenWorkflow::new(inner);
    let out = outer.fetch_workflow_iteration_output();
    assert_eq!(out.len(), 1);
    assert_eq!(out[0].payload, "cmd");
}
