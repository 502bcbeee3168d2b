//! One workflow execution's pending inbound work and its mechanism for
//! retrieving outbound results.
//!
//! A [`DrivenWorkflow`] wraps a pluggable execution backend (anything that
//! implements [`WorkflowFetcher`]), keeps a FIFO queue of activation jobs that
//! still have to be delivered to that backend, and records the start-time
//! attributes of the execution. It never executes workflow logic itself.

use vstd::prelude::*;

verus! {

/// The attributes recorded when a workflow execution starts: an immutable
/// record, stored once by [`DrivenWorkflow::start`] and read back by
/// [`DrivenWorkflow::get_started_attrs`]. The payload fields are opaque to
/// this core; it only stores and forwards them.
#[derive(Debug, PartialEq, Eq)]
pub struct StartedAttributes {
    /// Name of the workflow definition to run.
    pub workflow_type: String,
    /// Run id of the first execution in the chain.
    pub original_run_id: String,
    /// Opaque encoded arguments handed to the workflow code.
    pub arguments: String,
}

impl Clone for StartedAttributes {
    fn clone(&self) -> (r: Self)
        ensures
            r == *self,
    {
        StartedAttributes {
            workflow_type: self.workflow_type.clone(),
            original_run_id: self.original_run_id.clone(),
            arguments: self.arguments.clone(),
        }
    }
}

/// Payload of a start-workflow activation job.
#[derive(Debug, PartialEq, Eq)]
pub struct StartWorkflow {
    /// Caller-chosen identifier of the execution being started.
    pub workflow_id: String,
    /// Seed for the execution's deterministic pseudo-randomness.
    pub randomness_seed: u64,
    /// The start-time attributes the job was built from.
    pub attributes: StartedAttributes,
}

/// Payload of a signal-workflow activation job.
#[derive(Debug, PartialEq, Eq)]
pub struct SignalWorkflow {
    /// Name of the signal handler to invoke.
    pub signal_name: String,
    /// Opaque encoded signal input.
    pub input: String,
}

/// Payload of a cancel-workflow activation job.
#[derive(Debug, PartialEq, Eq)]
pub struct CancelWorkflow {
    /// Opaque encoded cancellation details.
    pub details: String,
}

/// Payload of any other job kind of the wider activation protocol (timers
/// firing, activities resolving, queries, and whatever the protocol adds):
/// this core stores and forwards it without looking inside.
#[derive(Debug, PartialEq, Eq)]
pub struct OtherJob {
    /// Opaque encoded job.
    pub payload: String,
}

/// One unit of inbound work for a workflow execution. This core treats the
/// payloads as opaque tagged values it only stores and forwards.
#[derive(Debug, PartialEq, Eq)]
pub enum JobVariant {
    /// Start the execution.
    StartWorkflow(StartWorkflow),
    /// Deliver a signal to the execution.
    SignalWorkflow(SignalWorkflow),
    /// Request cancellation of the execution.
    CancelWorkflow(CancelWorkflow),
    /// Any other job kind of the activation protocol, forwarded opaquely.
    Other(OtherJob),
}

/// An activation job as delivered downstream by [`DrivenWorkflow::drain_jobs`]:
/// a wrapper around the variant, mirroring the activation protocol's envelope.
#[derive(Debug, PartialEq, Eq)]
pub struct WorkflowActivationJob {
    /// The job carried by this envelope.
    pub variant: Option<JobVariant>,
}

/// One unit of outbound intent produced by workflow execution logic, collected
/// per iteration. Opaque to this core.
#[derive(Debug, PartialEq, Eq)]
pub struct WfCommand {
    /// Opaque encoded command.
    pub payload: String,
}

/// A way to fetch output from executing or iterating some workflow code (or a
/// mocked workflow). Implementations are expected to buffer output or produce
/// it on demand when this function is called; any waiting for output to become
/// ready belongs to the implementation, outside this crate.
pub trait WorkflowFetcher {
    /// Obtain any output from the workflow's recent execution(s).
    fn fetch_workflow_iteration_output(&mut self) -> Vec<WfCommand>;
}

/// Abstracts away the concept of an actual workflow implementation, handling
/// sending it new jobs and fetching output from it.
///
/// Jobs are delivered strictly in the order they were enqueued; the queue is
/// drained only by [`DrivenWorkflow::drain_jobs`].
pub struct DrivenWorkflow<F: WorkflowFetcher> {
    started_attrs: Option<StartedAttributes>,
    fetcher: F,
    /// Outgoing activation jobs that need to be sent to the lang side.
    outgoing_wf_activation_jobs: std::collections::VecDeque<JobVariant>,
}

impl<F: WorkflowFetcher> DrivenWorkflow<F> {
    /// The attributes recorded by the most recent `start`, `None` before any.
    pub closed spec fn spec_started_attrs(&self) -> Option<StartedAttributes> {
        self.started_attrs
    }

    /// The queued activation jobs, oldest first.
    pub closed spec fn spec_jobs(&self) -> Seq<JobVariant> {
        self.outgoing_wf_activation_jobs@
    }

    /// The wrapped execution backend.
    pub closed spec fn spec_fetcher(&self) -> F {
        self.fetcher
    }

    /// Wrap an execution backend. The execution has not started and no job is
    /// queued.
    pub fn new(fetcher: F) -> (wf: Self)
        ensures
            wf.spec_started_attrs() is None,
            wf.spec_jobs() == Seq::<JobVariant>::empty(),
            wf.spec_fetcher() == fetcher,
    {
        DrivenWorkflow {
            started_attrs: None,
            fetcher,
            outgoing_wf_activation_jobs: std::collections::VecDeque::new(),
        }
    }

    /// Start the workflow: enqueue a start job built from the given
    /// attributes, id and seed, and record the attributes.
    ///
    /// Callers must start an execution at most once. A second call is not an
    /// error at this layer: it enqueues a second start job and the stored
    /// attributes are overwritten, so `get_started_attrs` always reports the
    /// attributes of the most recent call.
    pub fn start(&mut self, workflow_id: String, randomness_seed: u64, attribs: StartedAttributes)
        ensures
            final(self).spec_started_attrs() == Some(attribs),
            final(self).spec_jobs() == old(self).spec_jobs().push(
                JobVariant::StartWorkflow(StartWorkflow {
                    workflow_id,
                    randomness_seed,
                    attributes: attribs,
                }),
            ),
            final(self).spec_fetcher() == old(self).spec_fetcher(),
    {
        self.send_job(JobVariant::StartWorkflow(StartWorkflow {
            workflow_id,
            randomness_seed,
            attributes: attribs.clone(),
        }));
        self.started_attrs = Some(attribs);
    }

    /// Return the attributes from the workflow execution started event if this
    /// workflow has started.
    pub fn get_started_attrs(&self) -> (r: Option<&StartedAttributes>)
        ensures
            match r {
                Some(a) => self.spec_started_attrs() == Some(*a),
                None => self.spec_started_attrs() is None,
            },
    {
        self.started_attrs.as_ref()
    }

    /// Enqueue a new job at the tail of the outgoing queue.
    pub fn send_job(&mut self, job: JobVariant)
        ensures
            final(self).spec_jobs() == old(self).spec_jobs().push(job),
            final(self).spec_started_attrs() == old(self).spec_started_attrs(),
            final(self).spec_fetcher() == old(self).spec_fetcher(),
    {
        self.outgoing_wf_activation_jobs.push_back(job);
    }

    /// Check if there are pending jobs.
    pub fn has_pending_jobs(&self) -> (r: bool)
        ensures
            r == (self.spec_jobs().len() != 0),
    {
        self.outgoing_wf_activation_jobs.len() != 0
    }

    /// Drain all pending jobs, so that they may be sent to the driven
    /// workflow: removes every queued job and returns them in the order they
    /// were enqueued, leaving the queue empty. No job is left behind and none
    /// is returned twice.
    pub fn drain_jobs(&mut self) -> (jobs: Vec<WorkflowActivationJob>)
        ensures
            final(self).spec_jobs() == Seq::<JobVariant>::empty(),
            jobs@.len() == old(self).spec_jobs().len(),
            forall|i: int|
                0 <= i < jobs@.len() ==> jobs@[i] == (WorkflowActivationJob {
                    variant: Some(old(self).spec_jobs()[i]),
                }),
            final(self).spec_started_attrs() == old(self).spec_started_attrs(),
            final(self).spec_fetcher() == old(self).spec_fetcher(),
    {
        let mut jobs: Vec<WorkflowActivationJob> = Vec::new();
        while self.outgoing_wf_activation_jobs.len() != 0
            invariant
                jobs@.len() + self.outgoing_wf_activation_jobs@.len() == old(
                    self,
                ).spec_jobs().len(),
                forall|i: int|
                    0 <= i < jobs@.len() ==> jobs@[i] == (WorkflowActivationJob {
                        variant: Some(old(self).spec_jobs()[i]),
                    }),
                forall|i: int|
                    0 <= i < self.outgoing_wf_activation_jobs@.len()
                        ==> self.outgoing_wf_activation_jobs@[i] == old(self).spec_jobs()[jobs@.len()
                        + i],
                self.started_attrs == old(self).spec_started_attrs(),
                self.fetcher == old(self).spec_fetcher(),
            decreases self.outgoing_wf_activation_jobs@.len(),
        {
            let v = self.outgoing_wf_activation_jobs.pop_front().unwrap();
            jobs.push(WorkflowActivationJob { variant: Some(v) });
        }
        proof {
            assert(self.outgoing_wf_activation_jobs@ =~= Seq::<JobVariant>::empty());
        }
        jobs
    }

    /// Signal the workflow: build a signal job and enqueue it.
    pub fn signal(&mut self, signal: SignalWorkflow)
        ensures
            final(self).spec_jobs() == old(self).spec_jobs().push(
                JobVariant::SignalWorkflow(signal),
            ),
            final(self).spec_started_attrs() == old(self).spec_started_attrs(),
            final(self).spec_fetcher() == old(self).spec_fetcher(),
    {
        self.send_job(JobVariant::SignalWorkflow(signal));
    }

    /// Cancel the workflow: build a cancel job and enqueue it.
    pub fn cancel(&mut self, attribs: CancelWorkflow)
        ensures
            final(self).spec_jobs() == old(self).spec_jobs().push(
                JobVariant::CancelWorkflow(attribs),
            ),
            final(self).spec_started_attrs() == old(self).spec_started_attrs(),
            final(self).spec_fetcher() == old(self).spec_fetcher(),
    {
        self.send_job(JobVariant::CancelWorkflow(attribs));
    }
}

impl<F: WorkflowFetcher> WorkflowFetcher for DrivenWorkflow<F> {
    /// Transparent pass-through to the wrapped backend: the driven workflow
    /// does not interpret or validate the commands it relays, and the fetch
    /// touches neither the job queue (only `drain_jobs` drains it) nor the
    /// stored started attributes.
    fn fetch_workflow_iteration_output(&mut self) -> (out: Vec<WfCommand>)
        ensures
            final(self).spec_jobs() == old(self).spec_jobs(),
            final(self).spec_started_attrs() == old(self).spec_started_attrs(),
    {
        self.fetcher.fetch_workflow_iteration_output()
    }
}

} // verus!
