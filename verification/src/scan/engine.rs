//! The scan engine: the decisions that a pool of workers is driven by.
//!
//! The engine is a state machine. Whoever runs the workers hands it what
//! happened (a batch was submitted, a worker asked for work, a worker
//! delivered outputs) and does what it answers. It starts no thread and
//! waits for nothing itself.

use crate::common::compilation::CompilableTo;
use crate::common::text::views;
use crate::input::document::{
    compiled_documents, resolved, Document, DocumentReference, DocumentReferenceBatch,
};
use crate::output::output::{OutputBatch, OutputView};
use crate::scan::scanner::{concatenated, Scanner};
use std::collections::VecDeque;
use vstd::prelude::*;

verus! {

/// What the coordinator is to do next.
pub enum Dispatch {
    /// Hand `batch` to the worker `worker`, which asked for work.
    Route { worker: usize, batch: DocumentReferenceBatch },
    /// Wait: no batch is there, or no worker is free.
    Idle,
    /// Nothing is left to hand out and nothing more will come: let the
    /// workers end.
    Finished,
}

/// What a caller that waits for outputs gets.
pub enum NextOutput {
    /// The oldest batch of outputs that was not delivered yet.
    Ready(OutputBatch),
    /// No outputs are there yet, but a worker may still deliver some.
    Pending,
    /// No outputs are there and none will come.
    Closed,
}

/// The state of a scan engine, as its interface shows it.
pub struct AsyncScanInterface {
    accepting: bool,
    submitted: VecDeque<DocumentReferenceBatch>,
    requests: VecDeque<usize>,
    outputs: VecDeque<OutputBatch>,
    workers: usize,
}

/// The mathematical value of an [`AsyncScanInterface`].
pub struct EngineView {
    /// Whether batches are still accepted.
    pub accepting: bool,
    /// The batches that were accepted and not yet handed to a worker,
    /// oldest first.
    pub submitted: Seq<DocumentReferenceBatch>,
    /// The workers that asked for work and got none yet, oldest first.
    pub requests: Seq<usize>,
    /// The batches of outputs that were delivered by workers and not yet
    /// taken by the caller, oldest first.
    pub outputs: Seq<OutputBatch>,
    /// The number of workers that have not ended.
    pub workers: nat,
}

impl View for AsyncScanInterface {
    type V = EngineView;

    closed spec fn view(&self) -> EngineView {
        EngineView {
            accepting: self.accepting,
            submitted: self.submitted@,
            requests: self.requests@,
            outputs: self.outputs@,
            workers: self.workers as nat,
        }
    }
}

impl EngineView {
    /// The engine that was just started with `workers` workers.
    pub open spec fn started(workers: nat) -> EngineView {
        EngineView {
            accepting: true,
            submitted: Seq::empty(),
            requests: Seq::empty(),
            outputs: Seq::empty(),
            workers,
        }
    }

    /// The state after `batch` was submitted: it is queued where batches
    /// are accepted, and dropped where they are not.
    pub open spec fn submit(self, batch: DocumentReferenceBatch) -> EngineView {
        if self.accepting {
            EngineView { submitted: self.submitted.push(batch), ..self }
        } else {
            self
        }
    }

    /// The state after a shutdown: no batch is accepted any more. What is
    /// queued and what was delivered stays.
    pub open spec fn shut_down(self) -> EngineView {
        EngineView { accepting: false, ..self }
    }

    /// The state after the worker `worker` asked for work.
    pub open spec fn asked(self, worker: usize) -> EngineView {
        EngineView { requests: self.requests.push(worker), ..self }
    }

    /// Whether a batch can be handed to a worker: one is queued, and a
    /// worker asked for one.
    pub open spec fn can_route(self) -> bool {
        self.requests.len() > 0 && self.submitted.len() > 0
    }

    /// The state after the oldest batch was handed to the worker that
    /// asked first.
    pub open spec fn routed(self) -> EngineView {
        EngineView {
            requests: self.requests.drop_first(),
            submitted: self.submitted.drop_first(),
            ..self
        }
    }

    /// Whether nothing is left to hand out and nothing more will come.
    pub open spec fn is_drained(self) -> bool {
        !self.accepting && self.submitted.len() == 0
    }

    /// The state after a worker delivered `outputs`.
    pub open spec fn emitted(self, outputs: OutputBatch) -> EngineView {
        EngineView { outputs: self.outputs.push(outputs), ..self }
    }

    /// The state after a worker ended.
    pub open spec fn retired(self) -> EngineView {
        if self.workers > 0 {
            EngineView { workers: (self.workers - 1) as nat, ..self }
        } else {
            self
        }
    }

    /// The state after the caller took the oldest batch of outputs.
    pub open spec fn delivered(self) -> EngineView {
        EngineView { outputs: self.outputs.drop_first(), ..self }
    }
}

impl AsyncScanInterface {
    /// An engine with `threads` workers, none of which asked for work yet.
    pub fn new(threads: u8) -> (r: AsyncScanInterface)
        ensures
            r@ == EngineView::started(threads as nat),
    {
        AsyncScanInterface {
            accepting: true,
            submitted: VecDeque::new(),
            requests: VecDeque::new(),
            outputs: VecDeque::new(),
            workers: threads as usize,
        }
    }

    /// Submits a batch of documents. It is queued until a worker takes it;
    /// after a shutdown it is refused.
    pub fn process(&mut self, batch: DocumentReferenceBatch) -> (r: Result<(), ()>)
        ensures
            r is Ok <==> old(self)@.accepting,
            final(self)@ == old(self)@.submit(batch),
    {
        if self.accepting {
            self.submitted.push_back(batch);
            Ok(())
        } else {
            Err(())
        }
    }

    /// Takes the oldest batch of outputs that a worker delivered. Where
    /// there is none, tells whether one may still come.
    pub fn lock_for_outputs(&mut self) -> (r: NextOutput)
        ensures
            match r {
                NextOutput::Ready(outputs) => {
                    &&& old(self)@.outputs.len() > 0
                    &&& outputs == old(self)@.outputs[0]
                    &&& final(self)@ == old(self)@.delivered()
                },
                NextOutput::Pending => {
                    &&& old(self)@.outputs.len() == 0
                    &&& old(self)@.workers > 0
                    &&& final(self)@ == old(self)@
                },
                NextOutput::Closed => {
                    &&& old(self)@.outputs.len() == 0
                    &&& old(self)@.workers == 0
                    &&& final(self)@ == old(self)@
                },
            },
    {
        match self.outputs.pop_front() {
            Some(outputs) => NextOutput::Ready(outputs),
            None => if self.workers == 0 {
                NextOutput::Closed
            } else {
                NextOutput::Pending
            },
        }
    }

    /// The number of batches that were accepted and not yet handed to a
    /// worker.
    pub fn batches_pending_processing(&self) -> (r: usize)
        ensures
            r == self@.submitted.len(),
    {
        self.submitted.len()
    }

    /// Stops the engine from accepting batches. What was accepted is still
    /// processed, and its outputs are still delivered.
    pub fn shutdown(&mut self)
        ensures
            final(self)@ == old(self)@.shut_down(),
    {
        self.accepting = false;
    }

    /// Records that the worker `worker` is free and asks for work.
    pub fn request(&mut self, worker: usize)
        ensures
            final(self)@ == old(self)@.asked(worker),
    {
        self.requests.push_back(worker);
    }

    /// Decides what the coordinator does next: it hands the oldest batch
    /// to the worker that asked first, where there are both; it ends
    /// where nothing is queued after a shutdown; else it waits.
    pub fn dispatch(&mut self) -> (r: Dispatch)
        ensures
            match r {
                Dispatch::Route { worker, batch } => {
                    &&& old(self)@.can_route()
                    &&& worker == old(self)@.requests[0]
                    &&& batch == old(self)@.submitted[0]
                    &&& final(self)@ == old(self)@.routed()
                },
                Dispatch::Idle => {
                    &&& !old(self)@.can_route()
                    &&& !old(self)@.is_drained()
                    &&& final(self)@ == old(self)@
                },
                Dispatch::Finished => {
                    &&& !old(self)@.can_route()
                    &&& old(self)@.is_drained()
                    &&& final(self)@ == old(self)@
                },
            },
    {
        if self.requests.len() > 0 && self.submitted.len() > 0 {
            let worker = self.requests.pop_front();
            let batch = self.submitted.pop_front();
            match (worker, batch) {
                (Some(worker), Some(batch)) => {
                    return Dispatch::Route { worker, batch };
                },
                _ => {},
            }
        }
        if !self.accepting && self.submitted.len() == 0 {
            Dispatch::Finished
        } else {
            Dispatch::Idle
        }
    }

    /// Records the outputs that a worker delivered.
    pub fn emit(&mut self, outputs: OutputBatch)
        ensures
            final(self)@ == old(self)@.emitted(outputs),
    {
        self.outputs.push_back(outputs);
    }

    /// Records that a worker ended.
    pub fn retire(&mut self)
        ensures
            final(self)@ == old(self)@.retired(),
    {
        if self.workers > 0 {
            self.workers = self.workers - 1;
        }
    }
}

/// The outputs that a worker gives for one batch: the references are
/// resolved with what was loaded for them, the documents that compile are
/// compiled, and the compiled documents are scanned, in order.
pub open spec fn reference_outputs<S: Scanner>(
    scanner: &S,
    references: Seq<DocumentReference>,
    loaded: Seq<Option<Document>>,
) -> Seq<OutputView> {
    let compiled = compiled_documents(views(resolved(references, loaded)));
    concatenated(Seq::new(compiled.len(), |i: int| scanner.outputs(compiled[i])))
}

/// What a worker does with one batch: it resolves the references with
/// what was loaded for them, compiles the documents and scans them. A
/// document that could not be loaded or compiled is skipped.
pub fn scan_references<S: Scanner>(
    scanner: &S,
    batch: DocumentReferenceBatch,
    loaded: Vec<Option<Document>>,
) -> (r: OutputBatch)
    ensures
        r@ == reference_outputs(scanner, batch.documents@, loaded@),
{
    let documents = batch.resolve(loaded);
    match documents.compile() {
        Ok(compiled) => {
            let outputs = scanner.scan_batch(&compiled);
            proof {
                let wanted = compiled_documents(views(documents.documents@));
                assert(Seq::new(
                    compiled.documents@.len(),
                    |i: int| scanner.outputs(compiled.documents@[i]@),
                ) =~= Seq::new(wanted.len(), |i: int| scanner.outputs(wanted[i])));
            }
            outputs
        },
        Err(_) => OutputBatch::new(),
    }
}

/// After a shutdown every batch is refused, and refusing changes
/// nothing; shutting down again changes nothing either.
pub proof fn law_shutdown_closes(state: EngineView, batch: DocumentReferenceBatch)
    ensures
        !state.shut_down().accepting,
        state.shut_down().submit(batch) == state.shut_down(),
        state.shut_down().shut_down() == state.shut_down(),
{
}

/// A shutdown loses nothing: the batches that were accepted stay queued
/// and the outputs that were delivered stay to be taken.
pub proof fn law_shutdown_keeps_work(state: EngineView)
    ensures
        state.shut_down().submitted == state.submitted,
        state.shut_down().outputs == state.outputs,
        state.shut_down().requests == state.requests,
        state.shut_down().workers == state.workers,
{
}

/// The pending count is the number of batches accepted and not yet
/// routed: accepting a batch adds one, routing a batch takes one away.
pub proof fn law_pending_counts(state: EngineView, batch: DocumentReferenceBatch)
    ensures
        state.accepting ==> state.submit(batch).submitted.len() == state.submitted.len() + 1,
        state.can_route() ==> state.routed().submitted.len() == state.submitted.len() - 1,
{
}

/// Workers pull: a batch goes only to a worker that asked for one, and
/// the request is used up by it. Batches leave in the order in which
/// they were accepted.
pub proof fn law_workers_pull(state: EngineView)
    requires
        state.can_route(),
    ensures
        state.routed().requests.len() == state.requests.len() - 1,
        forall|i: int|
            0 <= i < state.routed().requests.len() ==> state.routed().requests[i]
                == state.requests[i + 1],
        forall|i: int|
            0 <= i < state.routed().submitted.len() ==> state.routed().submitted[i]
                == state.submitted[i + 1],
{
}

} // verus!
