//! The fetch provider: non-blocking resolution plus the shared-waker
//! completion contract.
//!
//! Every fetch holds one clone of the shared waker for its lifetime, so the
//! number of fetches in flight is the number of live waker handles beyond the
//! provider's own baseline handle. Completing a fetch consumes the job — so a
//! job cannot complete twice — and notifies the waker exactly once, strictly
//! before the result is handed to the caller's handler. A failed fetch
//! delivers no payload: the handler is simply never called on that path,
//! while the waker still fires.

use vstd::prelude::*;
use std::sync::Arc;
use crate::EngineError;
use crate::fetch::{FetchPlan, FetchRequest, plan_matches, resolve_request};

verus! {

/// The shared notification capability of the host. The engine calls `wake`
/// exactly once per fetch; the host must accept calls from independently
/// completing tasks without coordination.
pub trait NetWaker: Sized {
    fn wake(&self, doc_id: usize);
}

/// Relies on std's `Arc::clone`: the clone refers to the same underlying
/// value.
#[verifier::external_body]
fn clone_waker<W>(w: &Arc<W>) -> (r: Arc<W>)
    ensures
        r == *w,
{
    Arc::clone(w)
}

/// Relies on std's `Arc::strong_count`: the number of live handles to the
/// allocation, at least one since the queried handle itself is live. The
/// number depends on what else is alive, so nothing more is promised.
#[verifier::external_body]
fn waker_refs<W>(w: &Arc<W>) -> (r: usize)
    ensures
        r >= 1,
{
    Arc::strong_count(w)
}

/// A waker that ignores notifications, for hosts that poll on their own.
pub struct DummyNetWaker;

impl NetWaker for DummyNetWaker {
    fn wake(&self, _doc_id: usize) {
    }
}

/// The multi-scheme resource fetch provider.
pub struct Provider<W: NetWaker> {
    waker: Arc<W>,
}

/// One fetch in flight: its resolution plan, the document it belongs to, and
/// the clone of the shared waker it holds until completion.
pub struct FetchJob<W: NetWaker> {
    doc_id: usize,
    plan: FetchPlan,
    waker: Arc<W>,
}

impl<W: NetWaker> FetchJob<W> {
    /// The document this fetch belongs to.
    pub closed spec fn spec_doc_id(&self) -> usize {
        self.doc_id
    }

    /// The resolution plan of this fetch.
    pub closed spec fn spec_plan(&self) -> FetchPlan {
        self.plan
    }

    pub fn doc_id(&self) -> (r: usize)
        ensures
            r == self.spec_doc_id(),
    {
        self.doc_id
    }

    pub fn plan(&self) -> (r: &FetchPlan)
        ensures
            *r == self.spec_plan(),
    {
        &self.plan
    }
}

impl<W: NetWaker> Provider<W> {
    /// A provider around the host's waker. The handle the provider itself
    /// holds is the baseline reference, excluded from the in-flight count.
    pub fn new(waker: W) -> (p: Self) {
        Provider { waker: Arc::new(waker) }
    }

    /// The number of outstanding fetches: live waker handles beyond the
    /// provider's baseline. A live-reference reading, so no value is promised.
    pub fn count(&self) -> (n: usize) {
        let refs = waker_refs(&self.waker);
        refs - 1
    }

    /// Whether no fetch is outstanding.
    pub fn is_empty(&self) -> (b: bool) {
        let refs = waker_refs(&self.waker);
        refs == 1
    }

    /// Begin a fetch: resolve the request by scheme and hand back a job that
    /// carries the plan and one clone of the shared waker. The caller never
    /// blocks; the host performs the plan's outside work and then completes
    /// the job.
    pub fn fetch(&self, doc_id: usize, request: FetchRequest) -> (job: FetchJob<W>)
        ensures
            job.spec_doc_id() == doc_id,
            plan_matches(request, job.spec_plan()),
    {
        let plan = resolve_request(request);
        FetchJob { doc_id, plan, waker: clone_waker(&self.waker) }
    }
}

impl<W: NetWaker> FetchJob<W> {
    /// Complete the fetch with the outcome of its outside work: notify the
    /// shared waker — exactly once, since completion consumes the job, and
    /// strictly before any result is delivered — then hand back the payload
    /// for the handler on success and nothing on failure.
    pub fn complete(self, outcome: Result<(String, Vec<u8>), EngineError>) -> (r: Option<
        (String, Vec<u8>),
    >)
        ensures
            outcome matches Ok(p) ==> r == Some(p),
            outcome is Err ==> r is None,
    {
        self.waker.wake(self.doc_id);
        match outcome {
            Ok(p) => Some(p),
            Err(_) => None,
        }
    }
}

} // verus!
