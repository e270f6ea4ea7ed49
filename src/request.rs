use crate::operation_id::{next_after, OperationIdAllocator};
use crate::response::{result_of, Outcome, OutcomeView, ProtosocketResult, ResultView};
use vstd::prelude::*;
use vstd::slice::slice_to_vec;

verus! {

/// A cache operation, holding its own copies of the caller's data.
#[derive(Clone, Debug)]
pub enum Request {
    SetItem { cache_name: String, key: Vec<u8>, value: Vec<u8> },
    GetItem { cache_name: String, key: Vec<u8> },
}

/// Mathematical counterpart of [`Request`].
pub enum RequestView {
    SetItem { cache_name: Seq<char>, key: Seq<u8>, value: Seq<u8> },
    GetItem { cache_name: Seq<char>, key: Seq<u8> },
}

impl View for Request {
    type V = RequestView;

    open spec fn view(&self) -> RequestView {
        match self {
            Request::SetItem { cache_name, key, value } => RequestView::SetItem {
                cache_name: cache_name@,
                key: key@,
                value: value@,
            },
            Request::GetItem { cache_name, key } => RequestView::GetItem {
                cache_name: cache_name@,
                key: key@,
            },
        }
    }
}

/// A request tagged with the identifier under which its result is delivered.
#[derive(Clone, Debug)]
pub struct ProcessingEnvelope {
    pub request: Request,
    pub operation_id: u64,
}

/// An outcome tagged with the identifier of the request it answers.
#[derive(Clone, Debug)]
pub struct CompletionEnvelope {
    pub outcome: Outcome,
    pub operation_id: u64,
}

/// The token a caller keeps to collect a result by polling.
#[derive(Clone, Copy, Debug, PartialEq, Eq, Structural)]
pub struct AwaitingHandle {
    pub operation_id: u64,
}

impl ProcessingEnvelope {
    /// The handle under which this request's result can be polled.
    pub fn handle(&self) -> (r: AwaitingHandle)
        ensures
            r.operation_id == self.operation_id,
    {
        AwaitingHandle { operation_id: self.operation_id }
    }

    /// Tags `outcome` as the answer to this request.
    pub fn complete(&self, outcome: Outcome) -> (r: CompletionEnvelope)
        ensures
            r.operation_id == self.operation_id,
            r.outcome == outcome,
    {
        CompletionEnvelope { outcome, operation_id: self.operation_id }
    }
}

/// The error record that rejects a call, with its message.
pub open spec fn rejection(message: Seq<char>) -> ResultView {
    result_of(OutcomeView::Error { message })
}

fn copy_name(s: &str) -> (r: String)
    ensures
        r@ == s@,
{
    s.to_owned()
}

/// Accepts a `set` call: each argument is `None` where the caller passed
/// none. A missing argument is rejected with its error record, checked in the
/// order cache name, key, value, and no identifier is allocated; otherwise the
/// arguments are copied into a request tagged with a fresh identifier.
pub fn submit_set(
    ids: &mut OperationIdAllocator,
    cache_name: Option<&str>,
    key: Option<&[u8]>,
    value: Option<&[u8]>,
) -> (r: Result<ProcessingEnvelope, ProtosocketResult>)
    ensures
        match (cache_name, key, value) {
            (Some(c), Some(k), Some(v)) => {
                &&& r matches Ok(env) && env.request@ == (RequestView::SetItem {
                    cache_name: c@,
                    key: k@,
                    value: v@,
                }) && env.operation_id == old(ids)@.next
                &&& final(ids)@.next == next_after(old(ids)@.next)
                &&& !old(ids)@.exhausted ==> !old(ids)@.issued.contains(old(ids)@.next)
                    && final(ids)@.issued == old(ids)@.issued.insert(old(ids)@.next)
            },
            _ => {
                &&& r is Err
                &&& final(ids)@ == old(ids)@
                &&& cache_name is None ==> r->Err_0@ == rejection("cache_name is null"@)
                &&& cache_name is Some && key is None ==> r->Err_0@ == rejection("key is null"@)
                &&& cache_name is Some && key is Some ==> r->Err_0@ == rejection("value is null"@)
            },
        },
{
    let c = match cache_name {
        Some(c) => c,
        None => {
            return Err(ProtosocketResult::error("cache_name is null".to_owned()));
        },
    };
    let k = match key {
        Some(k) => k,
        None => {
            return Err(ProtosocketResult::error("key is null".to_owned()));
        },
    };
    let v = match value {
        Some(v) => v,
        None => {
            return Err(ProtosocketResult::error("value is null".to_owned()));
        },
    };
    let request = Request::SetItem {
        cache_name: copy_name(c),
        key: slice_to_vec(k),
        value: slice_to_vec(v),
    };
    let operation_id = ids.next_id();
    Ok(ProcessingEnvelope { request, operation_id })
}

/// Accepts a `get` call: each argument is `None` where the caller passed
/// none. A missing argument is rejected with its error record, checked in the
/// order cache name, key, and no identifier is allocated; otherwise the
/// arguments are copied into a request tagged with a fresh identifier.
pub fn submit_get(ids: &mut OperationIdAllocator, cache_name: Option<&str>, key: Option<&[u8]>) -> (r:
    Result<ProcessingEnvelope, ProtosocketResult>)
    ensures
        match (cache_name, key) {
            (Some(c), Some(k)) => {
                &&& r matches Ok(env) && env.request@ == (RequestView::GetItem {
                    cache_name: c@,
                    key: k@,
                }) && env.operation_id == old(ids)@.next
                &&& final(ids)@.next == next_after(old(ids)@.next)
                &&& !old(ids)@.exhausted ==> !old(ids)@.issued.contains(old(ids)@.next)
                    && final(ids)@.issued == old(ids)@.issued.insert(old(ids)@.next)
            },
            _ => {
                &&& r is Err
                &&& final(ids)@ == old(ids)@
                &&& cache_name is None ==> r->Err_0@ == rejection("cache_name is null"@)
                &&& cache_name is Some ==> r->Err_0@ == rejection("key is null"@)
            },
        },
{
    let c = match cache_name {
        Some(c) => c,
        None => {
            return Err(ProtosocketResult::error("cache_name is null".to_owned()));
        },
    };
    let k = match key {
        Some(k) => k,
        None => {
            return Err(ProtosocketResult::error("key is null".to_owned()));
        },
    };
    let request = Request::GetItem { cache_name: copy_name(c), key: slice_to_vec(k) };
    let operation_id = ids.next_id();
    Ok(ProcessingEnvelope { request, operation_id })
}

} // verus!
