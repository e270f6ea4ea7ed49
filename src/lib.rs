//! Verified core of a bridge that lets a caller without an async runtime issue
//! cache `set` / `get` operations and collect their results by callback or by
//! polling.

pub mod accumulator;
pub mod configuration;
pub mod operation_id;
pub mod request;
pub mod response;
pub mod service;

pub use accumulator::Accumulator;
pub use configuration::{
    new_protosocket_client_configuration, new_protosocket_credential_provider,
    ProtosocketClientConfiguration, ProtosocketCredentialProvider,
};
pub use operation_id::OperationIdAllocator;
pub use request::{
    submit_get, submit_set, AwaitingHandle, CompletionEnvelope, ProcessingEnvelope, Request,
};
pub use response::{Bytes, Outcome, ProtosocketResponseType, ProtosocketResult};
pub use service::{
    get_outcome, outcome_of_get, outcome_of_set, set_outcome, ClientSlot, ClientState,
    LifecycleError,
};

use vstd::prelude::*;

verus! {

#[verifier::external_type_specification]
#[verifier::external_body]
pub struct ExIoError(std::io::Error);

/// Capacity of the channel that carries accepted requests to the worker.
pub const REQUEST_CHANNEL_CAPACITY: usize = 1024;

/// Capacity of the channel that carries finished operations to the accumulator.
pub const RESPONSE_CHANNEL_CAPACITY: usize = 1024;

/// Where the C header of the exported interface is written.
pub const HEADER_PATH: &'static str = "target/momento_protosocket_ffi.h";

/// The `#ifndef` guard of the C header.
pub const HEADER_GUARD: &'static str = "__RUST_MOMENTO_PROTOSOCKET_FFI__";

/// Relies on safer_ffi's header builder
/// (`builder().with_guard(guard).to_file(path)?.generate()`): writes the C
/// declarations of every exported function to the file at `path` under the
/// include guard `guard`, reporting the file system's error when it cannot.
/// With the guard given, the builder does not look the crate name up in the
/// environment.
#[verifier::external_body]
fn write_c_header(path: &str, guard: &str) -> (r: Result<(), std::io::Error>) {
    safer_ffi::headers::builder().with_guard(guard).to_file(path)?.generate()
}

/// Writes the C header of the exported interface to [`HEADER_PATH`], guarded
/// by [`HEADER_GUARD`].
pub fn generate_headers() -> (r: Result<(), std::io::Error>) {
    write_c_header(HEADER_PATH, HEADER_GUARD)
}

} // verus!
