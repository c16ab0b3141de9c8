//! The adapter that hands requests to the hosted service's API client.

use std::sync::Arc;

use vstd::prelude::*;

verus! {

/// A provider that calls the hosted multi-agent endpoint through the
/// application's API client `S`, which does the actual work.
pub struct WarpServerAdapter<S> {
    server_api: Arc<S>,
}

impl<S> WarpServerAdapter<S> {
    /// The API client the adapter holds.
    pub closed spec fn api(&self) -> Arc<S> {
        self.server_api
    }

    pub fn new(server_api: Arc<S>) -> (r: Self)
        ensures
            r.api() == server_api,
    {
        WarpServerAdapter { server_api }
    }

    /// The API client requests are handed to.
    pub fn server_api(&self) -> (r: &Arc<S>)
        ensures
            *r == self.api(),
    {
        &self.server_api
    }
}

} // verus!
