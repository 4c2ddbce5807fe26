use vstd::prelude::*;
use crate::esi::processor::JobQueue;
use crate::esi::EsiClient;

verus! {

/// What the handlers of the front end share: the queue into which they put
/// jobs, and the client with which they start a login.
pub struct AppState {
    pub jobs: JobQueue,
    pub client: EsiClient,
}

impl AppState {
    pub fn new(jobs: JobQueue, client: &EsiClient) -> (r: AppState)
        ensures
            r.jobs == jobs,
            r.client@ == client@,
    {
        AppState { jobs, client: client.clone() }
    }
}

} // verus!
