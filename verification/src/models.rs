//! The status snapshot as the backend reports it: results, each with its
//! batches, queues and tasks, and the metadata of the backend itself.
//!
//! These are plain records. A snapshot is replaced as a whole and never
//! patched; counters are kept as reported, also where `total` is not the sum
//! of the others.

use vstd::prelude::*;

verus! {

/// The links of a collection.
#[derive(Clone, Debug)]
pub struct Links {
    pub self_: String,
    pub xref_export: String,
    pub reconcile: String,
    pub ui: String,
}

/// The collection that a result is bound to.
#[derive(Clone, Debug)]
pub struct Collection {
    pub created_at: String,
    pub updated_at: String,
    pub category: String,
    pub frequency: String,
    pub countries: Option<Vec<String>>,
    pub name: String,
    pub collection_id: String,
    pub foreign_id: String,
    pub label: String,
    pub casefile: bool,
    pub secret: bool,
    pub id: String,
    pub writeable: bool,
    pub links: Links,
    pub shallow: bool,
}

/// A leaf of the hierarchy.
#[derive(Clone, Debug)]
pub struct Task {
    pub todo: u32,
    pub doing: u32,
    pub succeeded: u32,
    pub failed: u32,
    pub aborted: u32,
    pub aborting: u32,
    pub cancelled: u32,
    pub min_ts: Option<String>,
    pub max_ts: Option<String>,
    pub name: String,
    pub remaining_time: Option<String>,
    pub took: Option<String>,
    pub total: u32,
    pub active: u32,
    pub finished: u32,
}

/// A queue and its tasks, in the order reported.
#[derive(Clone, Debug)]
pub struct Queue {
    pub todo: u32,
    pub doing: u32,
    pub succeeded: u32,
    pub failed: u32,
    pub aborted: u32,
    pub aborting: u32,
    pub cancelled: u32,
    pub min_ts: Option<String>,
    pub max_ts: Option<String>,
    pub name: String,
    pub tasks: Vec<Task>,
    pub remaining_time: Option<String>,
    pub took: Option<String>,
    pub total: u32,
    pub active: u32,
    pub finished: u32,
}

/// A batch and its queues, in the order reported.
#[derive(Clone, Debug)]
pub struct Batch {
    pub todo: u32,
    pub doing: u32,
    pub succeeded: u32,
    pub failed: u32,
    pub aborted: u32,
    pub aborting: u32,
    pub cancelled: u32,
    pub min_ts: Option<String>,
    pub max_ts: Option<String>,
    pub name: String,
    pub queues: Vec<Queue>,
    pub remaining_time: Option<String>,
    pub took: Option<String>,
    pub total: u32,
    pub active: u32,
    pub finished: u32,
}

/// One collection's aggregate, with its batches. `collection` is `None` where
/// the backend has bound no collection to the result.
#[derive(Clone, Debug)]
pub struct StatusResult {
    pub todo: u32,
    pub doing: u32,
    pub succeeded: u32,
    pub failed: u32,
    pub aborted: u32,
    pub aborting: u32,
    pub cancelled: u32,
    pub min_ts: Option<String>,
    pub max_ts: Option<String>,
    pub name: String,
    pub batches: Vec<Batch>,
    pub collection: Option<Collection>,
    pub remaining_time: Option<String>,
    pub took: Option<String>,
    pub total: u32,
    pub active: u32,
    pub finished: u32,
}

/// The root of a snapshot.
#[derive(Clone, Debug)]
pub struct Status {
    pub results: Vec<StatusResult>,
    pub total: u32,
}

/// What the backend says of the application it runs.
#[derive(Clone, Debug)]
pub struct MetadataApp {
    pub title: Option<String>,
    pub version: Option<String>,
    pub ftm_version: Option<String>,
}

/// The health of the backend.
#[derive(Clone, Debug)]
pub struct Metadata {
    pub status: String,
    pub maintenance: bool,
    pub app: MetadataApp,
}

impl Default for Status {
    /// The empty snapshot: no result, a total of zero.
    fn default() -> (s: Status)
        ensures
            s.results@.len() == 0,
            s.total == 0,
    {
        Status { results: Vec::new(), total: 0 }
    }
}

impl Default for MetadataApp {
    fn default() -> (a: MetadataApp)
        ensures
            a.title is None,
            a.version is None,
            a.ftm_version is None,
    {
        MetadataApp { title: None, version: None, ftm_version: None }
    }
}

impl Default for Metadata {
    /// No status text, no maintenance, nothing known of the application.
    fn default() -> (m: Metadata)
        ensures
            m.status@.len() == 0,
            !m.maintenance,
            m.app.title is None,
            m.app.version is None,
            m.app.ftm_version is None,
    {
        Metadata { status: String::new(), maintenance: false, app: MetadataApp::default() }
    }
}

} // verus!
