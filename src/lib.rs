//! Decision logic of an image-upload service: naming an upload after its
//! source URL, deciding what a single save does at each step, rendering the
//! preview thumbnail, and folding a batch of outcomes into one response.

pub mod batch;
pub mod ingest;
pub mod outcome;
pub mod preview;
pub mod session;
pub mod url;
