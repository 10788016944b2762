//! Receiving pull-request webhooks: signature checks, the decisions of the
//! request handler, and the plans for running the pull-request script and
//! posting its output back as a comment.
pub mod event;
pub mod handler;
pub mod notify;
pub mod script;
pub mod signature;
