//! The capabilities that the backend declares active.
//!
//! Uploads, native dialogs, outbound HTTP and shell access are the work of
//! ready-made plugins of the host runtime. The backend implements none of
//! them; it only says which are attached when the application starts, and in
//! which order.

use vstd::prelude::*;

verus! {

/// A capability that a plugin of the host runtime offers to the front-end.
#[derive(Clone, Copy, Debug, PartialEq, Eq, Structural)]
pub enum Capability {
    /// Uploading files.
    Upload,
    /// Native open, save and confirm dialogs.
    Dialog,
    /// Outbound HTTP requests.
    Http,
    /// Running commands and processes.
    Shell,
}

/// The active capabilities, in the order in which they are attached.
pub open spec fn active() -> Seq<Capability> {
    seq![Capability::Upload, Capability::Dialog, Capability::Http, Capability::Shell]
}

/// Lists the capabilities to attach at startup, first to last.
pub fn active_capabilities() -> (list: Vec<Capability>)
    ensures
        list@ == active(),
{
    vec![Capability::Upload, Capability::Dialog, Capability::Http, Capability::Shell]
}

/// Every capability is active, and none is attached twice.
pub proof fn lemma_each_active_once(capability: Capability)
    ensures
        active().contains(capability),
        active().no_duplicates(),
{
}

} // verus!
