//! Clipboard synchronisation between peers: the content model, the change
//! detector with echo suppression, the applier of inbound content, and the
//! routing decisions at the boundary of the broadcast transport.

pub mod content;
pub mod echo;
pub mod detector;
pub mod applier;
pub mod sync;
pub mod router;
