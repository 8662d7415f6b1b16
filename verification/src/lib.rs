//! Bootstrap logic of a desktop shell that ships its backend server as a
//! bundled archive: deciding when to unpack the bundle, unpacking it,
//! launching the server, waiting until it accepts connections, and telling the
//! embedded view what to show.
//!
//! Everything here computes on plain values. Touching the file system, the
//! network, child processes and the view is left to the caller, which performs
//! the requests these modules hand out and reports back what happened.

pub mod archive;
pub mod bootstrap;
pub mod errors;
pub mod extract;
pub mod layout;
pub mod notifier;
pub mod poller;
pub mod supervisor;
pub mod text;
pub mod version;
