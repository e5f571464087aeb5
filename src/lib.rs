//! The message protocol and data binding of a server-driven dashboard: UI
//! nodes whose fields are literals or pointers into a shared JSON document, and
//! the ordered stream of layouts, snapshots and patches that keeps a client's
//! copy of that document in step with the server's.

pub mod json;
pub mod pointer;
pub mod value;
pub mod ui;
pub mod builders;
pub mod layout;
pub mod sync;
pub mod dispatch;
