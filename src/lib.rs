// Lifecycle supervision of a desktop tray's managed background processes:
// the per-process state machine and the laws it obeys, the decisions of a
// termination, and the meaning of each tray menu item.
pub mod dispatch;
pub mod laws;
pub mod process;
pub mod supervisor;
pub mod termination;
