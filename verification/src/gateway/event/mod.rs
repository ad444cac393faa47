pub mod dispatchevents;
