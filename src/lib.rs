//! Unified shell surface handling.
//!
//! Three generations of the shell surface protocol (the legacy `wl_shell`,
//! the versioned `zxdg_shell_v6` and the current `xdg_shell`) are reconciled
//! behind one capability contract. The library holds the decisions: which
//! wire requests each canonical operation becomes for each protocol, how
//! native server events are coalesced and translated into canonical events,
//! and when a surface stops reporting events. Sending the requests and
//! receiving the native events is left to the transport of the caller.
pub mod event;
pub mod laws;
pub mod protocol;
pub mod shell;
