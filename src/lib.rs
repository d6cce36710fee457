//! Application-lifecycle core: per-frame timing, edge-triggered input
//! tracking, window-configuration reconciliation and the frame driver that
//! sequences them. Platform work (windows, clocks, GPU) stays with the host;
//! every decision made here is verified.
pub mod application;
pub mod input;
pub mod timing;
