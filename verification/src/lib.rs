//! Verified decision logic of a set of OpenHarmony plugins for Tauri applications:
//! window-state persistence, app continuation, permission queries, process
//! restart, AppGallery updates, Huawei account sign-in and webview screenshots.
//!
//! Every function here computes on plain values; the plugin commands that talk
//! to the platform hand these functions what the platform answered.

pub mod account;
pub mod bridge;
pub mod continuation;
pub mod permissions;
pub mod process;
pub mod screenshot;
pub mod updater;
pub mod window_state;
