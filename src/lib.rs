//! Decides whether a machine can hold a language model locally, and how well.
//!
//! `hardware` holds the one-time snapshot of the machine, `probe` turns the
//! raw output of the GPU probes into that snapshot's GPU fields, `fit`
//! grades a model against a snapshot, and `text` and `ui` hold the small
//! text helpers they share.
//!
//! Memory sizes are whole mebibytes (MiB) throughout.
pub mod fit;
pub mod hardware;
pub mod text;
pub mod probe;
pub mod ui;
