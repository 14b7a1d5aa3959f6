//! Core logic of a folder-locking tool: a directory is concealed under a
//! dotted name, a bcrypt digest of the owner's password is stored in a
//! metadata file inside it, and OS-level permission hardening is applied.
//! Unlocking verifies the password and reverses the steps.
//!
//! The library decides every step and computes every command; the thin
//! binary around it performs the filesystem and OS calls and reports their
//! outcomes back.

pub mod error;
pub mod file_manager;
pub mod folder_operations;
pub mod fs_model;
pub mod laws;
pub mod password;
pub mod paths;
pub mod permission_manager;
