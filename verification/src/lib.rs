//! Bridge logic for enumerating the operating system's media-playback
//! sessions and driving transport commands against them.
//!
//! Every decision the bridge makes — defaulting unreadable properties,
//! extrapolating the playback position, guarding artwork reads, resolving a
//! session index, folding an asynchronous wait into a verdict — is a function
//! on plain values and is verified here. The host-side plumbing (the foreign
//! call boundary, the OS session provider, the async executor) supplies those
//! values and carries the results back out.
#![allow(non_snake_case)]

pub mod artwork;
pub mod bridge;
pub mod dispatch;
pub mod enumerate;
pub mod session;
pub mod status;
pub mod strings;
pub mod timeline;
