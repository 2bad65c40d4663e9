//! The core of a runtime for functions compiled to WebAssembly.
//!
//! A guest runs inside the host process and reaches the host through a
//! small set of imported functions ([`abi`]). Through them it reads its input
//! and the responses to its I/O calls, page by page through windows of fixed
//! size ([`paging`], [`buffers`]), calls I/O modules by name ([`registry`],
//! [`threader`]) and reports its outcome ([`status`]). The runner and the
//! launcher use the rest: what an instance starts with ([`state`],
//! [`runner`], [`module`]) and how an outcome is answered ([`launcher`]).
//!
//! Beside the core stand what the tools around it need: the guest's events
//! ([`event`]), entities and their manifests ([`entity`], [`package`]), the
//! providers that a project is deployed to ([`providers`], [`cast`]) and the
//! start of a container in a cluster ([`kubelet`]). [`table`] and [`text`]
//! hold what several of them share.

pub mod abi;
pub mod buffers;
pub mod cast;
pub mod constants;
pub mod entity;
pub mod event;
pub mod kubelet;
pub mod launcher;
pub mod module;
pub mod package;
pub mod paging;
pub mod providers;
pub mod registry;
pub mod runner;
pub mod state;
pub mod status;
pub mod table;
pub mod text;
pub mod threader;
pub mod wasm;
