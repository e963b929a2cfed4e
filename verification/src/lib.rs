//! Locating and editing the live state of a running game whose memory layout
//! changes from build to build.
//!
//! Offline, the code of each known build is acquired ([`acquire`], [`modules`]),
//! scanned for byte signatures ([`pattern`], [`scan`]), and the matches are
//! resolved to module-relative offsets ([`relative`], [`aob_scans`]), which are
//! written out as source text ([`codegen`]). At run time the table of the
//! detected build ([`version`], [`base_addresses`]) is rebased against the
//! loaded module and turned into typed pointer chains and bit flags
//! ([`memedit`], [`pointers`]), which the widgets of the tool work on
//! ([`config`], [`widgets`]).
//!
//! Nothing here touches a process. Memory is a value of type
//! [`memory::Memory`]; where the memory is that of a live process, the chain is
//! walked step by step with [`memedit::PointerChain::begin`] and
//! [`memedit::PointerChain::resume`], and the caller makes the reads.

pub mod acquire;
pub mod aob_scans;
pub mod base_addresses;
pub mod codegen;
pub mod config;
pub mod encoding;
pub mod memedit;
pub mod memory;
pub mod modules;
pub mod order;
pub mod pattern;
pub mod pointers;
pub mod relative;
pub mod scan;
pub mod text;
pub mod util;
pub mod version;
pub mod widgets;
