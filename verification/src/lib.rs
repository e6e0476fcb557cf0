//! Verified core of the `xint` command-line intelligence tool's two front
//! ends: the interactive dashboard (menu resolution, palette scoring, text
//! layout, bounded output scrollback, key-event state machine) and the MCP
//! JSON-RPC server (tool catalog, policy and budget gates, dispatch, and an
//! emitter whose reply text is pinned character by character). Terminal,
//! process, clock and network work stays outside this crate, as does reading
//! fields out of parsed request JSON, which goes through the opaque
//! accessors of `outside`; every decision and every produced line of text is
//! computed here, from plain values, under contract.

pub mod frame;
pub mod json;
pub mod mcp;
pub mod menu;
pub mod outside;
pub mod policy;
pub mod render;
pub mod session;
pub mod text;
