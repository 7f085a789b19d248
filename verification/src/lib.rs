//! Core logic of a peer-to-peer chat client: identities derived from BIP-39
//! seed phrases, the local application state (friends, requests, groups,
//! channels, messages, bootstrap nodes) and the rules by which user commands
//! and packets from the mesh change that state.

pub mod text;
pub mod encoding;
pub mod storage;
pub mod identity;
pub mod network;
pub mod commands;
pub mod laws;
