//! Peer overlay engine: identity bridge, pairwise topic derivation, the
//! peer-topic directory and the decisions of the network reactor.

pub mod identity;
pub mod topic;
pub mod directory;
pub mod event;
pub mod envelope;
pub mod command;
pub mod reactor;
pub mod behavior;
pub mod event_handlers;
pub mod peer_to_peer_service;
pub mod collaborators;
pub mod console;
pub mod data_fragment;
pub mod conflux;
