pub mod accept;
pub mod actions;
pub mod admission;
pub mod cm;
pub mod config;
pub mod connection;
pub mod deadlines;
pub mod drain;
pub mod error;
pub mod event;
pub mod inbound;
pub mod install;
pub mod laws;
pub mod listen;
pub mod listener;
pub mod outbound;
pub mod progress;
pub mod registry;
pub mod requests;
pub mod retirement;
pub mod routes;
pub mod service;
pub mod session;
pub mod shutdown;
pub mod slots;
pub mod structure;
pub mod tables;
pub mod terminal;
pub mod text;
pub mod token;
