//! Bindings between application owners and Minecraft accounts, and the
//! request protocol that adds, removes, fetches and lists them.
//!
//! The library holds the decisions of each request handler as a verified
//! state machine; the program around it performs the store queries, the
//! name lookup, the whitelist calls and the message publishing that each
//! action asks for, and feeds the outcome back as an event.
pub mod account;
pub mod messages;
pub mod table;
pub mod add;
pub mod remove;
pub mod read;
