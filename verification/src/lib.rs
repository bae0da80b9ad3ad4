//! The rules behind a chat bot for the home and the services it talks to.
//!
//! The heart of the crate is a deterministic grammar for the commands a chat
//! user may type: a train arrival query, a spending entry, a budget, a
//! spending summary or reset. Every rule of it is a pure function from the
//! bytes of a text to the value it recognises at the head of the text and
//! the number of bytes it consumed; `laws` holds what is proved of the
//! grammar as a whole.
//!
//! Around it stand the rules of the services: the timetable and the next
//! train in it, the spending ledger, the store of notifications, and the
//! texts that the bot sends.
pub mod token;
pub mod lexicon;
pub mod direction;
pub mod category;
pub mod station;
pub mod request;
pub mod parser;
pub mod dispatch;
pub mod laws;
pub mod text;
pub mod metro;
pub mod spending;
pub mod notification;
pub mod reply;
pub mod config;
