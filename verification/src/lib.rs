//! Alegría: the bookkeeping logic of a bar and hotel point of sale.
//!
//! The library holds the state machines of the application's screens (the
//! bar till, the hotel's clients, rooms, room types and reservations), the
//! validation of what the user types, the pagination of the lists and the
//! identifiers that the database stores for the fixed enumerations. Every
//! operation is a function from a state and a message to the next state and
//! the list of outside work (database queries, printing) that the caller is
//! to carry out.

pub mod text;
pub mod dates;
pub mod entities;
pub mod pagination;
pub mod models;
pub mod action;
pub mod lists;
pub mod bar;
pub mod hotel_subscreens;
pub mod hotel;
pub mod numpad;
pub mod application;
