//! The first version of the hotel's client form, which only asked for the
//! fields that every client must have.

pub mod clients;
