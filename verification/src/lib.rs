//! Decoders for the fixed-layout binary tables of a legacy game-data format:
//! technology/age effect groups, graphic (sprite animation) definitions,
//! random-map generation parameters, and scenario player-data blocks.
//!
//! Every decoder works over an in-memory byte cursor ([`reader::Reader`]) and
//! is specified against a mathematical decode function of the byte sequence,
//! so that what a decoder returns, how far it advances the cursor, and when it
//! fails are all pinned down exactly.

pub mod reader;
pub mod float_bits;
pub mod ident;
pub mod age;
pub mod graphic;
pub mod random_map;
pub mod player_data;
