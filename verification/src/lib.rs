//! The game rules of a small multiplayer arena: the player table's reducers
//! on the server, and the lookups and connection bookkeeping of the client.
pub mod player;
pub mod lookup;
pub mod link;
pub mod table;
