//! Moves of a two-player board game as they cross the wire: squares written
//! as row and column tokens, the five-stick chance record, the tagged move
//! variants with their payload codec, and the per-game bookkeeping of
//! two-phase Tam2 moves and of moves waiting to be polled.

pub mod ciurl;
pub mod coord;
pub mod moves;
pub mod session;
