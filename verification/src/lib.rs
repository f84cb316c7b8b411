//! Verified core of an in-game movement recorder: the command-button and
//! protobuf bit models of the user-command structures, the edge-detecting
//! keyboard tracker, and the route-following state machine that decides,
//! once per command tick, where the player should be steered.
pub mod create_move;
pub mod sdk;
pub mod utils;
