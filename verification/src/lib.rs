//! The interaction engine of a terminal dashboard for one GraphQL endpoint:
//! the state store and its reducer, the pacing of the event pipeline, and the
//! modal keyboard state machine that drives both.

pub mod graphql;
pub mod interaction;
pub mod pipeline;
pub mod query;
pub mod screen;
pub mod state;
pub mod store;
pub mod text;
