//! Request handling for two small HTTP services: a paste bin and a
//! Docker container pilot. The library decides what each endpoint
//! answers; the program around it performs the network, database and
//! Docker calls that the decisions ask for.
pub mod auth;
pub mod clock;
pub mod docker_pilot;
pub mod hastebin;
pub mod ids;
pub mod text;
