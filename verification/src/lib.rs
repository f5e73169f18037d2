//! Verified core of the lift calculator: page routing, API endpoints,
//! measure rules, form decisions and the request workflows of the server.

pub mod pages;
pub mod text;
pub mod interface;
pub mod api;
pub mod ui;
pub mod measures;
pub mod session;
pub mod routes;
