//! Domain logic of a rental marketplace: identity and tokens, listings,
//! bookings, payments, subscriptions, messaging and reviews.
//!
//! Every decision a request handler takes is a function here, from plain
//! values to plain values, with a contract that Verus proves. Reading from and
//! writing to the database, and the HTTP surface, are the caller's business.

pub mod ids;
pub mod text;
pub mod time;
pub mod error;
pub mod state;
pub mod pagination;
pub mod jwt;
pub mod auth;
pub mod product;
pub mod rental;
pub mod payment;
pub mod subscription;
pub mod messaging;
pub mod review;
pub mod admin;
pub mod notification;
pub mod health;
pub mod config;
