//! Client library for the PostNL consumer portal: the sign-in protocol with its
//! bot check and PKCE authorization, and the token lifecycle built on it.
//!
//! The library decides and the caller carries: the flows in [`flow`] hand out
//! each HTTP request as a plain value and take its reply back, so that every
//! protocol decision is made, and verified, here.
pub mod config;
pub mod data;
pub mod dimensions;
pub mod error;
pub mod flow;
pub mod formatted;
pub mod json;
pub mod pattern;
pub mod pkce;
pub mod redirect;
pub mod request;
pub mod token;
pub mod verification;

pub use config::Config;
pub use error::Error;
pub use flow::{AuthState, LoggedIn, LoginFlow, LoginStep, New, TokenFlow, TokenStep};
pub use request::{Reply, Request};
pub use token::{AccessToken, RefreshToken, Token};
