//! Core logic of a game-content launcher.
//!
//! Two subsystems are covered: the identity chain that turns a Microsoft
//! account into a verified game profile (OAuth2, Xbox Live, XSTS, the game
//! service), and the manifest-driven content-acquisition pipeline that turns a
//! chapter manifest into a complete, integrity-checked local installation.
//!
//! The library holds the decisions and the data: parsing verdicts, CSRF
//! checking, platform filtering, download and integrity verdicts, path and URL
//! construction, and progress planning. Network and filesystem effects are
//! performed by the caller, which feeds their plain results back in.

pub mod altarik;
pub mod auth;
pub mod errors;
pub mod extract;
pub mod launcher;
pub mod manifest;
pub mod progress;
pub mod receiver;
pub mod strutil;

