//! Software bills of materials for Nix derivations.
//!
//! The crate walks the closure of what a derivation is built from
//! ([`closure`]), reads the answers of the build graph and the package
//! catalog ([`query`], [`catalog`], [`decode`]), resolves the license and
//! homepage fields of the catalog, which come in several shapes, to one
//! canonical shape ([`normalize`]), and assembles the bill of materials
//! ([`sbom`]). It does not run the queries itself: its caller does, and hands
//! it what came back.
pub mod catalog;
pub mod closure;
pub mod cyclonedx;
pub mod decode;
pub mod error;
pub mod json;
pub mod nix;
pub mod normalize;
pub mod query;
pub mod sbom;
pub mod spdx_spec;
