//! Crafting and enhancement engine for tokenized game items.
//!
//! The library holds the decisions of the program: recipe records and their
//! byte layout, ingredient accounting, the commit/reveal enhancement session,
//! the pseudo-random multiplier with its late-settlement decay, and the
//! checks that every account handed to an instruction must pass. The host
//! runtime (account storage, cross-program calls, sysvars) stays outside.

pub mod address;
pub mod asset;
pub mod attributes;
pub mod builders;
pub mod bytes;
pub mod consts;
pub mod craft;
pub mod enhance;
pub mod error;
pub mod instruction;
pub mod loaders;
pub mod processor;
pub mod random;
pub mod state;
pub mod token;
