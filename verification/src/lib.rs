//! Fills in the bodies of an `impl` block's methods with generated code.
//!
//! The crate holds the decisions of the generation pipeline and proves them
//! with Verus: how a declaration is described, how its cache key is derived,
//! what is asked of the generative backend, how its answer is read and
//! validated, and how the validated bodies are spliced back into the
//! declaration. Reading files and talking to the network is left to the
//! caller, which is driven through [`pipeline::Pipeline`].
//!
//! # What is taken on trust
//!
//! The parsers (`syn`, `serde_json`), the digest (`sha2`), the hexadecimal
//! encoder (`hex`) and two functions of the standard library (`Debug` for
//! `str`, `char::is_whitespace`) are called, not verified. Each call stands
//! in a small function marked `external_body`, in [`syntax`], [`json`],
//! [`key`] and [`text`]; what the proofs assume of it is written above it.
//! Where the outcome of a call cannot be stated in a few lines, it is given a
//! name, such as [`syntax::declaration_of`], and the contracts say what the
//! library does with the named outcome, whatever it is.
//!
//! # What is proved
//!
//! Every other function is verified against its contract, and [`laws`] holds
//! what follows for the pipeline as a whole: that the key is a function of
//! the context, that a wrong number of fragments never passes, that each
//! method gets the fragment at its own place, that nothing is sent while
//! offline, and that only a validated text is ever stored.

pub mod config;
pub mod declaration;
pub mod failure;
pub mod json;
pub mod key;
pub mod laws;
pub mod pipeline;
pub mod request;
pub mod response;
pub mod syntax;
pub mod synthesis;
pub mod text;
