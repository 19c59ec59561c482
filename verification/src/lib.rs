//! Build-time text-to-literal conversion.
//!
//! An `env_cast!("VAR" as ty)` call names an environment variable and one of
//! ten numeric types. Expansion validates the shape of the call, resolves the
//! type name, looks the variable up in the build environment, parses its text
//! as the requested type, and yields either a typed numeric literal or a
//! diagnostic tied to the most relevant part of the call.
//!
//! This crate holds the whole decision pipeline as verified functions over
//! plain values: a model of the input expression, the type-tag resolution,
//! the integer and floating-point textual grammars, and the rendering of the
//! result token and of each diagnostic message. The thin front end that talks
//! to the compiler (syntax trees, the environment read, token emission) hands
//! those plain values in and out.

pub mod diag;
pub mod expand;
pub mod float_text;
pub mod literal;
pub mod model;
pub mod numeral;
pub mod tag;
