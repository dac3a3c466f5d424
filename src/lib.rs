//! Display schemas and data streaming for profiler markers, and the
//! derivation engine that builds them from an annotated record definition.
#![allow(non_camel_case_types)]

pub mod derive;
pub mod lemmas;
pub mod marker;
pub mod schema;
pub mod vocab;
pub mod writer;
