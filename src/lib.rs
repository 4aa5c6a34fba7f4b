//! Type-state builders for records: the runtime support that generated
//! builders rely on, the generator that plans a builder from a description
//! of a record, and a checked builder whose laws are proved.
pub mod error;
pub mod fields;
pub mod generics;
pub mod machine;
pub mod support;
pub mod synth;
