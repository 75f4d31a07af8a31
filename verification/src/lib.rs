//! Synthesis of message-dispatch registrations for an actor-style
//! framework.
//!
//! Given a structured implementation block, each method is classified
//! by its leading marker attribute (`question`, `tell`, `broadcast`)
//! and by the shape of its receiver; every question- or tell-classified
//! method yields a routing fragment binding its message-payload type to
//! a call into that method. Fragments are grouped by message kind,
//! preserving method declaration order, and a diagnostic record is
//! produced for every member. Parsing source text into the structured
//! input and rendering the structured output back into source text are
//! left to the surrounding tooling.

pub mod ast;
pub mod scanner;
pub mod synth;
pub mod expand;
pub mod laws;
