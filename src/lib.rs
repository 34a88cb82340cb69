//! A one-shot request processor: it takes the text of a JSON request, applies
//! a replaceable text transformation, and reports the result together with
//! token counts, the elapsed time and the model identifier.
pub mod request;
pub mod tokens;
