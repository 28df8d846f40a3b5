//! Two domains that register their policy with the evaluator: a banking
//! hierarchy and a knowledge hierarchy.

pub mod banking_app;
pub mod banking_laws;
pub mod genai_rag;
pub mod genai_laws;
