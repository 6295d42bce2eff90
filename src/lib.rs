pub mod ai;
pub mod energy;
pub mod laws;
pub mod protocol;
pub mod resources;

pub use ai::{combination_rules, generation_rules, AiView, EnterpriseAi};
