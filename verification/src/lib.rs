//! Intent parsing, task planning, AI-tier routing and privacy rules of the
//! CNTRL browser backend, with their contracts proved by Verus.

pub mod ai;
pub mod background;
pub mod db;
pub mod error;
pub mod habits;
pub mod ids;
pub mod intent;
pub mod keychain;
pub mod pipeline;
pub mod planner;
pub mod privacy;
pub mod slots;
pub mod text;
