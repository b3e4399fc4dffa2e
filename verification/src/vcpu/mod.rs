//! The virtual CPU: what one pass through the guest leaves behind, and the
//! processor's multiprocessor state.

pub mod entry;
pub mod run;
pub mod state;

pub use self::entry::{chain_then, enter, leave};
pub use self::run::{Exit, Run};
pub use self::state::State;
