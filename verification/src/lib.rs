//! A pattern for consistent and reliable error handling: errors carry a kind
//! tag, an optional causal predecessor forming a chain, and an optional
//! backtrace captured once at the point where the chain originates.

mod error;
mod iter;
mod kind;
mod state;
mod trace;

pub use error::chain_of;
pub use error::ChainedError;
pub use error::Error;
pub use error::ResultExt;
pub use iter::ErrorChainIter;
pub use kind::ErrorKind;
pub use kind::ForeignError;
pub use kind::KindView;
pub use state::State;
pub use trace::backtrace_requested;
pub use trace::make_backtrace;
