//! A streaming chat-completion client: the incremental response decoder
//! (frame assembly, event decoding, delta accumulation, cancellation), and the
//! conversation bookkeeping around it.
pub mod conversation;
pub mod event;
pub mod json;
pub mod turn;
pub mod validator;
