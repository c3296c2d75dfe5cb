//! Context-window usage figures for the conversation composer: token
//! counts in compact form, the share of the window in use, its severity
//! band, and the tooltip and accessible-label texts built from them.

pub mod decimal;
pub mod tokens;
pub mod context_ring;
