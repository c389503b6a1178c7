//! Chat-handle payments: a ledger that maps chat handles to chain addresses and
//! routes payments between them, the consumption cursor that feeds it exactly
//! once from a chat update stream, and the reading of chat text into ledger
//! commands.

pub mod amount;
pub mod bot;
pub mod cursor;
pub mod escrow;
pub mod events;
pub mod kinds;
pub mod ledger;
pub mod msg;
pub mod operator;
pub mod proto;
pub mod state_machine;
pub mod table;
pub mod telegram;
pub mod text;
pub mod webhook;
