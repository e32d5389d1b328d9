//! Timelocked multisignature governance over a token's risk parameters,
//! and the transfer rules (pause, blacklist, restricted counterparties,
//! rolling sell limit) that those parameters drive.

pub mod address;
pub mod member_list;
pub mod sell_window;
pub mod token;
pub mod governance;
