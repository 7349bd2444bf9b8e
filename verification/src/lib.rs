//! Sentinel browser core logic: tabs, navigation routing, update checks,
//! governance state, network policy decisions, search post-processing and
//! the internal HTML pages.

pub mod text;
pub mod clock;
pub mod tabs;
pub mod update;
pub mod codec;
pub mod query;
pub mod network;
pub mod routes;
pub mod governance;
pub mod navigation;
pub mod views;
pub mod search;
pub mod ranking;
pub mod security;
pub mod adblock;
pub mod pt;
pub mod socks;
pub mod v2ray;
pub mod dns;
pub mod ui;
pub mod storage;
pub mod startup;
pub mod shards;
pub mod voting;
pub mod urls;
pub mod commands;
pub mod identity;
