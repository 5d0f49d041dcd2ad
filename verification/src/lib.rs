pub mod error;
pub mod text;
pub mod models;
pub mod equipment;
pub mod inventory;
pub mod ids;
pub mod snapshot;
pub mod character;
pub mod hash;
pub mod password;
pub mod parsers;
pub mod validation;
pub mod slug;
pub mod account;
pub mod item_instance;
pub mod paging;
pub mod requests;
pub mod client;
pub mod client_ui;
pub mod dto;
pub mod datetime;
pub mod mob;
pub mod storage;
pub mod client_screens;
pub mod client_panels;
pub mod socket_flow;
pub mod equip_flow;
pub mod load_flow;
pub mod give_flow;
pub mod listing;
pub mod unequip_flow;
