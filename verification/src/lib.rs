//! Verified core of the DeskStream remote-desktop system: wire formats,
//! relay routing decisions, identity handling and text helpers.

pub mod text;
pub mod wire;
pub mod protocol;
pub mod relay;
pub mod ws_outbox;
pub mod relay_session;
pub mod registry;
pub mod service;
pub mod identity;
pub mod status;
pub mod json_text;
pub mod json_doc;
pub mod gui;
pub mod gui_readback;
pub mod window;
pub mod tray;
pub mod icon;
pub mod setup;
pub mod backend;
pub mod agent;
pub mod agent_loop;
pub mod h264;
pub mod encoder;
pub mod font;
pub mod keys;
pub mod ui;
pub mod ui_fields;
pub mod canvas;
pub mod nv12;
pub mod discovery;
pub mod hud;
pub mod frame;
pub mod local;
pub mod viewer;
