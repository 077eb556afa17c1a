//! AirPods control stack.

pub mod text;
pub mod decibel;
pub mod domain;
pub mod framing;
pub mod ipc;
pub mod aacp;
pub mod battery;
pub mod address;
pub mod config;
pub mod power;
pub mod engine;
pub mod service;
pub mod bluez;
pub mod stream;
pub mod lifecycle;
pub mod a2dp;
pub mod workers;
pub mod sound;
pub mod ctl;
pub mod gui_client;
pub mod gui_view;
