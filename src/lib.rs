//! Helpers for fetch hooks of the Plato e-reader: requests written to the host as JSON, and
//! network events read back from it line by line.
mod helper;
mod wire;

pub use helper::{line_step, LineStep, PlatoHelper, ReaderAnswer};
pub use wire::{
    decode_network_event, event_from_members, frame_notification, notification_json, wifi_json, NetworkEvent,
    WifiStatus, NEWLINE,
};
