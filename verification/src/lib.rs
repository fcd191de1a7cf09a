//! Translates live gamepad input into the command protocol of a remote
//! controller-emulation target.
//!
//! The crate holds the input-state reconciliation and packet-emission core:
//! a per-button transition state machine driven by raw down/up events, a
//! deadzone rule for analog stick samples, and a synthesizer that turns one
//! polling tick's changes into protocol command strings and binary frames.
//! Opening the transport, draining the event queue and transmitting the
//! frames are left to the surrounding program.

pub mod buttons;
pub mod laws;
pub mod packets;
pub mod state;

pub use buttons::Button;
pub use buttons::PhysicalButton;
pub use buttons::get_button_name;
pub use state::Axis;
pub use state::ButtonState;
pub use state::ControllerState;
pub use state::RawEvent;
pub use state::get_axis_values;
pub use state::process_button_action;
pub use packets::Stick;
pub use packets::build_packets;
pub use packets::make_network_line;
pub use packets::make_packet_for_button_state;
pub use packets::make_packet_for_stick;
pub use packets::to_hex_string;
