//! MIDI control-message ingestion and parameter mapping for live visual
//! sketches driven by a 4x4 grid of knobs.
//!
//! Raw bytes from a MIDI input arrive through a FIFO event channel, are
//! decoded into typed messages, dispatched by (channel, controller number)
//! to named sketch parameters, and mapped from the 7-bit controller range
//! into each parameter's own domain.

mod channel;
mod controls;
mod decode;
mod dispatch;
mod mapping;
mod pipeline;

pub use channel::EventChannel;
pub use channel::lemma_fifo_order;
pub use channel::sends_spec;

pub use controls::ControlIdentifier;
pub use controls::control_for_number;
pub use controls::control_for_number_spec;
pub use controls::lemma_controller_number_round_trip;

pub use decode::DecodeError;
pub use decode::DecodedMessage;
pub use decode::decode;
pub use decode::decode_spec;
pub use decode::encode_cc_spec;
pub use decode::encode_control_change;
pub use decode::lemma_control_change_round_trip;
pub use decode::lemma_invalid_status_malformed;
pub use decode::message_valid;

pub use dispatch::DispatchEntry;
pub use dispatch::DispatchTable;
pub use dispatch::ParameterState;
pub use dispatch::ParameterTarget;
pub use dispatch::apply_target;
pub use dispatch::apply_target_spec;
pub use dispatch::dispatch;
pub use dispatch::dispatch_spec;
pub use dispatch::entries_unique;
pub use dispatch::lemma_dispatch_deterministic;
pub use dispatch::lemma_dispatch_idempotent;
pub use dispatch::target_for_spec;

pub use mapping::BIPOLAR_DENOMINATOR;
pub use mapping::BipolarValue;
pub use mapping::SPEED_DENOMINATOR;
pub use mapping::SPEED_MAX_NUMERATOR;
pub use mapping::SPEED_MIN_NUMERATOR;
pub use mapping::SpeedValue;
pub use mapping::UNIT_DENOMINATOR;
pub use mapping::UnitValue;
pub use mapping::bipolar;
pub use mapping::bipolar_numer;
pub use mapping::lemma_bipolar_bounded_centred;
pub use mapping::lemma_linear_bounded_monotonic;
pub use mapping::lemma_speed_curve_bounded_monotonic;
pub use mapping::linear;
pub use mapping::linear_numer;
pub use mapping::speed_curve;
pub use mapping::speed_numer;

pub use pipeline::malformed_of;
pub use pipeline::process_events;
pub use pipeline::process_spec;
pub use pipeline::step_spec;
pub use pipeline::update_frame;
