//! Race-state aggregation for a live telemetry dashboard: decoded packets are
//! merged one at a time into a single snapshot, which is then projected into
//! display-ready values.

pub mod display;
pub mod race;
pub mod text;

pub use display::{color_percentage, position_row, wear_color_percentage, PositionRow, Severity};
pub use race::{
    AppData, CarStatus, CarTelemetryData, DriverDetails, LapData, Packet, PlayerTelemetry,
    PositionTable, UNKNOWN_PLAYER,
};
pub use text::{last_name, suggested_gear_label, to_lap_time};
