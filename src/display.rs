//! Display-ready values derived from the race state.

use crate::race::PositionTable;
use crate::text::{decimal, decimal_string, last_name, second_token};
use vstd::prelude::*;

verus! {

/// A three-level severity, shown as a color.
#[derive(Debug, Clone, Copy, PartialEq, Eq, Structural)]
pub enum Severity {
    Safe,
    Warning,
    Critical,
}

/// The bucket of a usage or wear percentage: up to 50 is safe, up to 70 a
/// warning, anything higher critical.
pub open spec fn wear_bucket(value: nat) -> Severity {
    if value <= 50 {
        Severity::Safe
    } else if value <= 70 {
        Severity::Warning
    } else {
        Severity::Critical
    }
}

/// The bucket of a percentage where a low value is the bad one (a level that
/// runs out): up to 30 is critical, up to 70 a warning, anything higher safe.
pub open spec fn level_bucket(value: nat) -> Severity {
    if value <= 30 {
        Severity::Critical
    } else if value <= 70 {
        Severity::Warning
    } else {
        Severity::Safe
    }
}

/// Colors tyre wear, rev lights, throttle and brake.
pub fn wear_color_percentage(value: usize) -> (r: Severity)
    ensures
        r == wear_bucket(value as nat),
{
    if value <= 50 {
        Severity::Safe
    } else if value <= 70 {
        Severity::Warning
    } else {
        Severity::Critical
    }
}

/// Colors a level where running low is the danger.
pub fn color_percentage(value: usize) -> (r: Severity)
    ensures
        r == level_bucket(value as nat),
{
    if value <= 30 {
        Severity::Critical
    } else if value <= 70 {
        Severity::Warning
    } else {
        Severity::Safe
    }
}

/// One line of the live running order, ready to draw.
pub struct PositionRow {
    /// The player's own row is drawn highlighted.
    pub highlighted: bool,
    /// Rank, driver's last name, lap, last lap, best lap, tyre.
    pub cells: Vec<String>,
}

/// The short name shown for a driver: the last name, or the whole name when
/// it has only one part.
pub open spec fn short_name(name: Seq<char>) -> Seq<char> {
    match second_token(name) {
        Some(t) => t,
        None => name,
    }
}

/// Projects one entry of the running order into its display row.
pub fn position_row(p: &PositionTable) -> (r: PositionRow)
    ensures
        r.highlighted == p.is_player,
        r.cells@.len() == 6,
        r.cells@[0]@ == decimal(p.position as nat),
        r.cells@[1]@ == short_name(p.driver.driver@),
        r.cells@[2]@ == decimal(p.current_lap_num as nat),
        r.cells@[3]@ == p.last_lap@,
        r.cells@[4]@ == p.best_lap@,
        r.cells@[5]@ == p.tyre@,
{
    let name = match last_name(p.driver.driver.as_str()) {
        Some(t) => t,
        None => p.driver.driver.clone(),
    };
    let mut cells: Vec<String> = Vec::new();
    cells.push(decimal_string(p.position as u64));
    cells.push(name);
    cells.push(decimal_string(p.current_lap_num as u64));
    cells.push(p.last_lap.clone());
    cells.push(p.best_lap.clone());
    cells.push(p.tyre.clone());
    PositionRow { highlighted: p.is_player, cells }
}

} // verus!
