//! The race-state data model and the aggregator that merges one decoded
//! packet at a time into it.
//!
//! Every per-car array refers to cars by slot: the n-th entry of the driver
//! roster, of the car-status roster and of any per-car packet payload is the
//! same physical car.

use crate::text::{lap_time_text, to_lap_time};
use vstd::prelude::*;

verus! {

/// The player-slot value that means the player's car is not known yet.
pub const UNKNOWN_PLAYER: u8 = 255;

/// Who drives a car. Captured once per car slot.
#[derive(Debug, Clone)]
pub struct DriverDetails {
    /// The driver's display name.
    pub driver: String,
    pub team: String,
    /// The car's race number; 0 means unassigned.
    pub race_number: u8,
    pub nationality: String,
    /// The full name the game reports for the participant.
    pub name: String,
}

impl DriverDetails {
    /// A field-by-field copy.
    pub fn duplicate(&self) -> (r: Self)
        ensures
            r == *self,
    {
        DriverDetails {
            driver: self.driver.clone(),
            team: self.team.clone(),
            race_number: self.race_number,
            nationality: self.nationality.clone(),
            name: self.name.clone(),
        }
    }
}

/// Tyre compound and wear of one car.
#[derive(Debug, Clone)]
pub struct CarStatus {
    /// The visual tyre compound's label.
    pub tyre: String,
    /// Wear of each corner, in percent.
    pub rear_left_tyre: u8,
    pub rear_right_tyre: u8,
    pub front_left_tyre: u8,
    pub front_right_tyre: u8,
}

impl CarStatus {
    /// A field-by-field copy.
    pub fn duplicate(&self) -> (r: Self)
        ensures
            r == *self,
    {
        CarStatus {
            tyre: self.tyre.clone(),
            rear_left_tyre: self.rear_left_tyre,
            rear_right_tyre: self.rear_right_tyre,
            front_left_tyre: self.front_left_tyre,
            front_right_tyre: self.front_right_tyre,
        }
    }
}

/// Live telemetry of one car, as a car-telemetry packet carries it.
#[derive(Debug, Clone, Copy)]
pub struct CarTelemetryData {
    /// Speed in km/h.
    pub speed: u16,
    /// Throttle and brake application, in percent.
    pub throttle: u8,
    pub brake: u8,
    /// -1 is reverse, 0 neutral, 1 to 8 the forward gears.
    pub gear: i8,
    pub engine_rpm: u16,
    pub drs: bool,
    pub rev_lights_percent: u8,
}

/// The player's own telemetry.
#[derive(Debug, Clone, Copy)]
pub struct PlayerTelemetry {
    pub speed: u16,
    pub throttle: u8,
    pub brake: u8,
    pub gear: i8,
    /// Below 1 means that no gear is suggested.
    pub suggested_gear: i8,
    pub engine_rpm: u16,
    pub drs: bool,
    pub rev_lights_percent: u8,
}

/// Timing and running order of one car, as a lap packet carries it.
/// Times are in milliseconds.
#[derive(Debug, Clone, Copy)]
pub struct LapData {
    pub last_lap_time: u64,
    pub best_lap_time: u64,
    pub best_lap_sector_1_time: u64,
    /// Classification rank; 0 means not classified.
    pub car_position: u8,
    pub current_lap_num: u8,
}

/// One row of the live running order.
#[derive(Debug, Clone)]
pub struct PositionTable {
    pub is_player: bool,
    /// Classification rank, from 1.
    pub position: u8,
    pub driver: DriverDetails,
    pub best_lap: String,
    pub last_lap: String,
    /// The three sector cells all show the best lap's first-sector time.
    pub s1: String,
    pub s2: String,
    pub s3: String,
    pub tyre: String,
    pub current_lap_num: u8,
}

/// A decoded packet. Each kind but `Motion` and `Other` carries the slot of
/// the observer's own car and a payload indexed by car slot.
pub enum Packet {
    Motion,
    CarStatus { player_car_index: u8, car_status_data: Vec<CarStatus> },
    CarTelemetry {
        player_car_index: u8,
        car_telemetry_data: Vec<CarTelemetryData>,
        suggested_gear: i8,
    },
    Participants { player_car_index: u8, participants: Vec<DriverDetails> },
    Lap { player_car_index: u8, lap_data: Vec<LapData> },
    /// A speed-trap event: `speed` is in thousandths of km/h.
    SpeedTrap { player_car_index: u8, vehicle_index: u8, speed: u32 },
    Other,
}

/// The aggregate race state.
pub struct AppData {
    /// The player's car slot, or `UNKNOWN_PLAYER`.
    pub player_index: u8,
    pub player_details: Option<DriverDetails>,
    pub player_car_status: Option<CarStatus>,
    pub player_telemetry: Option<PlayerTelemetry>,
    /// The running order, ascending by rank.
    pub positions_table: Vec<PositionTable>,
    /// Drivers with a race number, in slot order.
    pub participants: Vec<DriverDetails>,
    /// One entry per car slot.
    pub car_status: Vec<CarStatus>,
    /// The player's latest speed-trap reading, in thousandths of km/h.
    pub speed_trap: Option<u32>,
}

/// Every row has a positive rank and the rows ascend by rank.
pub open spec fn ranked(t: Seq<PositionTable>) -> bool {
    &&& forall|i: int| 0 <= i < t.len() ==> #[trigger] t[i].position > 0
    &&& forall|i: int, j: int|
        0 <= i < j < t.len() ==> #[trigger] t[i].position <= #[trigger] t[j].position
}

/// Whether `slot` names a known player car within a payload of `len` entries.
pub open spec fn player_slot(slot: u8, len: nat) -> bool {
    slot != UNKNOWN_PLAYER && (slot as nat) < len
}

/// The drivers of `s` whose race number is positive, in order.
pub open spec fn numbered(s: Seq<DriverDetails>) -> Seq<DriverDetails>
    decreases s.len(),
{
    if s.len() == 0 {
        s
    } else {
        let prev = numbered(s.drop_last());
        if s.last().race_number > 0 {
            prev.push(s.last())
        } else {
            prev
        }
    }
}

/// Whether the lap entry of slot `i` can be shown: it is classified and both
/// rosters have the slot.
pub open spec fn shown(lap: Seq<LapData>, nr: nat, ns: nat, i: int) -> bool {
    0 <= i < lap.len() && lap[i].car_position > 0 && i < nr && i < ns
}

/// The shown slots below `n` whose rank is `r`, in slot order.
pub open spec fn slots_with_rank(lap: Seq<LapData>, nr: nat, ns: nat, r: int, n: int) -> Seq<int>
    decreases n,
{
    if n <= 0 {
        Seq::empty()
    } else {
        let prev = slots_with_rank(lap, nr, ns, r, n - 1);
        if shown(lap, nr, ns, n - 1) && lap[n - 1].car_position == r {
            prev.push(n - 1)
        } else {
            prev
        }
    }
}

/// The shown slots with rank at most `r`, ascending by rank and, within a
/// rank, in slot order.
pub open spec fn race_order(lap: Seq<LapData>, nr: nat, ns: nat, r: int) -> Seq<int>
    decreases r,
{
    if r <= 0 {
        Seq::empty()
    } else {
        race_order(lap, nr, ns, r - 1) + slots_with_rank(lap, nr, ns, r, lap.len() as int)
    }
}

/// The row built for one car from its lap entry, driver and status.
pub open spec fn row_of(
    p: PositionTable,
    l: LapData,
    d: DriverDetails,
    c: CarStatus,
    is_player: bool,
) -> bool {
    &&& p.is_player == is_player
    &&& p.position == l.car_position
    &&& p.driver == d
    &&& p.best_lap@ == lap_time_text(l.best_lap_time as nat)
    &&& p.last_lap@ == lap_time_text(l.last_lap_time as nat)
    &&& p.s1@ == lap_time_text(l.best_lap_sector_1_time as nat)
    &&& p.s2@ == lap_time_text(l.best_lap_sector_1_time as nat)
    &&& p.s3@ == lap_time_text(l.best_lap_sector_1_time as nat)
    &&& p.tyre == c.tyre
    &&& p.current_lap_num == l.current_lap_num
}

/// `t` holds one row per slot of `order`, in that order.
pub open spec fn rows_follow(
    t: Seq<PositionTable>,
    order: Seq<int>,
    lap: Seq<LapData>,
    roster: Seq<DriverDetails>,
    status: Seq<CarStatus>,
    player: u8,
) -> bool {
    &&& t.len() == order.len()
    &&& forall|k: int|
        0 <= k < t.len() ==> row_of(
            #[trigger] t[k],
            lap[order[k]],
            roster[order[k]],
            status[order[k]],
            order[k] == player as int && player != UNKNOWN_PLAYER,
        )
}

/// The running order that a lap packet yields: one row for each classified
/// slot that both rosters have, ascending by rank.
pub open spec fn lap_table(
    t: Seq<PositionTable>,
    lap: Seq<LapData>,
    roster: Seq<DriverDetails>,
    status: Seq<CarStatus>,
    player: u8,
) -> bool {
    rows_follow(t, race_order(lap, roster.len(), status.len(), 255), lap, roster, status, player)
}

proof fn lemma_slots_with_rank(lap: Seq<LapData>, nr: nat, ns: nat, r: int, n: int)
    ensures
        forall|k: int|
            0 <= k < slots_with_rank(lap, nr, ns, r, n).len() ==> {
                let s = #[trigger] slots_with_rank(lap, nr, ns, r, n)[k];
                shown(lap, nr, ns, s) && lap[s].car_position == r
            },
    decreases n,
{
    if n > 0 {
        lemma_slots_with_rank(lap, nr, ns, r, n - 1);
        let prev = slots_with_rank(lap, nr, ns, r, n - 1);
        assert forall|k: int| 0 <= k < slots_with_rank(lap, nr, ns, r, n).len() implies {
            let s = #[trigger] slots_with_rank(lap, nr, ns, r, n)[k];
            shown(lap, nr, ns, s) && lap[s].car_position == r
        } by {
            if k < prev.len() {
                assert(slots_with_rank(lap, nr, ns, r, n)[k] == prev[k]);
            }
        }
    }
}

proof fn lemma_race_order(lap: Seq<LapData>, nr: nat, ns: nat, r: int)
    ensures
        forall|k: int|
            0 <= k < race_order(lap, nr, ns, r).len() ==> {
                let s = #[trigger] race_order(lap, nr, ns, r)[k];
                shown(lap, nr, ns, s) && lap[s].car_position <= r
            },
        forall|i: int, j: int|
            0 <= i < j < race_order(lap, nr, ns, r).len() ==> lap[race_order(
                lap,
                nr,
                ns,
                r,
            )[i]].car_position <= lap[race_order(lap, nr, ns, r)[j]].car_position,
    decreases r,
{
    if r > 0 {
        lemma_race_order(lap, nr, ns, r - 1);
        lemma_slots_with_rank(lap, nr, ns, r, lap.len() as int);
        let a = race_order(lap, nr, ns, r - 1);
        let b = slots_with_rank(lap, nr, ns, r, lap.len() as int);
        assert(race_order(lap, nr, ns, r) == a + b);
        assert forall|k: int| 0 <= k < (a + b).len() implies {
            let s = #[trigger] (a + b)[k];
            shown(lap, nr, ns, s) && lap[s].car_position <= r
        } by {
            if k >= a.len() {
                assert((a + b)[k] == b[k - a.len()]);
            } else {
                assert((a + b)[k] == a[k]);
            }
        }
        assert forall|i: int, j: int| 0 <= i < j < (a + b).len() implies lap[(a
            + b)[i]].car_position <= lap[(a + b)[j]].car_position by {
            if j < a.len() {
                assert((a + b)[i] == a[i]);
                assert((a + b)[j] == a[j]);
            } else if i >= a.len() {
                assert((a + b)[i] == b[i - a.len()]);
                assert((a + b)[j] == b[j - a.len()]);
            } else {
                assert((a + b)[i] == a[i]);
                assert((a + b)[j] == b[j - a.len()]);
            }
        }
    }
}

/// Every running order that a lap packet yields holds only classified cars
/// (rank above zero) and ascends by rank.
pub proof fn lemma_lap_table_ranked(
    t: Seq<PositionTable>,
    lap: Seq<LapData>,
    roster: Seq<DriverDetails>,
    status: Seq<CarStatus>,
    player: u8,
)
    requires
        lap_table(t, lap, roster, status, player),
    ensures
        ranked(t),
{
    let order = race_order(lap, roster.len(), status.len(), 255);
    lemma_race_order(lap, roster.len(), status.len(), 255);
    assert forall|i: int| 0 <= i < t.len() implies #[trigger] t[i].position > 0 by {
        assert(shown(lap, roster.len(), status.len(), order[i]));
    }
    assert forall|i: int, j: int| 0 <= i < j < t.len() implies #[trigger] t[i].position
        <= #[trigger] t[j].position by {
        assert(row_of(t[i], lap[order[i]], roster[order[i]], status[order[i]], order[i] == player as int && player != UNKNOWN_PLAYER));
        assert(row_of(t[j], lap[order[j]], roster[order[j]], status[order[j]], order[j] == player as int && player != UNKNOWN_PLAYER));
    }
}

fn make_row(l: &LapData, d: &DriverDetails, c: &CarStatus, is_player: bool) -> (p: PositionTable)
    ensures
        row_of(p, *l, *d, *c, is_player),
{
    PositionTable {
        is_player,
        position: l.car_position,
        driver: d.duplicate(),
        best_lap: to_lap_time(l.best_lap_time),
        last_lap: to_lap_time(l.last_lap_time),
        s1: to_lap_time(l.best_lap_sector_1_time),
        s2: to_lap_time(l.best_lap_sector_1_time),
        s3: to_lap_time(l.best_lap_sector_1_time),
        tyre: c.tyre.clone(),
        current_lap_num: l.current_lap_num,
    }
}

/// Builds the running order from a lap payload and the two rosters.
pub fn build_positions(
    lap: &Vec<LapData>,
    roster: &Vec<DriverDetails>,
    status: &Vec<CarStatus>,
    player: u8,
) -> (t: Vec<PositionTable>)
    ensures
        lap_table(t@, lap@, roster@, status@, player),
        ranked(t@),
{
    let mut t: Vec<PositionTable> = Vec::new();
    let mut r: u16 = 1;
    while r <= 255
        invariant
            1 <= r <= 256,
            rows_follow(
                t@,
                race_order(lap@, roster@.len(), status@.len(), r - 1),
                lap@,
                roster@,
                status@,
                player,
            ),
        decreases 256 - r,
    {
        let ghost before = race_order(lap@, roster@.len(), status@.len(), r - 1);
        let mut i: usize = 0;
        while i < lap.len()
            invariant
                1 <= r <= 255,
                i <= lap@.len(),
                before == race_order(lap@, roster@.len(), status@.len(), r - 1),
                rows_follow(
                    t@,
                    before + slots_with_rank(lap@, roster@.len(), status@.len(), r as int, i as int),
                    lap@,
                    roster@,
                    status@,
                    player,
                ),
            decreases lap@.len() - i,
        {
            let ghost order = before + slots_with_rank(
                lap@,
                roster@.len(),
                status@.len(),
                r as int,
                i as int,
            );
            if lap[i].car_position > 0 && lap[i].car_position as u16 == r && i < roster.len() && i
                < status.len() {
                let row = make_row(
                    &lap[i],
                    &roster[i],
                    &status[i],
                    i == player as usize && player != UNKNOWN_PLAYER,
                );
                let ghost t0 = t@;
                t.push(row);
                let ghost next = order.push(i as int);
                assert(before + slots_with_rank(
                    lap@,
                    roster@.len(),
                    status@.len(),
                    r as int,
                    i + 1,
                ) =~= next);
                assert forall|k: int| 0 <= k < t@.len() implies row_of(
                    #[trigger] t@[k],
                    lap@[next[k]],
                    roster@[next[k]],
                    status@[next[k]],
                    next[k] == player as int && player != UNKNOWN_PLAYER,
                ) by {
                    if k < t0.len() {
                        assert(t@[k] == t0[k]);
                        assert(next[k] == order[k]);
                    }
                }
            } else {
                assert(before + slots_with_rank(
                    lap@,
                    roster@.len(),
                    status@.len(),
                    r as int,
                    i + 1,
                ) =~= order);
            }
            i = i + 1;
        }
        assert(race_order(lap@, roster@.len(), status@.len(), r as int) == before
            + slots_with_rank(lap@, roster@.len(), status@.len(), r as int, lap@.len() as int));
        r = r + 1;
    }
    proof {
        lemma_lap_table_ranked(t@, lap@, roster@, status@, player);
    }
    t
}

/// The player's telemetry taken from a car's entry and the packet's
/// suggested gear.
pub open spec fn telemetry_of(c: CarTelemetryData, suggested_gear: i8) -> PlayerTelemetry {
    PlayerTelemetry {
        speed: c.speed,
        throttle: c.throttle,
        brake: c.brake,
        gear: c.gear,
        suggested_gear,
        engine_rpm: c.engine_rpm,
        drs: c.drs,
        rev_lights_percent: c.rev_lights_percent,
    }
}

/// What applying `packet` to `s` yields, `n` being the new state.
pub open spec fn applied(s: AppData, packet: Packet, n: AppData) -> bool {
    match packet {
        Packet::CarStatus { player_car_index: p, car_status_data: v } => n == (AppData {
            player_index: p,
            player_car_status: if player_slot(p, v@.len()) {
                Some(v@[p as int])
            } else {
                s.player_car_status
            },
            car_status: v,
            ..s
        }),
        Packet::CarTelemetry { player_car_index: p, car_telemetry_data: v, suggested_gear: g } => n
            == (AppData {
            player_index: p,
            player_telemetry: if player_slot(p, v@.len()) {
                Some(telemetry_of(v@[p as int], g))
            } else {
                s.player_telemetry
            },
            ..s
        }),
        Packet::Participants { player_car_index: p, participants: v } => if s.participants@.len()
            == 0 {
            &&& n.participants@ == numbered(v@)
            &&& n == (AppData {
                player_index: p,
                player_details: if player_slot(p, v@.len()) {
                    Some(v@[p as int])
                } else {
                    s.player_details
                },
                participants: n.participants,
                ..s
            })
        } else {
            n == s
        },
        Packet::Lap { player_car_index: p, lap_data: v } => if s.participants@.len() > 0
            && s.car_status@.len() > 0 {
            &&& lap_table(n.positions_table@, v@, s.participants@, s.car_status@, p)
            &&& n == (AppData { player_index: p, positions_table: n.positions_table, ..s })
        } else {
            n == s
        },
        Packet::SpeedTrap { player_car_index: p, vehicle_index: vi, speed } => n == (AppData {
            player_index: p,
            speed_trap: if p != UNKNOWN_PLAYER && vi == p {
                Some(speed)
            } else {
                s.speed_trap
            },
            ..s
        }),
        Packet::Motion => n == s,
        Packet::Other => n == s,
    }
}

/// Keeps the drivers that have a race number.
pub fn numbered_drivers(v: &Vec<DriverDetails>) -> (r: Vec<DriverDetails>)
    ensures
        r@ == numbered(v@),
{
    let mut r: Vec<DriverDetails> = Vec::new();
    let mut i: usize = 0;
    while i < v.len()
        invariant
            i <= v@.len(),
            r@ == numbered(v@.take(i as int)),
        decreases v@.len() - i,
    {
        assert(v@.take(i + 1).drop_last() =~= v@.take(i as int));
        assert(v@.take(i + 1).last() == v@[i as int]);
        if v[i].race_number > 0 {
            r.push(v[i].duplicate());
        }
        i = i + 1;
    }
    assert(v@.take(v@.len() as int) =~= v@);
    r
}

impl AppData {
    /// The state's invariant: the running order is ranked.
    pub open spec fn wf(&self) -> bool {
        ranked(self.positions_table@)
    }

    /// The state at startup: nothing known, the player slot unknown.
    pub fn new() -> (r: Self)
        ensures
            r.wf(),
            r.player_index == UNKNOWN_PLAYER,
            r.player_details is None,
            r.player_car_status is None,
            r.player_telemetry is None,
            r.positions_table@.len() == 0,
            r.participants@.len() == 0,
            r.car_status@.len() == 0,
            r.speed_trap is None,
    {
        AppData {
            player_index: UNKNOWN_PLAYER,
            player_details: None,
            player_car_status: None,
            player_telemetry: None,
            positions_table: Vec::new(),
            participants: Vec::new(),
            car_status: Vec::new(),
            speed_trap: None,
        }
    }

    /// Merges one packet into the state.
    pub fn apply(&mut self, packet: Packet)
        requires
            old(self).wf(),
        ensures
            final(self).wf(),
            applied(*old(self), packet, *final(self)),
    {
        match packet {
            Packet::Motion => {},
            Packet::CarStatus { player_car_index, car_status_data } => {
                let slot = player_car_index as usize;
                if player_car_index != UNKNOWN_PLAYER && slot < car_status_data.len() {
                    self.player_car_status = Some(car_status_data[slot].duplicate());
                }
                self.player_index = player_car_index;
                self.car_status = car_status_data;
            },
            Packet::CarTelemetry { player_car_index, car_telemetry_data, suggested_gear } => {
                let slot = player_car_index as usize;
                if player_car_index != UNKNOWN_PLAYER && slot < car_telemetry_data.len() {
                    let c = car_telemetry_data[slot];
                    self.player_telemetry = Some(
                        PlayerTelemetry {
                            speed: c.speed,
                            throttle: c.throttle,
                            brake: c.brake,
                            gear: c.gear,
                            suggested_gear,
                            engine_rpm: c.engine_rpm,
                            drs: c.drs,
                            rev_lights_percent: c.rev_lights_percent,
                        },
                    );
                }
                self.player_index = player_car_index;
            },
            Packet::Participants { player_car_index, participants } => {
                if self.participants.len() == 0 {
                    let slot = player_car_index as usize;
                    if player_car_index != UNKNOWN_PLAYER && slot < participants.len() {
                        self.player_details = Some(participants[slot].duplicate());
                    }
                    self.player_index = player_car_index;
                    self.participants = numbered_drivers(&participants);
                }
            },
            Packet::Lap { player_car_index, lap_data } => {
                if self.participants.len() > 0 && self.car_status.len() > 0 {
                    let table = build_positions(
                        &lap_data,
                        &self.participants,
                        &self.car_status,
                        player_car_index,
                    );
                    self.player_index = player_car_index;
                    self.positions_table = table;
                }
            },
            Packet::SpeedTrap { player_car_index, vehicle_index, speed } => {
                if player_car_index != UNKNOWN_PLAYER && vehicle_index == player_car_index {
                    self.speed_trap = Some(speed);
                }
                self.player_index = player_car_index;
            },
            Packet::Other => {},
        }
    }
}

/// A lap packet that arrives while either roster is empty leaves the running
/// order, and the whole state, as it was.
pub proof fn lemma_lap_without_rosters_is_noop(
    s: AppData,
    player_car_index: u8,
    lap_data: Vec<LapData>,
    n: AppData,
)
    requires
        s.participants@.len() == 0 || s.car_status@.len() == 0,
        applied(s, Packet::Lap { player_car_index, lap_data }, n),
    ensures
        n.positions_table == s.positions_table,
        n == s,
{
}

/// Once the driver roster holds a driver, a participants packet changes
/// nothing: the roster is captured once.
pub proof fn lemma_roster_captured_once(
    s: AppData,
    player_car_index: u8,
    participants: Vec<DriverDetails>,
    n: AppData,
)
    requires
        s.participants@.len() > 0,
        applied(s, Packet::Participants { player_car_index, participants }, n),
    ensures
        n == s,
{
}

/// Applying any packet to a well-formed state keeps every row of the running
/// order classified and the rows ascending by rank.
pub proof fn lemma_apply_keeps_order_ranked(s: AppData, packet: Packet, n: AppData)
    requires
        s.wf(),
        applied(s, packet, n),
    ensures
        forall|i: int|
            0 <= i < n.positions_table@.len() ==> #[trigger] n.positions_table@[i].position > 0,
        forall|i: int, j: int|
            0 <= i < j < n.positions_table@.len() ==> #[trigger] n.positions_table@[i].position
                <= #[trigger] n.positions_table@[j].position,
{
    match packet {
        Packet::Lap { player_car_index: p, lap_data: v } => {
            if s.participants@.len() > 0 && s.car_status@.len() > 0 {
                lemma_lap_table_ranked(n.positions_table@, v@, s.participants@, s.car_status@, p);
            }
        },
        _ => {},
    }
}

} // verus!
