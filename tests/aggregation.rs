use f1_dashboard::{
    AppData, CarStatus, CarTelemetryData, DriverDetails, LapData, Packet, UNKNOWN_PLAYER,
};

fn driver(name: &str, race_number: u8) -> DriverDetails {
    DriverDetails {
        driver: name.to_string(),
        team: "Team".to_string(),
        race_number,
        nationality: "British".to_string(),
        name: name.to_uppercase(),
    }
}

fn status(tyre: &str, rl: u8, rr: u8, fl: u8, fr: u8) -> CarStatus {
    CarStatus {
        tyre: tyre.to_string(),
        rear_left_tyre: rl,
        rear_right_tyre: rr,
        front_left_tyre: fl,
        front_right_tyre: fr,
    }
}

fn telemetry(speed: u16, gear: i8) -> CarTelemetryData {
    CarTelemetryData {
        speed,
        throttle: 80,
        brake: 0,
        gear,
        engine_rpm: 11000,
        drs: false,
        rev_lights_percent: 60,
    }
}

fn lap(position: u8) -> LapData {
    LapData {
        last_lap_time: 81_500,
        best_lap_time: 80_250,
        best_lap_sector_1_time: 25_125,
        car_position: position,
        current_lap_num: 7,
    }
}

fn populated(player: u8) -> AppData {
    let mut data = AppData::new();
    data.apply(Packet::Participants {
        player_car_index: player,
        participants: vec![driver("Lewis Hamilton", 44), driver("Max Verstappen", 33)],
    });
    data.apply(Packet::CarStatus {
        player_car_index: player,
        car_status_data: vec![status("Soft", 1, 2, 3, 4), status("Medium", 5, 6, 7, 8)],
    });
    data
}

#[test]
fn new_state_is_empty() {
    let data = AppData::new();
    assert_eq!(data.player_index, UNKNOWN_PLAYER);
    assert!(data.player_details.is_none());
    assert!(data.player_car_status.is_none());
    assert!(data.player_telemetry.is_none());
    assert!(data.positions_table.is_empty());
    assert!(data.participants.is_empty());
    assert!(data.car_status.is_empty());
    assert!(data.speed_trap.is_none());
}

#[test]
fn participants_filter_unnumbered_and_capture_once() {
    let mut data = AppData::new();
    data.apply(Packet::Participants {
        player_car_index: 0,
        participants: vec![driver("Lewis Hamilton", 44), driver("Nobody Here", 0)],
    });
    assert_eq!(data.participants.len(), 1);
    assert_eq!(data.participants[0].race_number, 44);
    assert_eq!(data.player_details.as_ref().unwrap().race_number, 44);
    data.apply(Packet::Participants {
        player_car_index: 1,
        participants: vec![driver("Max Verstappen", 33), driver("Carlos Sainz", 55)],
    });
    assert_eq!(data.participants.len(), 1);
    assert_eq!(data.participants[0].race_number, 44);
    assert_eq!(data.participants[0].driver, "Lewis Hamilton");
    assert_eq!(data.player_details.as_ref().unwrap().driver, "Lewis Hamilton");
    assert_eq!(data.player_index, 0);
}

#[test]
fn car_status_then_telemetry_for_player() {
    let mut data = AppData::new();
    data.apply(Packet::CarStatus {
        player_car_index: 0,
        car_status_data: vec![status("Soft", 10, 20, 30, 40)],
    });
    data.apply(Packet::CarTelemetry {
        player_car_index: 0,
        car_telemetry_data: vec![telemetry(250, 4)],
        suggested_gear: 5,
    });
    let t = data.player_telemetry.unwrap();
    assert_eq!(t.speed, 250);
    assert_eq!(t.gear, 4);
    assert_eq!(t.suggested_gear, 5);
    let c = data.player_car_status.as_ref().unwrap();
    assert_eq!(c.tyre, "Soft");
    assert_eq!(
        (c.rear_left_tyre, c.rear_right_tyre, c.front_left_tyre, c.front_right_tyre),
        (10, 20, 30, 40)
    );
    assert_eq!(data.car_status.len(), 1);
}

#[test]
fn lap_orders_by_rank_and_flags_player() {
    let mut data = populated(0);
    data.apply(Packet::Lap { player_car_index: 0, lap_data: vec![lap(2), lap(1)] });
    assert_eq!(data.positions_table.len(), 2);
    let first = &data.positions_table[0];
    let second = &data.positions_table[1];
    assert_eq!(first.position, 1);
    assert_eq!(first.driver.race_number, 33);
    assert!(!first.is_player);
    assert_eq!(first.tyre, "Medium");
    assert_eq!(second.position, 2);
    assert_eq!(second.driver.race_number, 44);
    assert!(second.is_player);
    assert_eq!(second.tyre, "Soft");
    assert_eq!(second.best_lap, "1:20.250");
    assert_eq!(second.last_lap, "1:21.500");
    assert_eq!(second.s1, "0:25.125");
    assert_eq!(second.s2, "0:25.125");
    assert_eq!(second.s3, "0:25.125");
    assert_eq!(second.current_lap_num, 7);
}

#[test]
fn lap_skips_unclassified_cars() {
    let mut data = populated(1);
    data.apply(Packet::Lap { player_car_index: 1, lap_data: vec![lap(0), lap(1)] });
    assert_eq!(data.positions_table.len(), 1);
    assert_eq!(data.positions_table[0].driver.race_number, 33);
    assert!(data.positions_table[0].is_player);
    assert!(data.positions_table.iter().all(|p| p.position > 0));
}

#[test]
fn lap_keeps_slot_order_for_equal_ranks() {
    let mut data = populated(0);
    data.apply(Packet::Lap { player_car_index: 0, lap_data: vec![lap(3), lap(3)] });
    assert_eq!(data.positions_table.len(), 2);
    assert_eq!(data.positions_table[0].driver.race_number, 44);
    assert_eq!(data.positions_table[1].driver.race_number, 33);
}

#[test]
fn lap_rows_ascend_by_rank() {
    let mut data = populated(0);
    data.apply(Packet::Lap { player_car_index: 0, lap_data: vec![lap(2), lap(1), lap(5)] });
    let ranks: Vec<u8> = data.positions_table.iter().map(|p| p.position).collect();
    assert_eq!(ranks, vec![1, 2]);
    assert!(ranks.windows(2).all(|w| w[0] <= w[1]));
}

#[test]
fn lap_before_rosters_is_ignored() {
    let mut data = AppData::new();
    data.apply(Packet::Lap { player_car_index: 0, lap_data: vec![lap(1)] });
    assert!(data.positions_table.is_empty());
    assert_eq!(data.player_index, UNKNOWN_PLAYER);

    let mut data = AppData::new();
    data.apply(Packet::Participants {
        player_car_index: 0,
        participants: vec![driver("Lewis Hamilton", 44)],
    });
    data.apply(Packet::Lap { player_car_index: 0, lap_data: vec![lap(1)] });
    assert!(data.positions_table.is_empty());
}

#[test]
fn lap_with_empty_status_keeps_previous_order() {
    let mut data = populated(0);
    data.apply(Packet::Lap { player_car_index: 0, lap_data: vec![lap(1), lap(2)] });
    data.apply(Packet::CarStatus { player_car_index: 0, car_status_data: vec![] });
    data.apply(Packet::Lap { player_car_index: 0, lap_data: vec![lap(2), lap(1)] });
    assert_eq!(data.positions_table.len(), 2);
    assert_eq!(data.positions_table[0].driver.race_number, 44);
}

#[test]
fn speed_trap_of_other_car_is_ignored() {
    let mut data = AppData::new();
    data.apply(Packet::SpeedTrap { player_car_index: 0, vehicle_index: 0, speed: 312_500 });
    assert_eq!(data.speed_trap, Some(312_500));
    data.apply(Packet::SpeedTrap { player_car_index: 0, vehicle_index: 3, speed: 320_000 });
    assert_eq!(data.speed_trap, Some(312_500));
}

#[test]
fn unknown_player_skips_player_lookups() {
    let mut data = AppData::new();
    data.apply(Packet::CarTelemetry {
        player_car_index: UNKNOWN_PLAYER,
        car_telemetry_data: vec![telemetry(100, 2)],
        suggested_gear: 0,
    });
    assert!(data.player_telemetry.is_none());
    data.apply(Packet::CarTelemetry {
        player_car_index: 4,
        car_telemetry_data: vec![telemetry(100, 2)],
        suggested_gear: 0,
    });
    assert!(data.player_telemetry.is_none());
    data.apply(Packet::SpeedTrap {
        player_car_index: UNKNOWN_PLAYER,
        vehicle_index: UNKNOWN_PLAYER,
        speed: 1,
    });
    assert!(data.speed_trap.is_none());
}

#[test]
fn motion_and_other_packets_change_nothing() {
    let mut data = populated(0);
    data.apply(Packet::Motion);
    data.apply(Packet::Other);
    assert_eq!(data.participants.len(), 2);
    assert_eq!(data.car_status.len(), 2);
    assert_eq!(data.player_index, 0);
}
