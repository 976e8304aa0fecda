use guild_player::position::Position;

#[test]
fn constructors() {
    let p = Position::default();
    assert_eq!(p.last_position, 0);
    assert_eq!(p.last_player_position, 0);

    let p = Position::from_secs(90);
    assert_eq!(p.last_position, 90_000);
    assert_eq!(p.last_player_position, 0);

    let p = Position::from_millis(1234);
    assert_eq!(p.last_position, 1234);
    assert_eq!(p.last_player_position, 0);
}

#[test]
fn position_query_at_unity_speed() {
    let p = Position { last_position: 1000, last_player_position: 0 };
    // 1000 + 2000 * 1.0 + 200
    assert_eq!(p.current_position_ms(2000, 1000), 3200);
}

#[test]
fn position_query_scales_by_speed() {
    let p = Position { last_position: 1000, last_player_position: 500 };
    // 1000 + (2500 - 500) * 1.5 + 200
    assert_eq!(p.current_position_ms(2500, 1500), 4200);
    // 1000 + 2000 * 0.5 + 200
    assert_eq!(p.current_position_ms(2500, 500), 2200);
}

#[test]
fn reconcile_folds_progress_at_old_speed() {
    let mut p = Position { last_position: 10_000, last_player_position: 4_000 };
    p.reconcile_speed(10_000, 2000);
    // 10000 + 6000 * 2.0 + 200, and the transport offset is recorded.
    assert_eq!(p.last_position, 22_200);
    assert_eq!(p.last_player_position, 10_000);
}

#[test]
fn oversized_position_saturates() {
    let p = Position { last_position: u64::MAX - 10, last_player_position: 0 };
    assert_eq!(p.current_position_ms(u64::MAX, u64::MAX), u64::MAX);
}
