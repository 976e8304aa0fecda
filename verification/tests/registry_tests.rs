use guild_player::player::PlayerState;
use guild_player::registry::PlayerRegistry;
use guild_player::settings::{PlayerSettings, SettingsRecord};

fn settings(guild: u64) -> PlayerSettings {
    PlayerSettings::from_record(guild, Some(SettingsRecord::new(guild)))
}

#[test]
fn init_creates_once() {
    let mut reg = PlayerRegistry::new();
    assert!(!reg.contains_player(10));
    assert_eq!(reg.len(), 0);

    reg.init_player(10, settings(10));
    assert!(reg.contains_player(10));
    assert_eq!(reg.len(), 1);

    // Mutate the entry, then init again: get-or-create must not replace it.
    let mut p = reg.take_player(10).expect("present");
    let id = p.next_track_id();
    assert_eq!(id, 1);
    reg.put_player(10, p);
    reg.init_player(10, settings(10));
    assert_eq!(reg.len(), 1);
    let p = reg.take_player(10).expect("present");
    assert_eq!(p.last_track_id, 1);
}

#[test]
fn take_absent_is_none() {
    let mut reg = PlayerRegistry::new();
    assert!(reg.take_player(3).is_none());
}

#[test]
fn clear_resets_existing_entry_in_place() {
    let mut reg = PlayerRegistry::new();
    reg.init_player(4, settings(4));
    let mut p = reg.take_player(4).unwrap();
    p.state = PlayerState::Playing;
    p.pipeline_started(77);
    reg.put_player(4, p);

    let stop_needed = reg.clear_player(4, settings(4));
    assert!(stop_needed);
    assert_eq!(reg.len(), 1);
    let p = reg.take_player(4).unwrap();
    assert_eq!(p.state, PlayerState::Ended);
    assert!(p.track_handle.is_none());
    assert!(!p.has_pipeline);
}

#[test]
fn clear_creates_missing_entry() {
    let mut reg = PlayerRegistry::new();
    let stop_needed = reg.clear_player(6, settings(6));
    assert!(!stop_needed);
    assert!(reg.contains_player(6));
    let p = reg.take_player(6).unwrap();
    assert_eq!(p.state, PlayerState::Ended);
    assert_eq!(p.guild_id, 6);
}
