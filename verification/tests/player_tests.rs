use guild_player::player::{Player, PlayerError, PlayerState, SkipDecision};
use guild_player::settings::{PlayerSettings, RepeatMode, SettingsRecord};
use guild_player::track::{Author, ParserType, Track};

fn make_track(id: u64, url: &str) -> Track {
    Track {
        id,
        title: Some(format!("track {}", id)),
        description: None,
        thumbnail: None,
        author: Author {
            name: Some("someone".to_string()),
            url: None,
            thumbnail: None,
            verified: false,
        },
        url: url.to_string(),
        views: Some(10),
        likes: Some(2),
        chapters: Vec::new(),
        webpage_url: format!("https://example.com/{}", id),
        duration_ms: Some(180_000),
        parse_time_ms: 1_700_000_000_000,
        parser_type: ParserType::YtDl,
        edit_date_ms: None,
    }
}

fn fresh_player(guild: u64) -> Player {
    Player::new(guild, PlayerSettings::from_record(guild, Some(SettingsRecord::new(guild))))
}

#[test]
fn new_player_starts_ended() {
    let p = fresh_player(1);
    assert_eq!(p.state, PlayerState::Ended);
    assert!(p.playlist.current.is_none());
    assert_eq!(p.playlist.tracks.len(), 0);
    assert!(p.track_handle.is_none());
    assert!(!p.has_pipeline);
    assert_eq!(p.last_track_id, 0);
}

#[test]
fn scenario_enqueue_skip_advance() {
    // Ended player, empty queue: the first enqueue starts playback at zero.
    let mut p = fresh_player(1);
    let req_a = p.enqueue(make_track(1, "https://a.example/audio")).expect("pipeline start owed");
    assert_eq!(p.state, PlayerState::Playing);
    assert_eq!(p.playlist.current.as_ref().unwrap().id, 1);
    assert_eq!(req_a.url, "https://a.example/audio");
    assert_eq!(req_a.start_ms, 0);
    p.pipeline_started(100);

    // A second enqueue while playing only queues.
    let req_b = p.enqueue(make_track(2, "https://b.example/audio"));
    assert!(req_b.is_none());
    assert_eq!(p.playlist.tracks.len(), 1);
    assert_eq!(p.playlist.current.as_ref().unwrap().id, 1);

    // Skip with no id: stop the current track, then commit.
    match p.skip(None) {
        Ok(SkipDecision::StopCurrent) => {}
        other => panic!("unexpected skip outcome: {:?}", other),
    }
    p.skip_commit();
    assert_eq!(p.state, PlayerState::InSkip);
    assert_eq!(p.playlist.tracks.len(), 1);

    // The matching end signal pops the queue and starts the next track.
    let req_next = p.on_track_end(100).expect("pipeline start owed");
    assert_eq!(p.playlist.current.as_ref().unwrap().id, 2);
    assert_eq!(p.playlist.tracks.len(), 0);
    assert_eq!(p.state, PlayerState::Playing);
    assert_eq!(req_next.url, "https://b.example/audio");
    assert_eq!(req_next.start_ms, 0);
}

#[test]
fn scenario_natural_end_repeat_off() {
    // Repeat off, one current track, empty queue: a natural end ends playback.
    let mut p = fresh_player(2);
    p.enqueue(make_track(1, "https://a.example/x")).unwrap();
    p.pipeline_started(7);
    let req = p.on_track_end(7);
    assert!(req.is_none());
    assert!(p.playlist.current.is_none());
    assert_eq!(p.state, PlayerState::Ended);
}

#[test]
fn skip_current_id_defers_pop() {
    let mut p = fresh_player(3);
    p.enqueue(make_track(1, "https://a.example/x")).unwrap();
    p.pipeline_started(9);
    p.enqueue(make_track(2, "https://b.example/x"));

    match p.skip(Some(1)) {
        Ok(SkipDecision::StopCurrent) => {}
        other => panic!("unexpected skip outcome: {:?}", other),
    }
    // Nothing popped yet; the state flag changes only on commit.
    assert_eq!(p.state, PlayerState::Playing);
    assert_eq!(p.playlist.tracks.len(), 1);
    p.skip_commit();
    assert_eq!(p.state, PlayerState::InSkip);
    assert_eq!(p.playlist.tracks.len(), 1);
    assert_eq!(p.playlist.current.as_ref().unwrap().id, 1);

    let req = p.on_track_end(9).expect("pipeline start owed");
    assert_eq!(p.playlist.current.as_ref().unwrap().id, 2);
    assert_eq!(req.start_ms, 0);
}

#[test]
fn skip_queued_id_removes_in_place() {
    let mut p = fresh_player(4);
    p.enqueue(make_track(1, "https://a.example/x")).unwrap();
    p.pipeline_started(9);
    p.enqueue(make_track(2, "https://b.example/x"));
    p.enqueue(make_track(3, "https://c.example/x"));

    match p.skip(Some(2)) {
        Ok(SkipDecision::Removed(t)) => assert_eq!(t.id, 2),
        other => panic!("unexpected skip outcome: {:?}", other),
    }
    // No state transition, no pipeline action, current untouched.
    assert_eq!(p.state, PlayerState::Playing);
    assert_eq!(p.playlist.current.as_ref().unwrap().id, 1);
    assert_eq!(p.playlist.tracks.len(), 1);
    assert_eq!(p.playlist.tracks[0].id, 3);
}

#[test]
fn skip_unknown_id_not_found() {
    let mut p = fresh_player(5);
    p.enqueue(make_track(1, "https://a.example/x")).unwrap();
    p.pipeline_started(9);
    p.enqueue(make_track(2, "https://b.example/x"));
    assert_eq!(p.skip(Some(42)).unwrap_err(), PlayerError::TrackNotFound);
    assert_eq!(p.playlist.tracks.len(), 1);
}

#[test]
fn skip_needs_handle_and_state() {
    let mut p = fresh_player(6);
    assert_eq!(p.skip(None).unwrap_err(), PlayerError::InvalidState);
    p.enqueue(make_track(1, "https://a.example/x")).unwrap();
    // Playing, but no transport track was reported yet.
    assert_eq!(p.skip(None).unwrap_err(), PlayerError::NoTrackHandle);
}

#[test]
fn inskip_queue_repeat_recycles_current() {
    let mut p = fresh_player(7);
    p.settings.set_repeat(RepeatMode::Queue);
    p.enqueue(make_track(1, "https://a.example/x")).unwrap();
    p.pipeline_started(11);
    p.enqueue(make_track(2, "https://b.example/x"));

    p.skip(Some(1)).unwrap();
    p.skip_commit();
    let req = p.on_track_end(11).expect("pipeline start owed");

    // The old current went to the tail exactly once; the old head plays.
    assert_eq!(p.playlist.current.as_ref().unwrap().id, 2);
    assert_eq!(p.playlist.tracks.len(), 1);
    assert_eq!(p.playlist.tracks[0].id, 1);
    assert_eq!(p.state, PlayerState::Playing);
    assert_eq!(req.url, "https://b.example/x");
    assert_eq!(req.start_ms, 0);
}

#[test]
fn natural_end_repeat_track_restarts_same_url() {
    let mut p = fresh_player(8);
    p.settings.set_repeat(RepeatMode::Track);
    p.enqueue(make_track(1, "https://a.example/loop")).unwrap();
    p.pipeline_started(13);
    p.position = guild_player::position::Position::from_millis(45_000);

    let req = p.on_track_end(13).expect("pipeline start owed");
    assert_eq!(p.playlist.current.as_ref().unwrap().id, 1);
    assert_eq!(p.state, PlayerState::Playing);
    assert_eq!(p.position.last_position, 0);
    assert_eq!(req.url, "https://a.example/loop");
    assert_eq!(req.start_ms, 0);
}

#[test]
fn seek_while_paused_roundtrip() {
    let mut p = fresh_player(9);
    p.enqueue(make_track(1, "https://a.example/x")).unwrap();
    p.pipeline_started(17);
    p.pause_commit();
    assert_eq!(p.state, PlayerState::Paused);

    assert!(p.transport_check().is_ok());
    p.seek_commit(61_000);
    assert_eq!(p.state, PlayerState::Seeking);
    assert_eq!(p.position.last_position, 61_000);

    let req = p.on_track_end(17).expect("pipeline start owed");
    assert_eq!(p.state, PlayerState::Playing);
    assert_eq!(req.url, "https://a.example/x");
    assert_eq!(req.start_ms, 61_000);
}

#[test]
fn transport_check_rejections() {
    let mut p = fresh_player(10);
    assert_eq!(p.transport_check().unwrap_err(), PlayerError::InvalidState);
    p.enqueue(make_track(1, "https://a.example/x")).unwrap();
    assert_eq!(p.transport_check().unwrap_err(), PlayerError::NoTrackHandle);
    p.pipeline_started(19);
    assert!(p.transport_check().is_ok());
}

#[test]
fn pause_and_resume_flip_state() {
    let mut p = fresh_player(11);
    p.enqueue(make_track(1, "https://a.example/x")).unwrap();
    p.pipeline_started(23);
    p.pause_commit();
    assert_eq!(p.state, PlayerState::Paused);
    p.resume_commit();
    assert_eq!(p.state, PlayerState::Playing);
}

#[test]
fn stale_signal_is_ignored() {
    let mut p = fresh_player(12);
    p.enqueue(make_track(1, "https://a.example/x")).unwrap();
    p.pipeline_started(29);
    p.enqueue(make_track(2, "https://b.example/x"));

    let req = p.on_track_end(999);
    assert!(req.is_none());
    assert_eq!(p.state, PlayerState::Playing);
    assert_eq!(p.playlist.current.as_ref().unwrap().id, 1);
    assert_eq!(p.playlist.tracks.len(), 1);
}

#[test]
fn seeking_without_current_advances_queue() {
    let mut p = fresh_player(13);
    p.enqueue(make_track(1, "https://a.example/x")).unwrap();
    p.pipeline_started(31);
    p.enqueue(make_track(2, "https://b.example/x"));
    p.seek_commit(5_000);
    p.playlist.current = None;

    let req = p.on_track_end(31).expect("pipeline start owed");
    assert_eq!(p.playlist.current.as_ref().unwrap().id, 2);
    assert_eq!(p.state, PlayerState::Playing);
    assert_eq!(p.position.last_position, 0);
    assert_eq!(req.start_ms, 0);
}

#[test]
fn seeking_without_current_or_queue_ends() {
    let mut p = fresh_player(14);
    p.enqueue(make_track(1, "https://a.example/x")).unwrap();
    p.pipeline_started(37);
    p.seek_commit(5_000);
    p.playlist.current = None;

    let req = p.on_track_end(37);
    assert!(req.is_none());
    assert_eq!(p.state, PlayerState::Ended);
    assert!(p.playlist.current.is_none());
}

#[test]
fn clear_resets_in_place() {
    let mut p = fresh_player(15);
    p.enqueue(make_track(1, "https://a.example/x")).unwrap();
    p.pipeline_started(41);
    p.enqueue(make_track(2, "https://b.example/x"));
    let id_before = p.next_track_id();
    assert_eq!(id_before, 1);

    let stop_needed = p.clear();
    assert!(stop_needed);
    assert_eq!(p.state, PlayerState::Ended);
    assert!(p.playlist.current.is_none());
    assert_eq!(p.playlist.tracks.len(), 0);
    assert!(p.track_handle.is_none());
    assert!(!p.has_pipeline);
    assert_eq!(p.position.last_position, 0);
    // Identity and counter survive the reset.
    assert_eq!(p.guild_id, 15);
    assert_eq!(p.last_track_id, 1);

    // Without a transport track there is nothing to stop.
    assert!(!p.clear());
}

#[test]
fn state_labels_for_front_ends() {
    let mut p = fresh_player(18);
    assert_eq!(p.state_label(), "ended");
    p.enqueue(make_track(1, "https://a.example/x")).unwrap();
    p.pipeline_started(47);
    assert_eq!(p.state_label(), "playing");
    p.pause_commit();
    assert_eq!(p.state_label(), "paused");
    p.resume_commit();
    p.seek_commit(1_000);
    // Transitional states count as playing.
    assert_eq!(p.state_label(), "playing");
}

#[test]
fn next_track_id_counts_up() {
    let mut p = fresh_player(16);
    assert_eq!(p.next_track_id(), 1);
    assert_eq!(p.next_track_id(), 2);
    assert_eq!(p.last_track_id, 2);
}

#[test]
fn enqueue_after_end_restarts() {
    let mut p = fresh_player(17);
    p.enqueue(make_track(1, "https://a.example/x")).unwrap();
    p.pipeline_started(43);
    p.on_track_end(43);
    assert_eq!(p.state, PlayerState::Ended);

    let req = p.enqueue(make_track(2, "https://b.example/x")).expect("pipeline start owed");
    assert_eq!(p.state, PlayerState::Playing);
    assert_eq!(p.playlist.current.as_ref().unwrap().id, 2);
    assert_eq!(req.start_ms, 0);
}
