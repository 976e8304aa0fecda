use vstd::prelude::*;
use crate::playlist::Playlist;
use crate::position::Position;
use crate::settings::{filter_chain_of, FilterChain, PlayerSettings, RepeatMode};
use crate::track::Track;

verus! {

/// Where one guild's playback stands.
///
/// `Starting` is reserved: no transition assigns it, and none may be added
/// without settling its intended use first.
#[derive(Clone, Copy, Debug, PartialEq, Eq, Structural)]
pub enum PlayerState {
    Ended,
    Starting,
    Playing,
    Paused,
    InSkip,
    Seeking,
}

/// Why an operation was refused. The player is left exactly as it was.
#[derive(Clone, Copy, Debug, PartialEq, Eq, Structural)]
pub enum PlayerError {
    /// The operation is not valid in the current state.
    InvalidState,
    /// The operation needs an active transport track and there is none.
    NoTrackHandle,
    /// No track with the given id is current or pending.
    TrackNotFound,
}

/// Everything needed to start the external transcoding process for one
/// track: its source URL, the offset to begin at, and the filter parameters
/// derived from the settings at this moment. The caller spawns the process,
/// hands its output to the transport, and reports the new transport track
/// back through [`Player::pipeline_started`].
#[derive(Clone, Debug)]
pub struct PipelineRequest {
    pub url: String,
    pub start_ms: u64,
    pub filters: FilterChain,
}

/// What a skip request decided.
#[derive(Debug)]
pub enum SkipDecision {
    /// The current track is to be skipped: stop the active transport track,
    /// then confirm with [`Player::skip_commit`]. The queue advances when
    /// the resulting end signal reaches [`Player::on_track_end`].
    StopCurrent,
    /// The given id named a pending track; it has been removed in place.
    /// No state changed and no transport or pipeline action follows.
    Removed(Track),
}

/// One guild's player: the queue, the playback position, the tunables, the
/// state flag, and what is known of the active transport track and the
/// running transcoding process.
///
/// The transport track is held as an opaque identity so that an end signal
/// can be told apart from a stale one; `has_pipeline` records whether a
/// transcoding process's control stream is open.
#[derive(Debug)]
pub struct Player {
    pub guild_id: u64,
    pub playlist: Playlist,
    pub position: Position,
    pub settings: PlayerSettings,
    pub state: PlayerState,
    /// Identity of the active transport track, if any.
    pub track_handle: Option<u128>,
    /// Whether a transcoding process's control stream is currently held.
    pub has_pipeline: bool,
    /// Last track id this guild assigned; the next enqueue takes the next.
    pub last_track_id: u64,
}

/// The player's value as contracts speak of it: the queue as a sequence,
/// and every other field as it stands.
#[verifier::ext_equal]
pub ghost struct PlayerModel {
    pub guild_id: u64,
    pub queue: Seq<Track>,
    pub current: Option<Track>,
    pub position: Position,
    pub settings: PlayerSettings,
    pub state: PlayerState,
    pub track_handle: Option<u128>,
    pub has_pipeline: bool,
    pub last_track_id: u64,
}

/// A fresh player: ended, with nothing queued, nothing held, offsets zero.
pub open spec fn initial_model(guild_id: u64, settings: PlayerSettings) -> PlayerModel {
    PlayerModel {
        guild_id,
        queue: Seq::empty(),
        current: None,
        position: Position { last_position: 0, last_player_position: 0 },
        settings,
        state: PlayerState::Ended,
        track_handle: None,
        has_pipeline: false,
        last_track_id: 0,
    }
}

/// The same player reset in place: nothing queued or playing, offsets zero,
/// nothing held — but its identity, settings and id counter kept.
pub open spec fn cleared_model(m: PlayerModel) -> PlayerModel {
    PlayerModel {
        queue: Seq::empty(),
        current: None,
        position: Position { last_position: 0, last_player_position: 0 },
        state: PlayerState::Ended,
        track_handle: None,
        has_pipeline: false,
        ..m
    }
}

/// The request that starts a track at `start_ms` under the given settings.
pub open spec fn start_request(url: String, start_ms: u64, settings: PlayerSettings) -> PipelineRequest {
    PipelineRequest { url, start_ms, filters: filter_chain_of(settings) }
}

/// Enqueueing while ended promotes the track straight to current, begins
/// playing from zero and starts the pipeline; in any other state the track
/// joins the tail of the queue and nothing else happens.
pub open spec fn spec_enqueue(m: PlayerModel, track: Track) -> (PlayerModel, Option<
    PipelineRequest,
>) {
    if m.state == PlayerState::Ended {
        (
            PlayerModel {
                current: Some(track),
                state: PlayerState::Playing,
                position: Position { last_position: 0, last_player_position: 0 },
                ..m
            },
            Some(start_request(track.url, 0, m.settings)),
        )
    } else {
        (PlayerModel { queue: m.queue.push(track), ..m }, None)
    }
}

/// Whether seek, move, pause and resume are admissible: the player must be
/// playing or paused, and an active transport track must exist.
pub open spec fn spec_transport_check(m: PlayerModel) -> Result<(), PlayerError> {
    if !(m.state == PlayerState::Playing || m.state == PlayerState::Paused) {
        Err(PlayerError::InvalidState)
    } else if m.track_handle is None {
        Err(PlayerError::NoTrackHandle)
    } else {
        Ok(())
    }
}

/// The position in the queue of the first pending track with the given id,
/// or -1 when none has it.
pub open spec fn first_index_with_id(q: Seq<Track>, id: u64) -> int
    decreases q.len(),
{
    if q.len() == 0 {
        -1
    } else if q[0].id == id {
        0
    } else {
        let rest = first_index_with_id(q.drop_first(), id);
        if rest == -1 {
            -1
        } else {
            rest + 1
        }
    }
}

/// What a skip request does: in a skippable state, no id or the current
/// track's id asks for the current track to be stopped (needing an active
/// transport track); the id of a pending track removes that track in place;
/// any other id is not found. The state flag itself never changes here.
pub open spec fn spec_skip(m: PlayerModel, track_id: Option<u64>) -> (PlayerModel, Result<
    SkipDecision,
    PlayerError,
>) {
    if !(m.state == PlayerState::Playing || m.state == PlayerState::Paused || m.state
        == PlayerState::Seeking) {
        (m, Err(PlayerError::InvalidState))
    } else {
        match track_id {
            None => if m.track_handle is Some {
                (m, Ok(SkipDecision::StopCurrent))
            } else {
                (m, Err(PlayerError::NoTrackHandle))
            },
            Some(id) => {
                if m.current matches Some(c) && c.id == id {
                    if m.track_handle is Some {
                        (m, Ok(SkipDecision::StopCurrent))
                    } else {
                        (m, Err(PlayerError::NoTrackHandle))
                    }
                } else {
                    let i = first_index_with_id(m.queue, id);
                    if i >= 0 {
                        (
                            PlayerModel { queue: m.queue.remove(i), ..m },
                            Ok(SkipDecision::Removed(m.queue[i])),
                        )
                    } else {
                        (m, Err(PlayerError::TrackNotFound))
                    }
                }
            },
        }
    }
}

/// Pops the queue head as the new current track. With nothing pending the
/// player ends; otherwise, under queue repeat, the track that was current
/// joins the tail, and the new head starts playing from zero.
pub open spec fn spec_advance_queue(m: PlayerModel) -> (PlayerModel, Option<PipelineRequest>) {
    if m.queue.len() == 0 {
        (PlayerModel { current: None, state: PlayerState::Ended, ..m }, None)
    } else {
        let next = m.queue[0];
        let rest = m.queue.drop_first();
        let recycled = match m.current {
            Some(c) => if m.settings.repeat == RepeatMode::Queue {
                rest.push(c)
            } else {
                rest
            },
            None => rest,
        };
        (
            PlayerModel {
                queue: recycled,
                current: Some(next),
                state: PlayerState::Playing,
                position: Position { last_position: 0, last_player_position: 0 },
                ..m
            },
            Some(start_request(next.url, 0, m.settings)),
        )
    }
}

/// How a track-end signal drives the player forward. A signal whose track
/// identity is not the one held is stale and ignored. Otherwise: while
/// seeking, the current track restarts at the recorded offset (with no
/// current track the queue advances instead); during a skip the queue
/// advances; at a natural end, track repeat restarts the same track from
/// zero, and any other mode advances the queue.
pub open spec fn spec_track_end(m: PlayerModel, ended_handle: u128) -> (PlayerModel, Option<
    PipelineRequest,
>) {
    if m.track_handle matches Some(h) && h != ended_handle {
        (m, None)
    } else {
        match m.state {
            PlayerState::Seeking => match m.current {
                Some(t) => (
                    PlayerModel { state: PlayerState::Playing, ..m },
                    Some(start_request(t.url, m.position.last_position, m.settings)),
                ),
                None => spec_advance_queue(m),
            },
            PlayerState::InSkip => spec_advance_queue(m),
            _ => {
                if m.settings.repeat == RepeatMode::Track {
                    match m.current {
                        Some(t) => (
                            PlayerModel {
                                state: PlayerState::Playing,
                                position: Position { last_position: 0, last_player_position: 0 },
                                ..m
                            },
                            Some(start_request(t.url, 0, m.settings)),
                        ),
                        None => (
                            PlayerModel { current: None, state: PlayerState::Ended, ..m },
                            None,
                        ),
                    }
                } else {
                    spec_advance_queue(m)
                }
            },
        }
    }
}

impl Player {
    /// The player's value in contract terms.
    pub open spec fn model(self) -> PlayerModel {
        PlayerModel {
            guild_id: self.guild_id,
            queue: self.playlist.tracks@,
            current: self.playlist.current,
            position: self.position,
            settings: self.settings,
            state: self.state,
            track_handle: self.track_handle,
            has_pipeline: self.has_pipeline,
            last_track_id: self.last_track_id,
        }
    }

    pub open spec fn wf(self) -> bool {
        self.settings.wf()
    }

    /// A fresh player for one guild, in the ended state.
    pub fn new(guild_id: u64, settings: PlayerSettings) -> (r: Self)
        ensures
            r.model() == initial_model(guild_id, settings),
    {
        let r = Player {
            guild_id,
            playlist: Playlist::new(),
            position: Position::default(),
            settings,
            state: PlayerState::Ended,
            track_handle: None,
            has_pipeline: false,
            last_track_id: 0,
        };
        proof {
            assert(r.model() =~= initial_model(guild_id, settings));
        }
        r
    }

    /// The state as the front-ends report it: everything that is neither
    /// paused nor ended counts as playing.
    pub fn state_label(&self) -> (r: &'static str)
        ensures
            self.state == PlayerState::Paused ==> r@ == "paused"@,
            self.state == PlayerState::Ended ==> r@ == "ended"@,
            self.state != PlayerState::Paused && self.state != PlayerState::Ended ==> r@
                == "playing"@,
    {
        match self.state {
            PlayerState::Paused => "paused",
            PlayerState::Ended => "ended",
            _ => "playing",
        }
    }

    /// Takes the next track id this guild hands out.
    pub fn next_track_id(&mut self) -> (r: u64)
        requires
            old(self).last_track_id < u64::MAX,
        ensures
            final(self).model() == (PlayerModel {
                last_track_id: (old(self).last_track_id + 1) as u64,
                ..old(self).model()
            }),
            r == old(self).last_track_id + 1,
    {
        self.last_track_id = self.last_track_id + 1;
        self.last_track_id
    }

    /// Records that a transcoding process was spawned and its output handed
    /// to the transport: its control stream is held, and the returned
    /// transport track is now the one end signals must match.
    pub fn pipeline_started(&mut self, handle_id: u128)
        ensures
            final(self).model() == (PlayerModel {
                track_handle: Some(handle_id),
                has_pipeline: true,
                ..old(self).model()
            }),
    {
        self.track_handle = Some(handle_id);
        self.has_pipeline = true;
    }

    /// Accepts one track, as [`spec_enqueue`] says: promoted to current and
    /// started from zero when the player had ended, appended to the queue
    /// otherwise. The returned request, if any, is the pipeline start the
    /// caller owes.
    pub fn enqueue(&mut self, track: Track) -> (r: Option<PipelineRequest>)
        requires
            old(self).wf(),
        ensures
            final(self).model() == spec_enqueue(old(self).model(), track).0,
            r == spec_enqueue(old(self).model(), track).1,
            final(self).wf(),
    {
        match self.state {
            PlayerState::Ended => {
                let url = track.url.clone();
                let filters = self.settings.filter_chain();
                self.playlist.current = Some(track);
                self.state = PlayerState::Playing;
                self.position = Position::default();
                proof {
                    assert(self.model() =~= spec_enqueue(old(self).model(), track).0);
                }
                Some(PipelineRequest { url, start_ms: 0, filters })
            },
            _ => {
                self.playlist.add(track);
                proof {
                    assert(self.model() =~= spec_enqueue(old(self).model(), track).0);
                }
                None
            },
        }
    }

    /// Whether a transport operation (seek, move, pause, resume) is
    /// admissible right now, and if not, why.
    pub fn transport_check(&self) -> (r: Result<(), PlayerError>)
        ensures
            r == spec_transport_check(self.model()),
    {
        match self.state {
            PlayerState::Playing | PlayerState::Paused => {
                if self.track_handle.is_some() {
                    Ok(())
                } else {
                    Err(PlayerError::NoTrackHandle)
                }
            },
            _ => Err(PlayerError::InvalidState),
        }
    }

    /// Records a seek to `offset_ms` after the caller stopped the active
    /// transport track: the player is now seeking, and the offset is where
    /// the bridge will restart the current track.
    pub fn seek_commit(&mut self, offset_ms: u64)
        requires
            spec_transport_check(old(self).model()) is Ok,
        ensures
            final(self).model() == (PlayerModel {
                state: PlayerState::Seeking,
                position: Position { last_position: offset_ms, last_player_position: 0 },
                ..old(self).model()
            }),
    {
        self.state = PlayerState::Seeking;
        self.position = Position::from_millis(offset_ms);
        proof {
            assert(self.model() =~= (PlayerModel {
                state: PlayerState::Seeking,
                position: Position { last_position: offset_ms, last_player_position: 0 },
                ..old(self).model()
            }));
        }
    }

    /// Records that the caller paused the active transport track.
    pub fn pause_commit(&mut self)
        requires
            spec_transport_check(old(self).model()) is Ok,
        ensures
            final(self).model() == (PlayerModel { state: PlayerState::Paused, ..old(self).model() }),
    {
        self.state = PlayerState::Paused;
        proof {
            assert(self.model() =~= (PlayerModel {
                state: PlayerState::Paused,
                ..old(self).model()
            }));
        }
    }

    /// Records that the caller resumed the active transport track.
    pub fn resume_commit(&mut self)
        requires
            spec_transport_check(old(self).model()) is Ok,
        ensures
            final(self).model() == (PlayerModel {
                state: PlayerState::Playing,
                ..old(self).model()
            }),
    {
        self.state = PlayerState::Playing;
        proof {
            assert(self.model() =~= (PlayerModel {
                state: PlayerState::Playing,
                ..old(self).model()
            }));
        }
    }

    /// Decides a skip request, as [`spec_skip`] says. `Ok(StopCurrent)`
    /// obliges the caller to stop the active transport track and then call
    /// [`Player::skip_commit`]; `Ok(Removed)` is already complete.
    #[verifier::loop_isolation(false)]
    pub fn skip(&mut self, track_id: Option<u64>) -> (r: Result<SkipDecision, PlayerError>)
        ensures
            final(self).model() == spec_skip(old(self).model(), track_id).0,
            r == spec_skip(old(self).model(), track_id).1,
    {
        match self.state {
            PlayerState::Playing | PlayerState::Paused | PlayerState::Seeking => {},
            _ => {
                return Err(PlayerError::InvalidState);
            },
        }
        let id = match track_id {
            None => {
                return if self.track_handle.is_some() {
                    Ok(SkipDecision::StopCurrent)
                } else {
                    Err(PlayerError::NoTrackHandle)
                };
            },
            Some(id) => id,
        };
        let current_matches = match &self.playlist.current {
            Some(c) => c.id == id,
            None => false,
        };
        if current_matches {
            return if self.track_handle.is_some() {
                Ok(SkipDecision::StopCurrent)
            } else {
                Err(PlayerError::NoTrackHandle)
            };
        }
        let ghost q = self.playlist.tracks@;
        let mut i: usize = 0;
        loop
            invariant
                i <= q.len(),
                q == self.playlist.tracks@,
                self == old(self),
                forall|j: int| 0 <= j < i ==> q[j].id != id,
            decreases q.len() - i,
        {
            if i == self.playlist.tracks.len() {
                proof {
                    lemma_no_index_with_id(q, id);
                }
                return Err(PlayerError::TrackNotFound);
            }
            if self.playlist.tracks[i].id == id {
                proof {
                    lemma_first_index_with_id(q, id, i as int);
                }
                let removed = self.playlist.tracks.remove(i);
                match removed {
                    Some(t) => {
                        proof {
                            assert(self.model() =~= spec_skip(old(self).model(), track_id).0);
                        }
                        return Ok(SkipDecision::Removed(t));
                    },
                    None => {
                        // remove returned an element above: i was in range
                        proof {
                            assert(false);
                        }
                        return Err(PlayerError::TrackNotFound);
                    },
                }
            }
            i = i + 1;
        }
    }

    /// Records that the caller stopped the active transport track to skip
    /// the current one: the player now awaits the bridge's end signal.
    pub fn skip_commit(&mut self)
        requires
            old(self).state == PlayerState::Playing || old(self).state == PlayerState::Paused
                || old(self).state == PlayerState::Seeking,
            old(self).track_handle is Some,
        ensures
            final(self).model() == (PlayerModel { state: PlayerState::InSkip, ..old(self).model() }),
    {
        self.state = PlayerState::InSkip;
        proof {
            assert(self.model() =~= (PlayerModel {
                state: PlayerState::InSkip,
                ..old(self).model()
            }));
        }
    }

    /// Resets the player to its initial ended state in place, keeping its
    /// identity, settings and id counter. Returns whether an active
    /// transport track was held, which the caller must stop.
    pub fn clear(&mut self) -> (stop_needed: bool)
        ensures
            final(self).model() == cleared_model(old(self).model()),
            stop_needed == (old(self).track_handle is Some),
    {
        self.playlist = Playlist::new();
        self.position = Position::default();
        self.state = PlayerState::Ended;
        self.has_pipeline = false;
        let stop_needed = self.track_handle.is_some();
        self.track_handle = None;
        proof {
            assert(self.model() =~= cleared_model(old(self).model()));
        }
        stop_needed
    }

    /// Drives the state machine on a transport end signal, as
    /// [`spec_track_end`] says. The returned request, if any, is the
    /// pipeline start the caller owes for what plays next.
    pub fn on_track_end(&mut self, ended_handle: u128) -> (r: Option<PipelineRequest>)
        requires
            old(self).wf(),
        ensures
            final(self).model() == spec_track_end(old(self).model(), ended_handle).0,
            r == spec_track_end(old(self).model(), ended_handle).1,
            final(self).wf(),
    {
        if let Some(h) = self.track_handle {
            if h != ended_handle {
                return None;
            }
        }
        match self.state {
            PlayerState::Seeking => {
                let has_current = self.playlist.current.is_some();
                if has_current {
                    let url = match &self.playlist.current {
                        Some(t) => t.url.clone(),
                        None => unreached(),
                    };
                    let filters = self.settings.filter_chain();
                    self.state = PlayerState::Playing;
                    let offset = self.position.last_position;
                    proof {
                        assert(self.model() =~= spec_track_end(old(self).model(), ended_handle).0);
                    }
                    Some(PipelineRequest { url, start_ms: offset, filters })
                } else {
                    let r = self.advance_queue();
                    proof {
                        assert(self.model() =~= spec_track_end(old(self).model(), ended_handle).0);
                    }
                    r
                }
            },
            PlayerState::InSkip => {
                let r = self.advance_queue();
                proof {
                    assert(self.model() =~= spec_track_end(old(self).model(), ended_handle).0);
                }
                r
            },
            _ => {
                if self.settings.repeat == RepeatMode::Track {
                    let has_current = self.playlist.current.is_some();
                    if has_current {
                        let url = match &self.playlist.current {
                            Some(t) => t.url.clone(),
                            None => unreached(),
                        };
                        let filters = self.settings.filter_chain();
                        self.state = PlayerState::Playing;
                        self.position = Position::default();
                        proof {
                            assert(self.model() =~= spec_track_end(
                                old(self).model(),
                                ended_handle,
                            ).0);
                        }
                        Some(PipelineRequest { url, start_ms: 0, filters })
                    } else {
                        self.playlist.current = None;
                        self.state = PlayerState::Ended;
                        proof {
                            assert(self.model() =~= spec_track_end(
                                old(self).model(),
                                ended_handle,
                            ).0);
                        }
                        None
                    }
                } else {
                    let r = self.advance_queue();
                    proof {
                        assert(self.model() =~= spec_track_end(old(self).model(), ended_handle).0);
                    }
                    r
                }
            },
        }
    }

    /// Pops the queue head as the new current track, per
    /// [`spec_advance_queue`].
    fn advance_queue(&mut self) -> (r: Option<PipelineRequest>)
        requires
            old(self).wf(),
        ensures
            final(self).model() == spec_advance_queue(old(self).model()).0,
            r == spec_advance_queue(old(self).model()).1,
            final(self).wf(),
    {
        let next = self.playlist.tracks.pop_front();
        match next {
            None => {
                self.playlist.current = None;
                self.state = PlayerState::Ended;
                proof {
                    assert(self.model() =~= spec_advance_queue(old(self).model()).0);
                }
                None
            },
            Some(next) => {
                let previous = self.playlist.current.take();
                if self.settings.repeat == RepeatMode::Queue {
                    if let Some(c) = previous {
                        self.playlist.tracks.push_back(c);
                    }
                }
                let url = next.url.clone();
                let filters = self.settings.filter_chain();
                self.playlist.current = Some(next);
                self.state = PlayerState::Playing;
                self.position = Position::default();
                proof {
                    assert(self.model() =~= spec_advance_queue(old(self).model()).0);
                }
                Some(PipelineRequest { url, start_ms: 0, filters })
            },
        }
    }
}

/// The player after a whole burst of enqueues, one for each track in order.
pub open spec fn spec_enqueue_all(m: PlayerModel, ts: Seq<Track>) -> PlayerModel
    decreases ts.len(),
{
    if ts.len() == 0 {
        m
    } else {
        spec_enqueue_all(spec_enqueue(m, ts[0]).0, ts.drop_first())
    }
}

/// How many pipeline starts a burst of enqueues asks for.
pub open spec fn spec_enqueue_start_count(m: PlayerModel, ts: Seq<Track>) -> nat
    decreases ts.len(),
{
    if ts.len() == 0 {
        0
    } else {
        (if spec_enqueue(m, ts[0]).1 is Some {
            1nat
        } else {
            0nat
        }) + spec_enqueue_start_count(spec_enqueue(m, ts[0]).0, ts.drop_first())
    }
}

/// Enqueueing any number of tracks while the player is not ended only
/// appends them to the tail of the pending queue, in order: the current
/// track, the state and everything else stay, and no pipeline start is
/// asked for.
pub proof fn lemma_enqueue_while_active(m: PlayerModel, ts: Seq<Track>)
    requires
        m.state != PlayerState::Ended,
    ensures
        spec_enqueue_all(m, ts) == (PlayerModel { queue: m.queue + ts, ..m }),
        spec_enqueue_start_count(m, ts) == 0,
    decreases ts.len(),
{
    if ts.len() == 0 {
        assert(spec_enqueue_all(m, ts) =~= (PlayerModel { queue: m.queue + ts, ..m }));
    } else {
        let m1 = spec_enqueue(m, ts[0]).0;
        lemma_enqueue_while_active(m1, ts.drop_first());
        assert(m.queue.push(ts[0]) + ts.drop_first() =~= m.queue + ts);
        assert(spec_enqueue_all(m, ts) =~= (PlayerModel { queue: m.queue + ts, ..m }));
    }
}

/// For every burst of enqueues that begins while the player is ended: the
/// first track becomes current immediately and the pipeline is started
/// exactly once, at offset zero, for that track; every further enqueue
/// before the first track finishes appends to the tail of the pending
/// queue without a pipeline start.
pub proof fn lemma_enqueue_from_ended(m: PlayerModel, ts: Seq<Track>)
    requires
        m.state == PlayerState::Ended,
        ts.len() > 0,
    ensures
        spec_enqueue(m, ts[0]).1 == Some(start_request(ts[0].url, 0, m.settings)),
        spec_enqueue_all(m, ts) == (PlayerModel {
            queue: m.queue + ts.drop_first(),
            current: Some(ts[0]),
            state: PlayerState::Playing,
            position: Position { last_position: 0, last_player_position: 0 },
            ..m
        }),
        spec_enqueue_start_count(m, ts) == 1,
{
    let m1 = spec_enqueue(m, ts[0]).0;
    lemma_enqueue_while_active(m1, ts.drop_first());
    assert(spec_enqueue_all(m, ts) =~= (PlayerModel {
        queue: m.queue + ts.drop_first(),
        current: Some(ts[0]),
        state: PlayerState::Playing,
        position: Position { last_position: 0, last_player_position: 0 },
        ..m
    }));
}

/// Skipping the current track by its id does not itself pop the queue: the
/// request leaves the player untouched and only asks for a transport stop,
/// the commit only flips the state, and the pending queue advances when the
/// bridge processes the end signal of the stopped track — its head becomes
/// current then, or the player ends if nothing is pending.
pub proof fn lemma_skip_current_defers_pop(m: PlayerModel, id: u64, h: u128)
    requires
        m.state == PlayerState::Playing || m.state == PlayerState::Paused || m.state
            == PlayerState::Seeking,
        m.track_handle == Some(h),
        m.current matches Some(c) && c.id == id,
    ensures
        spec_skip(m, Some(id)).0 == m,
        spec_skip(m, Some(id)).1 == Ok::<SkipDecision, PlayerError>(SkipDecision::StopCurrent),
        ({
            let committed = PlayerModel { state: PlayerState::InSkip, ..m };
            &&& committed.queue == m.queue
            &&& spec_track_end(committed, h) == spec_advance_queue(committed)
            &&& (m.queue.len() > 0 ==> spec_track_end(committed, h).0.current == Some(m.queue[0]))
            &&& (m.queue.len() == 0 ==> spec_track_end(committed, h).0.state == PlayerState::Ended
                && spec_track_end(committed, h).0.current is None)
        }),
{
}

/// The first index holding an id is in range, holds that id, and nothing
/// before it does.
pub proof fn lemma_first_index_found(q: Seq<Track>, id: u64)
    requires
        first_index_with_id(q, id) >= 0,
    ensures
        first_index_with_id(q, id) < q.len(),
        q[first_index_with_id(q, id)].id == id,
        forall|j: int| 0 <= j < first_index_with_id(q, id) ==> q[j].id != id,
    decreases q.len(),
{
    if q.len() > 0 && q[0].id != id {
        lemma_first_index_found(q.drop_first(), id);
        assert forall|j: int| 0 <= j < first_index_with_id(q, id) implies q[j].id != id by {
            if j > 0 {
                assert(q[j] == q.drop_first()[j - 1]);
            }
        }
    }
}

/// Skipping by the id of a pending track removes exactly the first pending
/// track with that id, in place: the state flag, the current track and
/// everything else stay, and no pipeline start or transport stop follows.
pub proof fn lemma_skip_queued_removes_only(m: PlayerModel, id: u64)
    requires
        m.state == PlayerState::Playing || m.state == PlayerState::Paused || m.state
            == PlayerState::Seeking,
        !(m.current matches Some(c) && c.id == id),
        first_index_with_id(m.queue, id) >= 0,
    ensures
        ({
            let i = first_index_with_id(m.queue, id);
            &&& m.queue[i].id == id
            &&& spec_skip(m, Some(id)).0 == (PlayerModel { queue: m.queue.remove(i), ..m })
            &&& spec_skip(m, Some(id)).1 == Ok::<SkipDecision, PlayerError>(
                SkipDecision::Removed(m.queue[i]),
            )
            &&& spec_skip(m, Some(id)).0.state == m.state
            &&& spec_skip(m, Some(id)).0.current == m.current
            &&& spec_skip(m, Some(id)).0.queue.len() == m.queue.len() - 1
        }),
{
    lemma_first_index_found(m.queue, id);
}

/// After a skip is processed under queue repeat with a non-empty queue, the
/// track that was current joins the tail of the queue exactly once — the
/// new queue is the old one less its head, with the old current appended —
/// and the old head becomes current, playing from offset zero.
pub proof fn lemma_inskip_queue_repeat(m: PlayerModel, c: Track, h: u128)
    requires
        m.state == PlayerState::InSkip,
        m.settings.repeat == RepeatMode::Queue,
        m.current == Some(c),
        m.queue.len() > 0,
        m.track_handle == Some(h),
    ensures
        spec_track_end(m, h).0.queue == m.queue.drop_first().push(c),
        spec_track_end(m, h).0.current == Some(m.queue[0]),
        spec_track_end(m, h).0.state == PlayerState::Playing,
        spec_track_end(m, h).0.position == (Position { last_position: 0, last_player_position: 0 }),
        spec_track_end(m, h).1 == Some(start_request(m.queue[0].url, 0, m.settings)),
{
}

/// A natural end under track repeat keeps the same track current, resets
/// the position to zero, and restarts the pipeline with the same URL at
/// offset zero, the player playing again.
pub proof fn lemma_natural_end_track_repeat(m: PlayerModel, t: Track, h: u128)
    requires
        m.state != PlayerState::Seeking,
        m.state != PlayerState::InSkip,
        m.settings.repeat == RepeatMode::Track,
        m.current == Some(t),
        m.track_handle == Some(h),
    ensures
        spec_track_end(m, h).0.current == Some(t),
        spec_track_end(m, h).0.position == (Position { last_position: 0, last_player_position: 0 }),
        spec_track_end(m, h).0.state == PlayerState::Playing,
        spec_track_end(m, h).1 == Some(start_request(t.url, 0, m.settings)),
{
}

/// Seeking while paused: the transport check passes; committing the seek
/// records the offset and the seeking state; and once the bridge observes
/// the resulting stop, the player is playing again and the pipeline restart
/// is asked for at exactly that offset, for the same current track.
pub proof fn lemma_seek_paused_roundtrip(m: PlayerModel, offset_ms: u64, t: Track, h: u128)
    requires
        m.state == PlayerState::Paused,
        m.track_handle == Some(h),
        m.current == Some(t),
    ensures
        spec_transport_check(m) is Ok,
        ({
            let sought = PlayerModel {
                state: PlayerState::Seeking,
                position: Position { last_position: offset_ms, last_player_position: 0 },
                ..m
            };
            &&& sought.position.last_position == offset_ms
            &&& spec_track_end(sought, h).0.state == PlayerState::Playing
            &&& spec_track_end(sought, h).0.current == Some(t)
            &&& spec_track_end(sought, h).1 == Some(start_request(t.url, offset_ms, m.settings))
        }),
{
}

/// When index `i` holds the id and no earlier index does, `i` is the first.
proof fn lemma_first_index_with_id(q: Seq<Track>, id: u64, i: int)
    requires
        0 <= i < q.len(),
        q[i].id == id,
        forall|j: int| 0 <= j < i ==> q[j].id != id,
    ensures
        first_index_with_id(q, id) == i,
    decreases i,
{
    if i == 0 {
    } else {
        assert(forall|j: int| 0 <= j < i - 1 ==> q.drop_first()[j].id != id);
        lemma_first_index_with_id(q.drop_first(), id, i - 1);
    }
}

/// When no index holds the id, there is no first index.
proof fn lemma_no_index_with_id(q: Seq<Track>, id: u64)
    requires
        forall|j: int| 0 <= j < q.len() ==> q[j].id != id,
    ensures
        first_index_with_id(q, id) == -1,
    decreases q.len(),
{
    if q.len() > 0 {
        assert(forall|j: int| 0 <= j < q.drop_first().len() ==> q.drop_first()[j].id != id);
        lemma_no_index_with_id(q.drop_first(), id);
    }
}

} // verus!
