use vstd::prelude::*;

verus! {

/// Multipliers and gains are carried as integers in thousandths of a unit
/// (a multiplier of 1.0 is 1000, a gain of 20.0 dB is 20000), so that the
/// tunables and every value derived from them stay exact.
pub const UNIT_MILLI: u64 = 1000;

/// Largest admissible volume in milli-units: the volume handed to the
/// transcoding process is the setting scaled by one fifth, in millionths of
/// a unit, and that product must fit in a `u64`.
pub const MAX_VOLUME_MILLI: u64 = u64::MAX / 200;

/// What to repeat once the current track ends.
#[derive(Clone, Copy, Debug, PartialEq, Eq, Structural)]
pub enum RepeatMode {
    Off,
    Track,
    Queue,
}

impl RepeatMode {
    /// Decodes the ordinal under which the mode is persisted.
    pub fn new(mode: i16) -> (r: Self)
        ensures
            r == (match mode {
                1i16 => RepeatMode::Track,
                2i16 => RepeatMode::Queue,
                _ => RepeatMode::Off,
            }),
    {
        match mode {
            1 => Self::Track,
            2 => Self::Queue,
            _ => Self::Off,
        }
    }

    /// The ordinal under which the mode is persisted.
    pub fn ordinal(&self) -> (r: i16)
        ensures
            r == (match *self {
                RepeatMode::Off => 0i16,
                RepeatMode::Track => 1i16,
                RepeatMode::Queue => 2i16,
            }),
    {
        match self {
            RepeatMode::Off => 0,
            RepeatMode::Track => 1,
            RepeatMode::Queue => 2,
        }
    }
}

/// Gains of the ten fixed-frequency equalizer bands, in milli-dB.
#[derive(Clone, Copy, Debug, PartialEq, Eq, Structural)]
pub struct Equalizer {
    pub f_32: i64,
    pub f_64: i64,
    pub f_125: i64,
    pub f_250: i64,
    pub f_500: i64,
    pub f_1k: i64,
    pub f_2k: i64,
    pub f_4k: i64,
    pub f_8k: i64,
    pub f_16k: i64,
}

impl Equalizer {
    /// All bands flat.
    pub fn flat() -> (r: Self)
        ensures
            r == Equalizer::spec_flat(),
    {
        Equalizer {
            f_32: 0,
            f_64: 0,
            f_125: 0,
            f_250: 0,
            f_500: 0,
            f_1k: 0,
            f_2k: 0,
            f_4k: 0,
            f_8k: 0,
            f_16k: 0,
        }
    }

    pub open spec fn spec_flat() -> Equalizer {
        Equalizer {
            f_32: 0,
            f_64: 0,
            f_125: 0,
            f_250: 0,
            f_500: 0,
            f_1k: 0,
            f_2k: 0,
            f_4k: 0,
            f_8k: 0,
            f_16k: 0,
        }
    }
}

/// One persisted row of the settings store: everything a guild's tunables
/// comprise, keyed by the guild id. The store itself lives outside this
/// crate; callers hand a loaded row in and write updated fields back out.
#[derive(Clone, Copy, Debug, PartialEq, Eq, Structural)]
pub struct SettingsRecord {
    pub id: u64,
    pub speed_milli: u64,
    pub volume_milli: u64,
    pub loop_type: i16,
    pub bass_enabled: bool,
    pub bass_gain_milli: i64,
    pub equalizer: Equalizer,
}

impl SettingsRecord {
    /// The row written for a guild seen for the first time: unity speed and
    /// volume, bass off and flat, no repeat.
    pub fn new(guild_id: u64) -> (r: Self)
        ensures
            r == (SettingsRecord {
                id: guild_id,
                speed_milli: UNIT_MILLI,
                volume_milli: UNIT_MILLI,
                loop_type: 0i16,
                bass_enabled: false,
                bass_gain_milli: 0i64,
                equalizer: Equalizer::spec_flat(),
            }),
    {
        SettingsRecord {
            id: guild_id,
            speed_milli: UNIT_MILLI,
            volume_milli: UNIT_MILLI,
            loop_type: 0,
            bass_enabled: false,
            bass_gain_milli: 0,
            equalizer: Equalizer::flat(),
        }
    }
}

/// An in-band parameter change pushed into the control stream of the running
/// transcoding process. Values are scaled integers; the caller renders them
/// as decimals when writing the stream.
#[derive(Clone, Copy, Debug, PartialEq, Eq, Structural)]
pub enum ControlCommand {
    /// New volume for the running filter graph, in millionths of a unit
    /// (the configured volume scaled by one fifth).
    Volume { micro: u64 },
    /// New tempo multiplier, in milli-units.
    Tempo { milli: u64 },
    /// New bass gain in milli-dB; zero when bass boost is disabled.
    Bass { gain_milli: i64 },
}

/// The filter parameters a transcoding process is started with, derived from
/// the settings at spawn time. A clause is present exactly when the
/// construction rule includes it: volume always, tempo only away from unity,
/// bass always (gain zero when disabled), and each equalizer band only when
/// its gain is non-zero.
#[derive(Clone, Copy, Debug, PartialEq, Eq, Structural)]
pub struct FilterChain {
    /// Volume clause value, in millionths of a unit: the configured volume
    /// scaled by one fifth.
    pub volume_micro: u64,
    /// Tempo clause value in milli-units; absent when the speed is unity.
    pub tempo_milli: Option<u64>,
    /// Bass clause gain in milli-dB; zero stands for "bass disabled".
    pub bass_gain_milli: i64,
    /// Per-band equalizer gain clauses, present only when non-zero.
    pub eq_32: Option<i64>,
    pub eq_64: Option<i64>,
    pub eq_125: Option<i64>,
    pub eq_250: Option<i64>,
    pub eq_500: Option<i64>,
    pub eq_1k: Option<i64>,
    pub eq_2k: Option<i64>,
    pub eq_4k: Option<i64>,
    pub eq_8k: Option<i64>,
    pub eq_16k: Option<i64>,
}

/// One band's clause: present exactly when the gain is non-zero.
pub open spec fn band_clause(gain_milli: i64) -> Option<i64> {
    if gain_milli != 0 {
        Some(gain_milli)
    } else {
        None
    }
}

/// The filter chain the construction rule derives from given settings.
pub open spec fn filter_chain_of(s: PlayerSettings) -> FilterChain {
    FilterChain {
        volume_micro: (s.volume_milli * 200) as u64,
        tempo_milli: if s.speed_milli != UNIT_MILLI {
            Some(s.speed_milli)
        } else {
            None
        },
        bass_gain_milli: if s.bass_enabled {
            s.bass_gain_milli
        } else {
            0
        },
        eq_32: band_clause(s.equalizer.f_32),
        eq_64: band_clause(s.equalizer.f_64),
        eq_125: band_clause(s.equalizer.f_125),
        eq_250: band_clause(s.equalizer.f_250),
        eq_500: band_clause(s.equalizer.f_500),
        eq_1k: band_clause(s.equalizer.f_1k),
        eq_2k: band_clause(s.equalizer.f_2k),
        eq_4k: band_clause(s.equalizer.f_4k),
        eq_8k: band_clause(s.equalizer.f_8k),
        eq_16k: band_clause(s.equalizer.f_16k),
    }
}

/// Per-guild playback tunables. Mutating a value through a setter reports
/// the control command to push into the running transcoding process, if one
/// is running; persisting the change is the caller's duty, before the
/// in-memory update, and a persistence failure must not block it.
#[derive(Clone, Copy, Debug, PartialEq, Eq, Structural)]
pub struct PlayerSettings {
    pub guild_id: u64,
    pub speed_milli: u64,
    pub volume_milli: u64,
    pub bass_enabled: bool,
    pub bass_gain_milli: i64,
    pub equalizer: Equalizer,
    pub repeat: RepeatMode,
}

impl PlayerSettings {
    /// The volume stays small enough that every derived value fits.
    pub open spec fn wf(self) -> bool {
        self.volume_milli <= MAX_VOLUME_MILLI
    }

    /// Settings for a guild whose stored row is `record`, or the fallback
    /// used when the store had nothing readable: unity speed and volume,
    /// bass disabled with a 20 dB gain preset, flat equalizer, no repeat.
    pub fn from_record(guild_id: u64, record: Option<SettingsRecord>) -> (r: Self)
        requires
            record matches Some(rec) ==> rec.volume_milli <= MAX_VOLUME_MILLI,
        ensures
            r == (match record {
                Some(rec) => PlayerSettings {
                    guild_id,
                    speed_milli: rec.speed_milli,
                    volume_milli: rec.volume_milli,
                    bass_enabled: rec.bass_enabled,
                    bass_gain_milli: rec.bass_gain_milli,
                    equalizer: rec.equalizer,
                    repeat: (match rec.loop_type {
                        1i16 => RepeatMode::Track,
                        2i16 => RepeatMode::Queue,
                        _ => RepeatMode::Off,
                    }),
                },
                None => PlayerSettings::spec_fallback(guild_id),
            }),
            r.wf(),
    {
        match record {
            Some(rec) => PlayerSettings {
                guild_id,
                speed_milli: rec.speed_milli,
                volume_milli: rec.volume_milli,
                bass_enabled: rec.bass_enabled,
                bass_gain_milli: rec.bass_gain_milli,
                equalizer: rec.equalizer,
                repeat: RepeatMode::new(rec.loop_type),
            },
            None => PlayerSettings {
                guild_id,
                speed_milli: UNIT_MILLI,
                volume_milli: UNIT_MILLI,
                bass_enabled: false,
                bass_gain_milli: 20000,
                equalizer: Equalizer::flat(),
                repeat: RepeatMode::Off,
            },
        }
    }

    /// The settings used when no stored row could be read.
    pub open spec fn spec_fallback(guild_id: u64) -> PlayerSettings {
        PlayerSettings {
            guild_id,
            speed_milli: UNIT_MILLI,
            volume_milli: UNIT_MILLI,
            bass_enabled: false,
            bass_gain_milli: 20000,
            equalizer: Equalizer::spec_flat(),
            repeat: RepeatMode::Off,
        }
    }

    /// The filter parameters a transcoding process started now would get.
    pub fn filter_chain(&self) -> (r: FilterChain)
        requires
            self.wf(),
        ensures
            r == filter_chain_of(*self),
    {
        FilterChain {
            volume_micro: self.volume_milli * 200,
            tempo_milli: if self.speed_milli != UNIT_MILLI {
                Some(self.speed_milli)
            } else {
                None
            },
            bass_gain_milli: if self.bass_enabled {
                self.bass_gain_milli
            } else {
                0
            },
            eq_32: Self::band(self.equalizer.f_32),
            eq_64: Self::band(self.equalizer.f_64),
            eq_125: Self::band(self.equalizer.f_125),
            eq_250: Self::band(self.equalizer.f_250),
            eq_500: Self::band(self.equalizer.f_500),
            eq_1k: Self::band(self.equalizer.f_1k),
            eq_2k: Self::band(self.equalizer.f_2k),
            eq_4k: Self::band(self.equalizer.f_4k),
            eq_8k: Self::band(self.equalizer.f_8k),
            eq_16k: Self::band(self.equalizer.f_16k),
        }
    }

    fn band(gain_milli: i64) -> (r: Option<i64>)
        ensures
            r == band_clause(gain_milli),
    {
        if gain_milli != 0 {
            Some(gain_milli)
        } else {
            None
        }
    }

    /// Sets the volume; reports the command for a running process, whose
    /// volume clause is the setting scaled by one fifth.
    pub fn set_volume(&mut self, volume_milli: u64, pipeline_running: bool) -> (cmd: Option<
        ControlCommand,
    >)
        requires
            volume_milli <= MAX_VOLUME_MILLI,
        ensures
            *final(self) == (PlayerSettings { volume_milli, ..*old(self) }),
            final(self).wf(),
            cmd == (if pipeline_running {
                Some(ControlCommand::Volume { micro: (volume_milli * 200) as u64 })
            } else {
                None::<ControlCommand>
            }),
    {
        self.volume_milli = volume_milli;
        if pipeline_running {
            Some(ControlCommand::Volume { micro: volume_milli * 200 })
        } else {
            None
        }
    }

    /// Sets the speed multiplier; reports the tempo command for a running
    /// process. Reconciling the logical position for the change of pace is
    /// the caller's duty, since it needs the transport's reported offset.
    pub fn set_speed(&mut self, speed_milli: u64, pipeline_running: bool) -> (cmd: Option<
        ControlCommand,
    >)
        ensures
            *final(self) == (PlayerSettings { speed_milli, ..*old(self) }),
            cmd == (if pipeline_running {
                Some(ControlCommand::Tempo { milli: speed_milli })
            } else {
                None::<ControlCommand>
            }),
    {
        self.speed_milli = speed_milli;
        if pipeline_running {
            Some(ControlCommand::Tempo { milli: speed_milli })
        } else {
            None
        }
    }

    /// Updates whichever of the bass flag and gain were given; reports the
    /// bass command for a running process, with gain zero while disabled.
    pub fn set_bass(
        &mut self,
        enable: Option<bool>,
        gain_milli: Option<i64>,
        pipeline_running: bool,
    ) -> (cmd: Option<ControlCommand>)
        ensures
            *final(self) == (PlayerSettings {
                bass_enabled: (match enable {
                    Some(b) => b,
                    None => old(self).bass_enabled,
                }),
                bass_gain_milli: (match gain_milli {
                    Some(g) => g,
                    None => old(self).bass_gain_milli,
                }),
                ..*old(self)
            }),
            cmd == (if pipeline_running {
                Some(ControlCommand::Bass {
                    gain_milli: (if final(self).bass_enabled {
                        final(self).bass_gain_milli
                    } else {
                        0i64
                    }),
                })
            } else {
                None::<ControlCommand>
            }),
    {
        if let Some(enable) = enable {
            self.bass_enabled = enable;
        }
        if let Some(gain_milli) = gain_milli {
            self.bass_gain_milli = gain_milli;
        }
        if pipeline_running {
            Some(
                ControlCommand::Bass {
                    gain_milli: if self.bass_enabled {
                        self.bass_gain_milli
                    } else {
                        0
                    },
                },
            )
        } else {
            None
        }
    }

    /// Sets the repeat mode. No parameter of the running process depends on
    /// it, so there is never a command to push.
    pub fn set_repeat(&mut self, repeat: RepeatMode)
        ensures
            *final(self) == (PlayerSettings { repeat, ..*old(self) }),
    {
        self.repeat = repeat;
    }
}

} // verus!
