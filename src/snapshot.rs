//! The application's picture of the player: station, pause flag, volume and
//! current track, kept in line with what the player reports.
use vstd::prelude::*;
use crate::metadata::{description, get_track_info, is_current_track, Track};
use crate::protocol::{
    decimal, decimal_text, set_request, set_request_text, PlayerError, Property, SetValue,
};
use crate::station::{next_station, next_station_of, station_name, station_names, station_of,
    station_of_file, valid_station, STATION_COUNT};

verus! {

/// Highest volume the player is set to.
pub const MAX_VOLUME: u32 = 150;

/// Volume change of one step.
pub const VOLUME_STEP: u32 = 5;

/// Volume of a fresh snapshot.
pub const DEFAULT_VOLUME: u32 = 100;

/// The application's picture of the player.
pub struct App {
    pub is_paused: bool,
    pub current_track: Option<Track>,
    pub volume: u32,
    pub station: usize,
}

/// What one round of reads of the player gave, property by property.
pub struct Probes {
    pub pause: Result<bool, PlayerError>,
    pub volume: Result<u32, PlayerError>,
    pub metadata: Result<Track, PlayerError>,
    pub filename: Result<String, PlayerError>,
}

/// `v` brought into the volume range.
pub open spec fn clamp_volume(v: int) -> int {
    if v < 0 {
        0
    } else if v > MAX_VOLUME {
        MAX_VOLUME as int
    } else {
        v
    }
}

/// The volume one step up or down from `v`, kept in range.
pub open spec fn step_volume(v: int, up: bool) -> int {
    if up {
        clamp_volume(v + VOLUME_STEP)
    } else {
        clamp_volume(v - VOLUME_STEP)
    }
}

/// The volume after `n` steps in the same direction from `v`.
pub open spec fn repeat_step(v: int, up: bool, n: nat) -> int
    decreases n,
{
    if n == 0 {
        v
    } else {
        step_volume(repeat_step(v, up, (n - 1) as nat), up)
    }
}

impl App {
    /// The station is a valid index and the volume is in range.
    pub open spec fn wf(&self) -> bool {
        &&& valid_station(self.station as int)
        &&& self.volume <= MAX_VOLUME
    }

    /// The snapshot used when no saved one can be had: first station, paused,
    /// default volume, no track.
    pub open spec fn is_default(&self) -> bool {
        &&& self.station == 0
        &&& self.is_paused
        &&& self.volume == DEFAULT_VOLUME
        &&& self.current_track is None
    }
}

impl Default for App {
    fn default() -> (r: App)
        ensures
            r.is_default(),
            r.wf(),
    {
        App { is_paused: true, current_track: None, volume: DEFAULT_VOLUME, station: 0 }
    }
}

/// The volume one step up or down from `current`, kept in range.
pub fn stepped_volume(current: u32, up: bool) -> (r: u32)
    ensures
        r == step_volume(current as int, up),
        r <= MAX_VOLUME,
{
    if up {
        if current >= MAX_VOLUME - VOLUME_STEP {
            MAX_VOLUME
        } else {
            current + VOLUME_STEP
        }
    } else {
        if current <= VOLUME_STEP {
            0
        } else if current - VOLUME_STEP > MAX_VOLUME {
            MAX_VOLUME
        } else {
            current - VOLUME_STEP
        }
    }
}

/// Stepping the volume never leaves the range, and enough steps in one
/// direction reach the end of the range and stay there: going down ends at
/// zero, going up at the highest volume.
pub proof fn law_volume_steps_converge(v: int, up: bool, n: nat)
    requires
        0 <= v <= MAX_VOLUME,
    ensures
        0 <= repeat_step(v, up, n) <= MAX_VOLUME,
        n * VOLUME_STEP >= MAX_VOLUME ==> repeat_step(v, up, n) == if up {
            MAX_VOLUME as int
        } else {
            0
        },
        repeat_step(v, up, n) == if up {
            clamp_volume(v + n * VOLUME_STEP)
        } else {
            clamp_volume(v - n * VOLUME_STEP)
        },
    decreases n,
{
    if n > 0 {
        law_volume_steps_converge(v, up, (n - 1) as nat);
    }
}

impl App {
    /// The snapshot to start from: the saved one when there is one and it is
    /// well formed, the default one otherwise.
    pub fn restore(saved: Option<App>) -> (r: App)
        ensures
            r.wf(),
            match saved {
                Some(a) => if a.wf() {
                    r == a
                } else {
                    r.is_default()
                },
                None => r.is_default(),
            },
    {
        match saved {
            Some(a) => {
                if a.station < STATION_COUNT && a.volume <= MAX_VOLUME {
                    a
                } else {
                    App::default()
                }
            },
            None => App::default(),
        }
    }

    /// Takes in one round of reads of the player. Each property is taken
    /// independently: a pause flag or volume that could not be read leaves the
    /// old value, metadata that could not be read leaves no track, and a file
    /// name that is no known station's leaves the station.
    pub fn update(&mut self, probes: Probes)
        requires
            old(self).wf(),
        ensures
            final(self).wf(),
            final(self).is_paused == match probes.pause {
                Ok(p) => p,
                Err(_) => old(self).is_paused,
            },
            final(self).volume == match probes.volume {
                Ok(v) => clamp_volume(v as int),
                Err(_) => old(self).volume as int,
            },
            match probes.metadata {
                Ok(raw) => match final(self).current_track {
                    Some(t) => is_current_track(raw, t),
                    None => false,
                },
                Err(_) => final(self).current_track is None,
            },
            final(self).station == match probes.filename {
                Ok(f) => match station_of(f@) {
                    Some(s) => s,
                    None => old(self).station as int,
                },
                Err(_) => old(self).station as int,
            },
    {
        if let Ok(p) = probes.pause {
            self.is_paused = p;
        }
        if let Ok(v) = probes.volume {
            self.volume = if v > MAX_VOLUME {
                MAX_VOLUME
            } else {
                v
            };
        }
        self.current_track = get_track_info(probes.metadata).ok();
        if let Ok(f) = &probes.filename {
            if let Some(s) = station_of_file(f.as_str()) {
                self.station = s;
            }
        }
    }

    /// The request that flips the player's pause flag from the snapshot's.
    pub fn pause_request(&self) -> (r: String)
        ensures
            r@ == set_request_text(Property::Pause, SetValue::Flag(!self.is_paused)),
    {
        set_request(Property::Pause, SetValue::Flag(!self.is_paused))
    }

    /// Takes in the outcome of the pause request: on success the flag flips,
    /// on failure nothing changes and the failure is handed back.
    pub fn commit_pause(&mut self, outcome: Result<(), PlayerError>) -> (r: Result<(), PlayerError>)
        ensures
            r == outcome,
            final(self).is_paused == if outcome is Ok {
                !old(self).is_paused
            } else {
                old(self).is_paused
            },
            final(self).volume == old(self).volume,
            final(self).station == old(self).station,
            final(self).current_track == old(self).current_track,
    {
        if outcome.is_ok() {
            self.is_paused = !self.is_paused;
        }
        outcome
    }

    /// Takes in the outcome of setting the volume to `volume`: on success the
    /// snapshot holds it, on failure nothing changes and the failure is handed back.
    pub fn commit_volume(&mut self, volume: u32, outcome: Result<(), PlayerError>) -> (r: Result<
        (),
        PlayerError,
    >)
        requires
            volume <= MAX_VOLUME,
        ensures
            r == outcome,
            final(self).volume == if outcome is Ok {
                volume
            } else {
                old(self).volume
            },
            final(self).is_paused == old(self).is_paused,
            final(self).station == old(self).station,
            final(self).current_track == old(self).current_track,
    {
        if outcome.is_ok() {
            self.volume = volume;
        }
        outcome
    }

    /// The station that "next station" moves to.
    pub fn next_station(&self) -> (r: usize)
        requires
            self.wf(),
        ensures
            r == next_station_of(self.station as int),
            valid_station(r as int),
    {
        next_station(self.station)
    }

    /// Takes in the outcome of bringing the player onto `station`: on success
    /// the snapshot holds it, on failure nothing changes and the failure is
    /// handed back.
    pub fn commit_station(&mut self, station: usize, outcome: Result<(), PlayerError>) -> (r:
        Result<(), PlayerError>)
        requires
            valid_station(station as int),
        ensures
            r == outcome,
            final(self).station == if outcome is Ok {
                station
            } else {
                old(self).station
            },
            final(self).is_paused == old(self).is_paused,
            final(self).volume == old(self).volume,
            final(self).current_track == old(self).current_track,
    {
        if outcome.is_ok() {
            self.station = station;
        }
        outcome
    }
}

/// The four lines that show a snapshot: station, state, track and volume.
pub open spec fn status_lines_of(app: App) -> Seq<Seq<char>> {
    seq![
        "Station: "@ + station_names()[app.station as int],
        "State:   "@ + if app.is_paused { "paused"@ } else { "playing"@ },
        "Track:   "@ + match app.current_track {
            Some(t) => description(t),
            None => "..."@,
        },
        "Volume:  "@ + decimal(app.volume as nat),
    ]
}

impl App {
    /// The four lines that show the snapshot: station, state, track and volume.
    pub fn status_lines(&self) -> (r: Vec<String>)
        requires
            self.wf(),
        ensures
            r@.map_values(|s: String| s@) == status_lines_of(*self),
    {
        let mut lines: Vec<String> = Vec::new();
        lines.push(String::from_str("Station: ").concat(station_name(self.station)));
        let state = if self.is_paused {
            "paused"
        } else {
            "playing"
        };
        lines.push(String::from_str("State:   ").concat(state));
        let track = match &self.current_track {
            Some(t) => t.describe(),
            None => String::from_str("..."),
        };
        lines.push(String::from_str("Track:   ").concat(track.as_str()));
        let volume = decimal_text(self.volume as u64);
        lines.push(String::from_str("Volume:  ").concat(volume.as_str()));
        assert(lines@.map_values(|s: String| s@) =~= status_lines_of(*self));
        lines
    }
}

} // verus!
