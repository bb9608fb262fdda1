//! Supervision of the external player: whether it plays a station, how to
//! stop and start it, and the steps that bring it onto a wanted station.
use vstd::prelude::*;
use crate::protocol::{decimal, decimal_text, PlayerError, CONTROL_SOCKET_PATH};
use crate::station::{
    is_station_file, lemma_stem_of_station_file, station_file, station_names, station_url,
    station_url_of, stem, valid_station, STATION_BASE_URL,
};

verus! {

/// Program that detaches the player from this program's terminal.
pub const DETACH_PROGRAM: &'static str = "nohup";

/// The player program.
pub const PLAYER_PROGRAM: &'static str = "mpv";

/// Option that names the player's control socket.
pub const CONTROL_SOCKET_OPTION: &'static str = "--input-ipc-server=";

/// Program that ends a process by its identifier.
pub const KILL_PROGRAM: &'static str = "kill";

/// What the driver of [`EnsurePlaying`] is asked to do next.
#[derive(Debug, PartialEq, Eq)]
pub enum EnsureStep {
    /// Read the `filename` property.
    ReadFilename,
    /// Read the `pid` property.
    ReadPid,
    /// End the process with this identifier.
    Kill(u32),
    /// Start the player on this station.
    Launch(usize),
    /// Nothing more; the outcome of the whole operation.
    Finished(Result<(), PlayerError>),
}

/// What the driver observed when it did the step it was asked for.
#[derive(Debug, PartialEq, Eq)]
pub enum EnsureEvent {
    Filename(Result<String, PlayerError>),
    Pid(Result<u32, PlayerError>),
    /// The kill was attempted; whether it worked does not matter.
    Killed,
    Launched(Result<(), PlayerError>),
}

/// Brings the player onto a station: if it is not already playing it, stop
/// whatever runs and start the station.
pub struct EnsurePlaying {
    pub station: usize,
    pub step: EnsureStep,
}

/// The player, as its `filename` reply shows it, plays `station`.
pub open spec fn running_source(station: int, filename: Result<String, PlayerError>) -> bool {
    match filename {
        Ok(f) => stem(f@) == station_names()[station],
        Err(_) => false,
    }
}

/// The process to end, given the reply to a `pid` read: none when the read failed.
pub open spec fn stop_target_of(pid: Result<u32, PlayerError>) -> Option<u32> {
    match pid {
        Ok(p) => Some(p),
        Err(_) => None,
    }
}

/// The step that follows `step` once `event` has been observed. An event that
/// does not answer the step leaves it as it is.
pub open spec fn ensure_next(station: int, step: EnsureStep, event: EnsureEvent) -> EnsureStep {
    match (step, event) {
        (EnsureStep::ReadFilename, EnsureEvent::Filename(f)) => if running_source(station, f) {
            EnsureStep::Finished(Ok(()))
        } else {
            EnsureStep::ReadPid
        },
        (EnsureStep::ReadPid, EnsureEvent::Pid(p)) => match stop_target_of(p) {
            Some(pid) => EnsureStep::Kill(pid),
            None => EnsureStep::Launch(station as usize),
        },
        (EnsureStep::Kill(_), EnsureEvent::Killed) => EnsureStep::Launch(station as usize),
        (EnsureStep::Launch(_), EnsureEvent::Launched(r)) => EnsureStep::Finished(r),
        _ => step,
    }
}

/// Arguments, after the detaching program, that start the player on a station
/// with its control socket at the agreed path.
pub open spec fn launch_arguments_of(station: int) -> Seq<Seq<char>> {
    seq![PLAYER_PROGRAM@, station_url_of(station), CONTROL_SOCKET_OPTION@ + CONTROL_SOCKET_PATH@]
}

/// Whether the player, as its `filename` reply shows it, plays `station`.
/// Any failure to read the property counts as not playing it.
pub fn is_running_source(station: usize, filename: &Result<String, PlayerError>) -> (r: bool)
    requires
        valid_station(station as int),
    ensures
        r == running_source(station as int, *filename),
        filename is Err ==> !r,
{
    match filename {
        Ok(f) => is_station_file(station, f.as_str()),
        Err(_) => false,
    }
}

/// The process to end, given the reply to a `pid` read.
pub fn stop_target(pid: &Result<u32, PlayerError>) -> (r: Option<u32>)
    ensures
        r == stop_target_of(*pid),
{
    match pid {
        Ok(p) => Some(*p),
        Err(_) => None,
    }
}

/// Arguments, after the detaching program, that start the player on `station`.
pub fn launch_arguments(station: usize) -> (r: Vec<String>)
    requires
        valid_station(station as int),
    ensures
        r@.map_values(|s: String| s@) == launch_arguments_of(station as int),
{
    let mut args: Vec<String> = Vec::new();
    args.push(String::from_str(PLAYER_PROGRAM));
    args.push(station_url(station));
    args.push(String::from_str(CONTROL_SOCKET_OPTION).concat(CONTROL_SOCKET_PATH));
    assert(args@.map_values(|s: String| s@) =~= launch_arguments_of(station as int));
    args
}

/// Arguments of the kill program that end process `pid`.
pub fn kill_arguments(pid: u32) -> (r: Vec<String>)
    ensures
        r@.map_values(|s: String| s@) == seq![decimal(pid as nat)],
{
    let mut args: Vec<String> = Vec::new();
    args.push(decimal_text(pid as u64));
    assert(args@.map_values(|s: String| s@) =~= seq![decimal(pid as nat)]);
    args
}

/// Starts bringing the player onto `station`: first, read what it plays.
pub fn ensure_playing_station(station: usize) -> (r: EnsurePlaying)
    requires
        valid_station(station as int),
    ensures
        r.station == station,
        r.step == EnsureStep::ReadFilename,
{
    EnsurePlaying { station, step: EnsureStep::ReadFilename }
}

impl EnsurePlaying {
    /// Takes in what the driver observed and moves to the next step.
    pub fn advance(&mut self, event: EnsureEvent)
        requires
            valid_station(old(self).station as int),
        ensures
            final(self).station == old(self).station,
            final(self).step == ensure_next(old(self).station as int, old(self).step, event),
    {
        let station = self.station;
        let mut step = EnsureStep::ReadFilename;
        std::mem::swap(&mut step, &mut self.step);
        let next = match (step, event) {
            (EnsureStep::ReadFilename, EnsureEvent::Filename(f)) => {
                if is_running_source(station, &f) {
                    EnsureStep::Finished(Ok(()))
                } else {
                    EnsureStep::ReadPid
                }
            },
            (EnsureStep::ReadPid, EnsureEvent::Pid(p)) => match stop_target(&p) {
                Some(pid) => EnsureStep::Kill(pid),
                None => EnsureStep::Launch(station),
            },
            (EnsureStep::Kill(_), EnsureEvent::Killed) => EnsureStep::Launch(station),
            (EnsureStep::Launch(_), EnsureEvent::Launched(r)) => EnsureStep::Finished(r),
            (step, _) => step,
        };
        self.step = next;
    }
}

/// The step reached from `ReadFilename` when the driver observes `filename`,
/// then `pid`, then the kill, then the launch outcome `launched`, each event
/// taken in only where it answers the step.
pub open spec fn ensure_after(
    station: int,
    filename: Result<String, PlayerError>,
    pid: Result<u32, PlayerError>,
    launched: Result<(), PlayerError>,
) -> EnsureStep {
    let s1 = ensure_next(station, EnsureStep::ReadFilename, EnsureEvent::Filename(filename));
    let s2 = ensure_next(station, s1, EnsureEvent::Pid(pid));
    let s3 = ensure_next(station, s2, EnsureEvent::Killed);
    ensure_next(station, s3, EnsureEvent::Launched(launched))
}

/// Bringing a cooperating player onto a station leaves it playing that
/// station. If the player already plays it, the steps finish at once and the
/// player still reports what it reported. Otherwise, whatever the `pid` read
/// gives, the steps launch exactly that station, a launch that succeeds finishes
/// them successfully, and a player started on the station's address reports
/// the stream file at the end of that address, which counts as playing it.
pub proof fn law_ensure_playing_then_running(
    station: int,
    filename: Result<String, PlayerError>,
    pid: Result<u32, PlayerError>,
    reported: String,
)
    requires
        valid_station(station),
        reported@ == station_file(station),
    ensures
        running_source(station, filename) ==> ensure_next(
            station,
            EnsureStep::ReadFilename,
            EnsureEvent::Filename(filename),
        ) == EnsureStep::Finished(Ok(())),
        !running_source(station, filename) ==> ensure_next(
            station,
            ensure_next(
                station,
                ensure_next(station, EnsureStep::ReadFilename, EnsureEvent::Filename(filename)),
                EnsureEvent::Pid(pid),
            ),
            EnsureEvent::Killed,
        ) == EnsureStep::Launch(station as usize),
        ensure_after(station, filename, pid, Ok(())) == EnsureStep::Finished(Ok(())),
        launch_arguments_of(station)[1] == STATION_BASE_URL@ + reported@,
        running_source(station, Ok(reported)),
{
    lemma_stem_of_station_file(station);
}

} // verus!
