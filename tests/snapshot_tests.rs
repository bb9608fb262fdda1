use nightride::command::{command_for_key, UserCommand, ESCAPE};
use nightride::metadata::Track;
use nightride::protocol::PlayerError;
use nightride::snapshot::{stepped_volume, App, Probes};
use nightride::supervisor::{ensure_playing_station, EnsureEvent, EnsureStep};

fn failed_probes() -> Probes {
    Probes {
        pause: Err(PlayerError::ChannelUnavailable),
        volume: Err(PlayerError::ChannelUnavailable),
        metadata: Err(PlayerError::ChannelUnavailable),
        filename: Err(PlayerError::ChannelUnavailable),
    }
}

#[test]
fn default_snapshot() {
    let a = App::default();
    assert_eq!(a.station, 0);
    assert!(a.is_paused);
    assert_eq!(a.volume, 100);
    assert!(a.current_track.is_none());
}

#[test]
fn restore_keeps_valid_saved_snapshot() {
    let saved = App { is_paused: false, current_track: None, volume: 35, station: 4 };
    let a = App::restore(Some(saved));
    assert_eq!((a.is_paused, a.volume, a.station), (false, 35, 4));
    let bad = App { is_paused: false, current_track: None, volume: 35, station: 9 };
    let b = App::restore(Some(bad));
    assert_eq!((b.is_paused, b.volume, b.station), (true, 100, 0));
}

#[test]
fn volume_steps_stay_in_range() {
    assert_eq!(stepped_volume(100, true), 105);
    assert_eq!(stepped_volume(100, false), 95);
    assert_eq!(stepped_volume(148, true), 150);
    assert_eq!(stepped_volume(2, false), 0);
    assert_eq!(stepped_volume(400, false), 150);
    let mut v: u32 = 37;
    for _ in 0..40 {
        v = stepped_volume(v, false);
        assert!(v <= 150);
    }
    assert_eq!(v, 0);
    assert_eq!(stepped_volume(0, false), 0);
    for _ in 0..40 {
        v = stepped_volume(v, true);
        assert!(v <= 150);
    }
    assert_eq!(v, 150);
    assert_eq!(stepped_volume(150, true), 150);
}

#[test]
fn update_adopts_each_probe_independently() {
    let mut a = App::default();
    let mut p = failed_probes();
    p.volume = Ok(60);
    a.update(p);
    assert!(a.is_paused);
    assert_eq!(a.volume, 60);
    assert!(a.current_track.is_none());
    assert_eq!(a.station, 0);
}

#[test]
fn update_takes_track_and_station() {
    let mut a = App::default();
    let mut p = failed_probes();
    p.metadata = Ok(Track {
        title: "Old;New".to_string(),
        artist: "Artist".to_string(),
        album: "A;B".to_string(),
    });
    p.filename = Ok("darksynth.ogg".to_string());
    p.volume = Ok(500);
    a.update(p);
    let t = a.current_track.as_ref().unwrap();
    assert_eq!((t.title.as_str(), t.artist.as_str(), t.album.as_str()), ("New", "Artist", "B"));
    assert_eq!(a.station, 4);
    assert_eq!(a.volume, 150);
    let mut p = failed_probes();
    p.filename = Ok("elsewhere.mp3".to_string());
    a.update(p);
    assert_eq!(a.station, 4);
    assert!(a.current_track.is_none());
}

#[test]
fn fresh_start_then_player_reports_playing() {
    let mut a = App::restore(None);
    assert_eq!((a.station, a.is_paused, a.volume), (0, true, 100));
    let mut m = ensure_playing_station(a.station);
    m.advance(EnsureEvent::Filename(Err(PlayerError::ChannelUnavailable)));
    m.advance(EnsureEvent::Pid(Err(PlayerError::ChannelUnavailable)));
    assert_eq!(m.step, EnsureStep::Launch(0));
    m.advance(EnsureEvent::Launched(Ok(())));
    assert_eq!(m.step, EnsureStep::Finished(Ok(())));
    let mut p = failed_probes();
    p.filename = Ok("nightride.ogg".to_string());
    p.pause = Ok(false);
    a.update(p);
    assert!(!a.is_paused);
    assert_eq!(a.station, 0);
}

#[test]
fn next_station_start_failure_keeps_station() {
    let mut a = App::default();
    let target = a.next_station();
    assert_eq!(target, 1);
    let mut m = ensure_playing_station(target);
    m.advance(EnsureEvent::Filename(Ok("nightride.ogg".to_string())));
    assert_eq!(m.step, EnsureStep::ReadPid);
    m.advance(EnsureEvent::Pid(Ok(999)));
    assert_eq!(m.step, EnsureStep::Kill(999));
    m.advance(EnsureEvent::Killed);
    assert_eq!(m.step, EnsureStep::Launch(1));
    let failure = PlayerError::Spawn("not found".to_string());
    m.advance(EnsureEvent::Launched(Err(failure.clone())));
    let outcome = match m.step {
        EnsureStep::Finished(r) => r,
        _ => panic!("not finished"),
    };
    assert_eq!(a.commit_station(target, outcome), Err(failure));
    assert_eq!(a.station, 0);
    assert_eq!(a.commit_station(target, Ok(())), Ok(()));
    assert_eq!(a.station, 1);
}

#[test]
fn pause_toggle_commits_only_on_success() {
    let mut a = App::default();
    assert_eq!(a.pause_request(), "{\"command\":[\"set_property\",\"pause\",false]}\n");
    assert_eq!(a.commit_pause(Err(PlayerError::ChannelUnavailable)), Err(PlayerError::ChannelUnavailable));
    assert!(a.is_paused);
    assert_eq!(a.commit_pause(Ok(())), Ok(()));
    assert!(!a.is_paused);
}

#[test]
fn volume_commits_only_on_success() {
    let mut a = App::default();
    let err = PlayerError::Command("error".to_string());
    assert_eq!(a.commit_volume(105, Err(err.clone())), Err(err));
    assert_eq!(a.volume, 100);
    assert_eq!(a.commit_volume(105, Ok(())), Ok(()));
    assert_eq!(a.volume, 105);
}

#[test]
fn status_lines_show_snapshot() {
    let mut a = App::default();
    assert_eq!(
        a.status_lines(),
        vec![
            "Station: nightride".to_string(),
            "State:   paused".to_string(),
            "Track:   ...".to_string(),
            "Volume:  100".to_string(),
        ]
    );
    a.is_paused = false;
    a.current_track = Some(Track { title: "T".to_string(), artist: "A".to_string(), album: "B".to_string() });
    assert_eq!(a.status_lines()[1], "State:   playing");
    assert_eq!(a.status_lines()[2], "Track:   T by A (B)");
}

#[test]
fn keys_give_commands() {
    assert_eq!(command_for_key('q'), Some(UserCommand::Quit));
    assert_eq!(command_for_key(ESCAPE), Some(UserCommand::Quit));
    assert_eq!(command_for_key('p'), Some(UserCommand::TogglePause));
    assert_eq!(command_for_key('V'), Some(UserCommand::VolumeUp));
    assert_eq!(command_for_key('v'), Some(UserCommand::VolumeDown));
    assert_eq!(command_for_key('y'), Some(UserCommand::SearchTrack));
    assert_eq!(command_for_key('n'), Some(UserCommand::NextStation));
    assert_eq!(command_for_key('x'), None);
}
