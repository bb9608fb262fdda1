use nightride::protocol::PlayerError;
use nightride::station::{station_url, STATION_COUNT};
use nightride::supervisor::{
    is_running_source, ensure_playing_station, kill_arguments, launch_arguments, stop_target, EnsureEvent,
    EnsureStep,
};

#[test]
fn running_source_needs_matching_file() {
    assert!(is_running_source(0, &Ok("nightride.ogg".to_string())));
    assert!(!is_running_source(1, &Ok("nightride.ogg".to_string())));
}

#[test]
fn running_source_false_without_channel() {
    for s in 0..STATION_COUNT {
        assert!(!is_running_source(s, &Err(PlayerError::ChannelUnavailable)));
        assert!(!is_running_source(s, &Err(PlayerError::Protocol)));
    }
}

#[test]
fn stop_target_only_on_pid() {
    assert_eq!(stop_target(&Ok(1234)), Some(1234));
    assert_eq!(stop_target(&Err(PlayerError::ChannelUnavailable)), None);
}

#[test]
fn launch_and_kill_arguments() {
    assert_eq!(
        launch_arguments(4),
        vec![
            "mpv".to_string(),
            "http://stream.nightride.fm/darksynth.ogg".to_string(),
            "--input-ipc-server=/tmp/nightride.sock".to_string(),
        ]
    );
    assert_eq!(kill_arguments(4321), vec!["4321".to_string()]);
}

#[test]
fn ensure_playing_keeps_running_station() {
    let mut m = ensure_playing_station(3);
    m.advance(EnsureEvent::Filename(Ok("spacesynth.ogg".to_string())));
    assert_eq!(m.step, EnsureStep::Finished(Ok(())));
}

#[test]
fn ensure_playing_then_running_for_every_station() {
    for s in 0..STATION_COUNT {
        // a simulated player that plays station (s + 3) % count
        let other = (s + 3) % STATION_COUNT;
        let url = station_url(other);
        let file = url.rsplit('/').next().unwrap().to_string();
        let mut m = ensure_playing_station(s);
        m.advance(EnsureEvent::Filename(Ok(file)));
        assert_eq!(m.step, EnsureStep::ReadPid);
        m.advance(EnsureEvent::Pid(Ok(77)));
        assert_eq!(m.step, EnsureStep::Kill(77));
        m.advance(EnsureEvent::Killed);
        assert_eq!(m.step, EnsureStep::Launch(s));
        let started = launch_arguments(s)[1].clone();
        m.advance(EnsureEvent::Launched(Ok(())));
        assert_eq!(m.step, EnsureStep::Finished(Ok(())));
        // the simulated player now reports the file at the end of the address it was given
        let reported = started.rsplit('/').next().unwrap().to_string();
        assert!(is_running_source(s, &Ok(reported)));
    }
}

#[test]
fn ensure_playing_without_player_launches_directly() {
    let mut m = ensure_playing_station(0);
    m.advance(EnsureEvent::Filename(Err(PlayerError::ChannelUnavailable)));
    m.advance(EnsureEvent::Pid(Err(PlayerError::ChannelUnavailable)));
    assert_eq!(m.step, EnsureStep::Launch(0));
    m.advance(EnsureEvent::Launched(Err(PlayerError::Spawn("no such program".to_string()))));
    assert_eq!(m.step, EnsureStep::Finished(Err(PlayerError::Spawn("no such program".to_string()))));
}

#[test]
fn ensure_playing_ignores_unrelated_event() {
    let mut m = ensure_playing_station(0);
    m.advance(EnsureEvent::Killed);
    assert_eq!(m.step, EnsureStep::ReadFilename);
}
