use grimoire::playback::{seconds_of_day, Playback, StreamCommand};
use grimoire::watch::{FileWatch, WatchEvent, Watcher};
use grimoire::error::ErrorKind;

#[test]
fn playback_starts_paused_at_zero() {
    assert_eq!(Playback::new(), Playback { playing: false, time: 0, frame: 0 });
}

#[test]
fn play_pause_toggle() {
    let mut playback = Playback::new();
    assert_eq!(playback.play(), StreamCommand::Play);
    assert!(playback.playing);
    assert_eq!(playback.toggle_play(), StreamCommand::Pause);
    assert!(!playback.playing);
    assert_eq!(playback.toggle_play(), StreamCommand::Play);
    assert!(playback.playing);
    assert_eq!(playback.pause(), StreamCommand::Pause);
    assert!(!playback.playing);
}

#[test]
fn stepping_moves_time_and_frame() {
    let mut playback = Playback::new();
    playback.step_forward(16_000_000);
    playback.step_forward(16_000_000);
    assert_eq!(playback, Playback { playing: false, time: 32_000_000, frame: 2 });
    playback.step_backward(16_000_000);
    assert_eq!(playback, Playback { playing: false, time: 16_000_000, frame: 1 });
    playback.step_backward(16_000_000);
    assert_eq!(playback, Playback { playing: false, time: 0, frame: 0 });
    // nothing happens at frame 0
    playback.step_backward(16_000_000);
    assert_eq!(playback, Playback { playing: false, time: 0, frame: 0 });
}

#[test]
fn stepping_back_further_than_time_stops_at_zero() {
    let mut playback = Playback { playing: true, time: 5, frame: 3 };
    playback.step_backward(16);
    assert_eq!(playback, Playback { playing: true, time: 0, frame: 2 });
}

#[test]
fn stepping_stops_at_the_end_of_the_range() {
    let mut playback = Playback { playing: false, time: u128::MAX - 1, frame: u32::MAX };
    playback.step_forward(10);
    assert_eq!(playback, Playback { playing: false, time: u128::MAX, frame: u32::MAX });
}

#[test]
fn restart_keeps_playing() {
    let mut playback = Playback { playing: true, time: 99, frame: 7 };
    assert_eq!(playback.restart(), StreamCommand::Restart);
    assert_eq!(playback, Playback { playing: true, time: 0, frame: 0 });
}

#[test]
fn tick_moves_only_while_playing() {
    let mut playback = Playback::new();
    playback.tick(16);
    assert_eq!(playback, Playback { playing: false, time: 0, frame: 0 });
    playback.play();
    playback.tick(16);
    assert_eq!(playback, Playback { playing: true, time: 16, frame: 1 });
}

#[test]
fn seconds_since_midnight() {
    assert_eq!(seconds_of_day(0, 0, 0), 0);
    assert_eq!(seconds_of_day(1, 1, 1), 3661);
    assert_eq!(seconds_of_day(23, 59, 59), 86399);
}

#[test]
fn first_look_reads_the_file() {
    let mut watch = FileWatch::new(Watcher::FileStream);
    assert!(watch.force_load);
    assert_eq!(watch.try_recv(WatchEvent::Empty).ok(), Some(true));
    assert!(!watch.force_load);
    assert_eq!(watch.try_recv(WatchEvent::Empty).ok(), Some(false));
    assert_eq!(watch.try_recv(WatchEvent::Other).ok(), Some(false));
}

#[test]
fn writes_and_creations_read_the_file() {
    let mut watch = FileWatch::new(Watcher::ResourceWatch);
    assert_eq!(watch.try_recv(WatchEvent::Write).ok(), Some(true));
    assert_eq!(watch.try_recv(WatchEvent::Write).ok(), Some(true));
    assert_eq!(watch.try_recv(WatchEvent::Create).ok(), Some(true));
    assert_eq!(watch.try_recv(WatchEvent::Empty).ok(), Some(false));
}

#[test]
fn lost_watcher_is_a_bug() {
    let mut watch = FileWatch::new(Watcher::FileStream);
    let error = watch.try_recv(WatchEvent::Disconnected).err().unwrap();
    assert!(matches!(
        error.kind(),
        ErrorKind::Bug(message) if message == "FileStream::try_recv got unexpected disconnect"
    ));
    // the first look is still to come
    assert!(watch.force_load);
    let mut watch = FileWatch::new(Watcher::ResourceWatch);
    let error = watch.try_recv(WatchEvent::Disconnected).err().unwrap();
    assert!(matches!(
        error.kind(),
        ErrorKind::Bug(message)
            if message == "ResourceWatch::stream_to rx.try_recv got unexpected disconnect"
    ));
}
