use std::time::Duration;

use hachimi::device::{react, seek_reply, Command, DeviceOp, Reply};
use hachimi::error::{make_error, seek_error, ErrorKind, PlayerError, SeekFailure};
use hachimi::event::PlayerEvent;
use hachimi::media::MediaItem;
use hachimi::pipeline::{require_content_length, start_resolution};
use hachimi::playback::PlaybackState;
use hachimi::progress::{initial_progress, progress_update, DownloadPhase, Progress};
use hachimi::resolve::{resolve_target, strip_prefix_chars, target_for_parsed, MediaTarget};

fn item(url: &str, format: &str) -> MediaItem {
    MediaItem {
        audio_url: url.to_string(),
        format: format.to_string(),
        replay_gain_db_bits: 0f32.to_bits(),
        duration_secs: 5,
    }
}

fn local_path(r: &Result<MediaTarget, PlayerError>) -> Option<String> {
    match r {
        Ok(MediaTarget::LocalFile { path }) => Some(path.clone()),
        _ => None,
    }
}

#[test]
fn local_file_url_gives_its_path() {
    let r = resolve_target("file:///tmp/a.wav");
    assert_eq!(local_path(&r), Some("/tmp/a.wav".to_string()));
}

#[test]
fn https_url_is_remote() {
    let r = resolve_target("https://example.com/song.mp3");
    assert!(matches!(r, Ok(MediaTarget::Remote)));
}

#[test]
fn ftp_url_is_a_url_error() {
    let r = resolve_target("ftp://host/file.mp3");
    match r {
        Err(e) => {
            assert_eq!(e.kind(), ErrorKind::Url);
            assert_eq!(e.message(), "Unsupported audio URL scheme: ftp://host/file.mp3");
        }
        Ok(_) => panic!("ftp must be refused"),
    }
}

#[test]
fn unparsable_url_is_a_url_error() {
    let r = resolve_target("no scheme here");
    assert!(matches!(r, Err(PlayerError::URLError { .. })));
    assert!(!r.unwrap_err().message().is_empty());
}

#[test]
fn upper_case_file_scheme_has_no_strippable_prefix() {
    // The parser lower-cases the scheme, the path is taken from the text as written.
    let r = resolve_target("FILE:///tmp/a.wav");
    match r {
        Err(e) => {
            assert_eq!(e.kind(), ErrorKind::Io);
            assert_eq!(e.message(), "Invalid file URL");
        }
        Ok(_) => panic!("expected an I/O error"),
    }
}

#[test]
fn upper_case_https_scheme_is_remote() {
    assert!(matches!(resolve_target("HTTPS://example.com/a.mp3"), Ok(MediaTarget::Remote)));
}

#[test]
fn target_from_parsed_scheme() {
    let ok = target_for_parsed("file:///x/y.mp3", Ok("file".to_string()));
    assert_eq!(local_path(&ok), Some("/x/y.mp3".to_string()));
    let remote = target_for_parsed("https://h/a", Ok("https".to_string()));
    assert!(matches!(remote, Ok(MediaTarget::Remote)));
    let http = target_for_parsed("http://h/a", Ok("http".to_string()));
    assert_eq!(http.unwrap_err().message(), "Unsupported audio URL scheme: http://h/a");
    let bad = target_for_parsed("::", Err("relative URL without a base".to_string()));
    let e = bad.unwrap_err();
    assert_eq!(e.kind(), ErrorKind::Url);
    assert_eq!(e.message(), "relative URL without a base");
}

#[test]
fn strip_prefix_cases() {
    assert_eq!(strip_prefix_chars("file:///a", "file://"), Some("/a"));
    assert_eq!(strip_prefix_chars("file://", "file://"), Some(""));
    assert_eq!(strip_prefix_chars("file:/", "file://"), None);
    assert_eq!(strip_prefix_chars("fîle://x", "file://"), None);
    assert_eq!(strip_prefix_chars("héllo", "hé"), Some("llo"));
    assert_eq!(strip_prefix_chars("", ""), Some(""));
}

#[test]
fn seek_on_unsupported_source_is_classified() {
    let e = seek_error(SeekFailure::NotSupported { underlying_source: "wav".to_string() });
    assert_eq!(e.kind(), ErrorKind::Rodio);
    assert_eq!(e.message(), "Not supported: wav");
}

#[test]
fn seek_failure_classes() {
    let d = seek_error(SeekFailure::DecoderInternal { detail: "bad packet".to_string() });
    assert_eq!(d.message(), "Decoder returned an error: bad packet");
    let o = seek_error(SeekFailure::Other { detail: "x".to_string() });
    assert_eq!(o.message(), "Other error: x");
    let u = seek_error(SeekFailure::Unexpected { detail: "y".to_string() });
    assert_eq!(u.message(), "Unexpected error: y");
    assert!(matches!(u, PlayerError::RodioError { .. }));
}

#[test]
fn seek_reply_passes_success_and_classifies_failure() {
    assert!(seek_reply(Ok(())).is_ok());
    let r = seek_reply(Err(SeekFailure::NotSupported { underlying_source: "mp3".to_string() }));
    assert_eq!(r.unwrap_err().message(), "Not supported: mp3");
}

#[test]
fn error_builders() {
    let e = make_error(ErrorKind::Io, "disk".to_string());
    assert!(matches!(e, PlayerError::IOError { .. }));
    assert_eq!(e.message(), "disk");
    assert_eq!(make_error(ErrorKind::Url, String::new()).kind(), ErrorKind::Url);
    assert_eq!(make_error(ErrorKind::Rodio, "r".to_string()).kind(), ErrorKind::Rodio);
}

#[test]
fn idle_position_is_zero_without_asking_the_sink() {
    let r = react(Command::GetPos, true);
    assert!(matches!(r.op, DeviceOp::Nothing));
    assert_eq!(r.reply, Reply::ZeroPosition);
    assert!(r.event.is_none());
    let busy = react(Command::GetPos, false);
    assert!(matches!(busy.op, DeviceOp::ReadPosition));
    assert_eq!(busy.reply, Reply::SinkValue);
}

#[test]
fn direct_controls_emit_one_matching_event() {
    assert_eq!(react(Command::Play, false).event, Some(PlayerEvent::Play));
    assert_eq!(react(Command::Pause, false).event, Some(PlayerEvent::Pause));
    let stop = react(Command::Stop, false);
    assert_eq!(stop.event, Some(PlayerEvent::Stop));
    assert_eq!(stop.reply, Reply::Done);
    let seek = react(Command::Seek(Duration::from_secs(2)), false);
    assert_eq!(seek.event, Some(PlayerEvent::Seek(Duration::from_secs(2))));
    assert!(matches!(seek.op, DeviceOp::TrySeek(d) if d == Duration::from_secs(2)));
    assert_eq!(seek.reply, Reply::SeekOutcome);
}

#[test]
fn other_commands_emit_nothing() {
    for c in [Command::SetVolume, Command::GetVolume, Command::IsPaused, Command::IsEmpty, Command::Drain] {
        let r = react(c, false);
        assert!(r.event.is_none());
        assert!(!r.watch_end);
    }
    assert!(matches!(react(Command::Drain, true).op, DeviceOp::SleepUntilEnd));
    assert_eq!(react(Command::SetVolume, true).reply, Reply::NoReply);
}

#[test]
fn append_pauses_and_starts_a_watcher() {
    let r = react(Command::Append, true);
    assert!(matches!(r.op, DeviceOp::AppendPaused));
    assert!(r.watch_end);
    assert!(r.event.is_none());
}

#[test]
fn newer_request_supersedes_older() {
    let x = item("file:///tmp/x.wav", "wav");
    let y = item("file:///tmp/y.wav", "wav");
    let mut s = PlaybackState::new();
    assert!(s.should_hand_off(&x));
    s.begin_resolution(x.clone());
    s.begin_resolution(y.clone());
    assert!(!s.should_hand_off(&x));
    assert!(s.should_hand_off(&y));
}

#[test]
fn equal_requests_coalesce() {
    let mut s = PlaybackState::new();
    s.begin_resolution(item("file:///tmp/x.wav", "wav"));
    assert!(s.should_hand_off(&item("file:///tmp/x.wav", "wav")));
    let mut louder = item("file:///tmp/x.wav", "wav");
    louder.replay_gain_db_bits = 3.5f32.to_bits();
    assert!(!s.should_hand_off(&louder));
    assert!(!s.should_hand_off(&item("file:///tmp/x.wav", "mp3")));
}

#[test]
fn stop_suppresses_end() {
    let mut s = PlaybackState::new();
    s.begin_resolution(item("file:///tmp/a.wav", "wav"));
    s.request_stop();
    assert_eq!(s.end_of_track_event(), None);
    assert_eq!(react(Command::Stop, false).event, Some(PlayerEvent::Stop));
}

#[test]
fn natural_completion_emits_end() {
    let mut s = PlaybackState::new();
    s.request_stop();
    s.begin_resolution(item("file:///tmp/a.wav", "wav"));
    assert_eq!(s.end_of_track_event(), Some(PlayerEvent::End));
}

#[test]
fn local_append_then_play_gives_play_then_end() {
    let a = item("file:///tmp/a.wav", "wav");
    let mut s = PlaybackState::new();
    let start = start_resolution(&mut s, &a).ok().unwrap();
    assert_eq!(start.progress, Progress { done: 1, total: 1 });
    assert!(s.should_hand_off(&a));
    let append = react(Command::Append, true);
    let mut events = Vec::new();
    events.extend(append.event);
    events.extend(react(Command::Play, false).event);
    if append.watch_end {
        events.extend(s.end_of_track_event());
    }
    assert_eq!(events, vec![PlayerEvent::Play, PlayerEvent::End]);
}

#[test]
fn start_resolution_records_the_request() {
    let mut s = PlaybackState::new();
    s.request_stop();
    let r = start_resolution(&mut s, &item("ftp://host/file.mp3", "mp3"));
    assert_eq!(r.err().unwrap().kind(), ErrorKind::Url);
    assert!(!s.stop_by_user);
    assert_eq!(s.current_item, Some(item("ftp://host/file.mp3", "mp3")));
    let remote = start_resolution(&mut s, &item("https://h/a.mp3", "mp3")).ok().unwrap();
    assert!(matches!(remote.target, MediaTarget::Remote));
    assert_eq!(remote.progress, Progress { done: 0, total: 1 });
}

#[test]
fn initial_progress_by_target() {
    assert_eq!(initial_progress(&MediaTarget::LocalFile { path: "/a".to_string() }), Progress { done: 1, total: 1 });
    assert_eq!(initial_progress(&MediaTarget::Remote), Progress { done: 0, total: 1 });
}

#[test]
fn stream_progress_reports() {
    assert_eq!(progress_update(DownloadPhase::Prefetching, 10, Some(100)), None);
    assert_eq!(progress_update(DownloadPhase::Other, 10, Some(100)), None);
    assert_eq!(progress_update(DownloadPhase::Downloading, 25, Some(100)), Some(Progress { done: 25, total: 100 }));
    assert_eq!(progress_update(DownloadPhase::Downloading, 25, None), Some(Progress { done: 0, total: 1 }));
    assert_eq!(progress_update(DownloadPhase::Complete, 25, None), Some(Progress { done: 1, total: 1 }));
}

#[test]
fn stream_progress_never_decreases() {
    let mut last = 0f64;
    for pos in [0u64, 10, 10, 64, 99, 100] {
        let p = progress_update(DownloadPhase::Downloading, pos, Some(100)).unwrap();
        let v = p.done as f64 / p.total as f64;
        assert!(v >= last && v <= 1.0);
        last = v;
    }
    let end = progress_update(DownloadPhase::Complete, 100, Some(100)).unwrap();
    assert_eq!(end.done, end.total);
}

#[test]
fn content_length_is_required() {
    assert!(matches!(require_content_length(Some(42)), Ok(42)));
    let e = require_content_length(None).unwrap_err();
    assert_eq!(e.kind(), ErrorKind::Io);
    assert_eq!(e.message(), "Content length is not available!");
}

#[test]
fn media_items_compare_by_value() {
    assert!(item("file:///a", "wav") == item("file:///a", "wav"));
    assert!(item("file:///a", "wav") != item("file:///b", "wav"));
    let a = item("file:///a", "wav");
    assert!(a.clone_item() == a);
}
