use packet_play::duration::PlayDuration;
use packet_play::model::{Command, Error, Event, Mode, PositionChange};
use packet_play::player::PlayerState;

#[test]
fn command_from_menu_index() {
    assert_eq!(Command::from(0), Command::Play);
    assert_eq!(Command::from(1), Command::Pause);
    assert_eq!(Command::from(2), Command::Rewind);
    assert_eq!(Command::from(3), Command::Quit);
    assert_eq!(Command::from(4), Command::Unspecified);
    assert_eq!(Command::from(99), Command::Unspecified);
}

#[test]
fn command_menu_labels() {
    let labels = Command::as_vec();
    assert_eq!(labels, vec!["Play", "Pause", "Rewind", "Quit", ""]);
}

#[test]
fn mode_parses_ignoring_ascii_case() {
    assert!(matches!(Mode::from_str("cli"), Ok(Mode::Cli)));
    assert!(matches!(Mode::from_str("CLI"), Ok(Mode::Cli)));
    assert!(matches!(Mode::from_str("gUi"), Ok(Mode::Gui)));
    assert!(matches!(Mode::from_str("gui"), Ok(Mode::Gui)));
    assert!(matches!(Mode::from_str("tui"), Err(Error::ArgumentError)));
    assert!(matches!(Mode::from_str("clii"), Err(Error::ArgumentError)));
    assert!(matches!(Mode::from_str(""), Err(Error::ArgumentError)));
}

#[test]
fn position_event_is_one_based() {
    let e = Event::position_event(0, 3, PlayDuration::zero(), PlayDuration::zero());
    match e {
        Event::PlayerPositionChanged(p) => {
            assert_eq!(p.position, 1);
            assert_eq!(p.max_position, 3);
        }
        other => panic!("expected a position event, got {other:?}"),
    }
}

#[test]
fn state_event_wraps_the_state() {
    let e = Event::state_event(PlayerState::Paused);
    match e {
        Event::PlayerStateChanged(s) => assert_eq!(s.state, PlayerState::Paused),
        other => panic!("expected a state event, got {other:?}"),
    }
}

#[test]
fn error_event_wraps_each_error_kind() {
    assert!(matches!(
        Event::error(Error::PlayerInitError),
        Event::Error(Error::PlayerInitError)
    ));
    assert!(matches!(
        Event::error(Error::ParsePcapNgError),
        Event::Error(Error::ParsePcapNgError)
    ));
    assert!(matches!(
        Event::error(Error::CommandChannelError),
        Event::Error(Error::CommandChannelError)
    ));
}

#[test]
fn default_position_is_all_zero() {
    let p = PositionChange::default();
    assert_eq!(p.position, 0);
    assert_eq!(p.max_position, 0);
    assert_eq!(p.time_position, PlayDuration::zero());
    assert_eq!(p.time_total, PlayDuration::zero());
}

#[test]
fn state_labels_for_display() {
    assert_eq!(PlayerState::Initial.label(), "Ready");
    assert_eq!(PlayerState::Playing.label(), "Playing");
    assert_eq!(PlayerState::Paused.label(), "Paused");
    assert_eq!(PlayerState::Finished.label(), "Finished");
    assert_eq!(PlayerState::Quit.label(), "");
}
