use schwitzerflut::color::Color;
use schwitzerflut::color::RgbColor;
use schwitzerflut::command::Command;
use schwitzerflut::command::GetCanvasSizeCommand;
use schwitzerflut::command::SetPixelCommand;
use schwitzerflut::coordinates::Coordinates;
use schwitzerflut::session::build_payload;
use schwitzerflut::session::session_action;
use schwitzerflut::session::session_failure;
use schwitzerflut::session::session_step;
use schwitzerflut::session::SessionAction;
use schwitzerflut::session::SessionError;
use schwitzerflut::session::SessionEvent;
use schwitzerflut::session::SessionPhase;

#[test]
fn test_payload_joins_with_newline_no_trailing() {
    let commands = vec![
        Command::SetPixel(SetPixelCommand::new(
            Coordinates::new(1, 2),
            Color::Rgb(RgbColor::new(0xaa, 0xbb, 0xcc)),
        )),
        Command::GetCanvasSize(GetCanvasSizeCommand),
        Command::SetPixel(SetPixelCommand::new(
            Coordinates::new(3, 4),
            Color::Rgb(RgbColor::new(0, 0, 0)),
        )),
    ];
    assert_eq!(build_payload(&commands), "PX 1 2 aabbcc\nSIZE\nPX 3 4 000000");
}

#[test]
fn test_payload_of_one_command_has_no_newline() {
    let commands = vec![Command::GetCanvasSize(GetCanvasSizeCommand)];
    assert_eq!(build_payload(&commands), "SIZE");
}

#[test]
fn test_payload_of_no_commands_is_empty() {
    assert_eq!(build_payload(&Vec::new()), "");
}

#[test]
fn test_connect_success_reaches_connected() {
    let p = session_step(SessionPhase::Disconnected, SessionEvent::ConnectSucceeded);
    assert_eq!(p, SessionPhase::Connected);
    assert_eq!(session_action(p), SessionAction::Send);
}

#[test]
fn test_connect_failure_produces_no_session() {
    // A failed connect surfaces ConnectFailed and the session never reaches
    // a sending state.
    let p = session_step(SessionPhase::Disconnected, SessionEvent::ConnectFailed);
    assert_eq!(p, SessionPhase::Failed);
    assert_eq!(session_action(p), SessionAction::Stop);
    assert_eq!(
        session_failure(SessionEvent::ConnectFailed),
        Some(SessionError::ConnectFailed)
    );
}

#[test]
fn test_send_failure_ends_only_this_session() {
    // One session's write failure moves it, and only it, to the terminal
    // failed state; an independent session value is unaffected.
    let failing = session_step(SessionPhase::Connected, SessionEvent::SendFailed);
    let sibling = session_step(SessionPhase::Connected, SessionEvent::SendSucceeded);
    assert_eq!(failing, SessionPhase::Failed);
    assert_eq!(session_action(failing), SessionAction::Stop);
    assert_eq!(sibling, SessionPhase::Connected);
    assert_eq!(session_action(sibling), SessionAction::Send);
    assert_eq!(
        session_failure(SessionEvent::SendFailed),
        Some(SessionError::WriteFailed)
    );
}

#[test]
fn test_send_success_keeps_streaming() {
    let p = session_step(SessionPhase::Connected, SessionEvent::SendSucceeded);
    assert_eq!(p, SessionPhase::Connected);
    assert_eq!(session_failure(SessionEvent::SendSucceeded), None);
}

#[test]
fn test_terminal_states_absorb_every_event() {
    for phase in [SessionPhase::Closed, SessionPhase::Failed] {
        for event in [
            SessionEvent::ConnectSucceeded,
            SessionEvent::ConnectFailed,
            SessionEvent::SendSucceeded,
            SessionEvent::SendFailed,
        ] {
            assert_eq!(session_step(phase, event), phase);
            assert_eq!(session_action(phase), SessionAction::Stop);
        }
    }
}
