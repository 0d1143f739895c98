use kingshot::flow::{
    begin_loading, drive_loading_timer, drive_menu_auto_start, enter_menu, setup_gameplay_session,
    GameplayEvent, LOADING_NANOS, MENU_AUTO_START_NANOS,
};
use kingshot::lifecycle::{update_step, PluginsStage, UpdateStep};
use kingshot::state::{
    apply_state_requests, mark_game_over, mark_gameplay_begin, mark_loading_begin,
    mark_menu_begin, mark_pause_begin, AppState, AppStateRequest, GameSession, SessionStatus,
};

#[test]
fn last_state_request_wins() {
    let requests = vec![
        AppStateRequest::new(AppState::MainMenu),
        AppStateRequest::new(AppState::GameOver),
        AppStateRequest::new(AppState::Gameplay),
    ];
    assert_eq!(apply_state_requests(&requests), Some(AppState::Gameplay));
}

#[test]
fn no_state_request_keeps_state() {
    assert_eq!(apply_state_requests(&Vec::new()), None);
}

#[test]
fn defaults_start_loading_and_idle() {
    assert_eq!(AppState::default(), AppState::Loading);
    assert_eq!(SessionStatus::default(), SessionStatus::Idle);
    let session = GameSession::default();
    assert_eq!(session.wave, 0);
    assert_eq!(session.score, 0);
    assert_eq!(session.status, SessionStatus::Idle);
}

#[test]
fn entering_states_marks_session() {
    let mut session = GameSession { wave: 3, score: 700, status: SessionStatus::Idle };
    mark_loading_begin(&mut session);
    assert_eq!(session.status, SessionStatus::Loading);
    mark_menu_begin(&mut session);
    assert_eq!(session.status, SessionStatus::InMenu);
    mark_gameplay_begin(&mut session);
    assert_eq!(session.status, SessionStatus::Running);
    mark_pause_begin(&mut session);
    assert_eq!(session.status, SessionStatus::Paused);
    mark_game_over(&mut session);
    assert_eq!(session.status, SessionStatus::Complete);
    assert_eq!(session.wave, 3);
    assert_eq!(session.score, 700);
}

#[test]
fn loading_resets_session_and_finishes_after_one_second() {
    let mut session = GameSession { wave: 4, score: 900, status: SessionStatus::Loading };
    let mut timer = begin_loading(&mut session);
    assert_eq!(session.wave, 0);
    assert_eq!(session.score, 0);
    assert_eq!(session.status, SessionStatus::Loading);
    assert_eq!(timer.0.duration_nanos(), LOADING_NANOS);
    assert_eq!(drive_loading_timer(&mut timer, 600_000_000), None);
    assert_eq!(timer.0.elapsed_nanos(), 600_000_000);
    let out = drive_loading_timer(&mut timer, 600_000_000);
    assert_eq!(
        out,
        Some((GameplayEvent::LoadingComplete, AppStateRequest::new(AppState::MainMenu)))
    );
    assert_eq!(timer.0.elapsed_nanos(), LOADING_NANOS);
    assert_eq!(drive_loading_timer(&mut timer, 600_000_000), None);
    assert!(timer.0.finished());
}

#[test]
fn menu_starts_campaign_after_one_and_a_half_seconds() {
    let (event, mut timer) = enter_menu();
    assert_eq!(event, GameplayEvent::StartCampaign);
    assert_eq!(timer.0.duration_nanos(), MENU_AUTO_START_NANOS);
    assert_eq!(drive_menu_auto_start(&mut timer, 1_499_999_999), None);
    assert_eq!(
        drive_menu_auto_start(&mut timer, 1),
        Some(AppStateRequest::new(AppState::Gameplay))
    );
    assert_eq!(drive_menu_auto_start(&mut timer, 1), None);
}

#[test]
fn gameplay_starts_at_wave_one() {
    let mut session = GameSession { wave: 0, score: 1200, status: SessionStatus::Running };
    setup_gameplay_session(&mut session);
    assert_eq!(session.wave, 1);
    assert_eq!(session.score, 0);
    assert_eq!(session.status, SessionStatus::Running);
}

#[test]
fn frame_requests_follow_plugin_stage() {
    assert_eq!(update_step(PluginsStage::Adding), UpdateStep::Wait);
    assert_eq!(update_step(PluginsStage::Ready), UpdateStep::FinishAndCleanup);
    assert_eq!(update_step(PluginsStage::Finished), UpdateStep::Cleanup);
    assert_eq!(update_step(PluginsStage::Cleaned), UpdateStep::RunFrame);
}
