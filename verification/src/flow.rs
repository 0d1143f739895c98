//! The boot and menu flow: timers that move the application from loading to
//! the menu and from the menu into gameplay, and the session resets that go
//! with them.
use crate::state::{AppState, AppStateRequest, GameSession};
use crate::timer::{lemma_just_finished_on_first_reaching, run, total, OnceTimer, TimerView};
use vstd::prelude::*;

verus! {

/// How long the loading screen stays up: one second.
pub const LOADING_NANOS: u64 = 1_000_000_000;

/// How long the menu waits before starting the campaign: one and a half
/// seconds.
pub const MENU_AUTO_START_NANOS: u64 = 1_500_000_000;

/// Milestones that gameplay systems announce.
#[derive(Clone, Copy, Debug, PartialEq, Eq, Structural)]
pub enum GameplayEvent {
    LoadingComplete,
    StartCampaign,
}

/// The timer of the loading screen.
pub struct LoadingTimer(pub OnceTimer);

/// The timer after which the menu starts the campaign by itself.
pub struct MenuAutoStartTimer(pub OnceTimer);

/// Entering the loading screen resets the wave and the score and starts the
/// loading timer.
pub fn begin_loading(session: &mut GameSession) -> (timer: LoadingTimer)
    ensures
        *final(session) == (GameSession { wave: 0, score: 0, ..*old(session) }),
        timer.0@ == TimerView::fresh(LOADING_NANOS as nat),
{
    session.wave = 0;
    session.score = 0;
    LoadingTimer(OnceTimer::new(LOADING_NANOS))
}

/// Advances the loading timer by the frame's `delta_nanos`; on the tick
/// that finishes it, announces `LoadingComplete` and requests the main menu.
pub fn drive_loading_timer(timer: &mut LoadingTimer, delta_nanos: u64) -> (out: Option<
    (GameplayEvent, AppStateRequest),
>)
    ensures
        final(timer).0@ == old(timer).0@.after_tick(delta_nanos as nat),
        out == (if final(timer).0@.just_finished {
            Some((GameplayEvent::LoadingComplete, AppStateRequest { next: AppState::MainMenu }))
        } else {
            None
        }),
{
    timer.0.tick(delta_nanos);
    if timer.0.just_finished() {
        Some((GameplayEvent::LoadingComplete, AppStateRequest::new(AppState::MainMenu)))
    } else {
        None
    }
}

/// Entering the menu announces `StartCampaign` and starts the auto-start
/// timer.
pub fn enter_menu() -> (out: (GameplayEvent, MenuAutoStartTimer))
    ensures
        out.0 == GameplayEvent::StartCampaign,
        out.1.0@ == TimerView::fresh(MENU_AUTO_START_NANOS as nat),
{
    (GameplayEvent::StartCampaign, MenuAutoStartTimer(OnceTimer::new(MENU_AUTO_START_NANOS)))
}

/// Advances the menu's auto-start timer by `delta_nanos`; on the tick that
/// finishes it, requests gameplay.
pub fn drive_menu_auto_start(timer: &mut MenuAutoStartTimer, delta_nanos: u64) -> (out: Option<
    AppStateRequest,
>)
    ensures
        final(timer).0@ == old(timer).0@.after_tick(delta_nanos as nat),
        out == (if final(timer).0@.just_finished {
            Some(AppStateRequest { next: AppState::Gameplay })
        } else {
            None
        }),
{
    timer.0.tick(delta_nanos);
    if timer.0.just_finished() {
        Some(AppStateRequest::new(AppState::Gameplay))
    } else {
        None
    }
}

/// Over the frames of the loading screen, with frame times `deltas` (each
/// call of [`drive_loading_timer`] ticks the timer once), `LoadingComplete`
/// and the move to the main menu come on exactly one frame: the first whose
/// running total of frame times reaches one second.
pub proof fn lemma_loading_completes_once(deltas: Seq<nat>, j: int)
    requires
        0 <= j < deltas.len(),
    ensures
        run(TimerView::fresh(LOADING_NANOS as nat), deltas.take(j + 1)).just_finished <==> (total(
            deltas.take(j + 1),
        ) >= LOADING_NANOS && total(deltas.take(j)) < LOADING_NANOS),
{
    lemma_just_finished_on_first_reaching(LOADING_NANOS as nat, deltas.take(j + 1));
    assert(deltas.take(j + 1).drop_last() =~= deltas.take(j));
}

/// Over the frames of the menu, with frame times `deltas` (each call of
/// [`drive_menu_auto_start`] ticks the timer once), the move to gameplay is
/// requested on exactly one frame: the first whose running total of frame
/// times reaches one and a half seconds.
pub proof fn lemma_menu_starts_campaign_once(deltas: Seq<nat>, j: int)
    requires
        0 <= j < deltas.len(),
    ensures
        run(TimerView::fresh(MENU_AUTO_START_NANOS as nat), deltas.take(j + 1)).just_finished <==> (
        total(deltas.take(j + 1)) >= MENU_AUTO_START_NANOS && total(deltas.take(j))
            < MENU_AUTO_START_NANOS),
{
    lemma_just_finished_on_first_reaching(MENU_AUTO_START_NANOS as nat, deltas.take(j + 1));
    assert(deltas.take(j + 1).drop_last() =~= deltas.take(j));
}

/// Setting up the gameplay scene starts the session at wave 1 with no score.
pub fn setup_gameplay_session(session: &mut GameSession)
    ensures
        *final(session) == (GameSession { wave: 1, score: 0, ..*old(session) }),
{
    session.wave = 1;
    session.score = 0;
}

} // verus!
