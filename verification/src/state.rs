//! Application states, the session record, and the bookkeeping that runs
//! when a state is entered.
use vstd::prelude::*;

verus! {

/// The screens the application moves through.
#[derive(Clone, Copy, Debug, PartialEq, Eq, Structural, Hash)]
pub enum AppState {
    Loading,
    MainMenu,
    Gameplay,
    Pause,
    GameOver,
}

impl Default for AppState {
    /// The application starts in `Loading`.
    fn default() -> (s: AppState)
        ensures
            s == AppState::Loading,
    {
        AppState::Loading
    }
}

/// What the current session is doing.
#[derive(Clone, Copy, Debug, PartialEq, Eq, Structural, Hash)]
pub enum SessionStatus {
    Idle,
    Loading,
    InMenu,
    Running,
    Paused,
    Complete,
}

impl Default for SessionStatus {
    /// A fresh session is idle.
    fn default() -> (s: SessionStatus)
        ensures
            s == SessionStatus::Idle,
    {
        SessionStatus::Idle
    }
}

/// The running session: wave number, score and status.
#[derive(Clone, Copy, Debug, PartialEq, Eq, Structural)]
pub struct GameSession {
    pub wave: u32,
    pub score: u32,
    pub status: SessionStatus,
}

impl Default for GameSession {
    /// Wave 0, score 0, idle.
    fn default() -> (s: GameSession)
        ensures
            s == (GameSession { wave: 0, score: 0, status: SessionStatus::Idle }),
    {
        GameSession { wave: 0, score: 0, status: SessionStatus::Idle }
    }
}

/// A request to move the application to another state.
#[derive(Clone, Copy, Debug, PartialEq, Eq, Structural)]
pub struct AppStateRequest {
    pub next: AppState,
}

impl AppStateRequest {
    /// A request to move to `next`.
    pub fn new(next: AppState) -> (r: AppStateRequest)
        ensures
            r.next == next,
    {
        AppStateRequest { next }
    }
}

/// The session status that entering `state` records.
pub open spec fn status_on_enter(state: AppState) -> SessionStatus {
    match state {
        AppState::Loading => SessionStatus::Loading,
        AppState::MainMenu => SessionStatus::InMenu,
        AppState::Gameplay => SessionStatus::Running,
        AppState::Pause => SessionStatus::Paused,
        AppState::GameOver => SessionStatus::Complete,
    }
}

/// Each state records its own status on entry, and only entering
/// `GameOver` completes the session.
pub proof fn lemma_entry_status_one_to_one(a: AppState, b: AppState)
    ensures
        status_on_enter(a) == status_on_enter(b) <==> a == b,
        status_on_enter(a) == SessionStatus::Complete <==> a == AppState::GameOver,
        status_on_enter(a) != SessionStatus::Idle,
{
}

/// The state that a frame's requests select: the last one, if any.
pub open spec fn requested_state(requests: Seq<AppStateRequest>) -> Option<AppState> {
    if requests.len() == 0 {
        None
    } else {
        Some(requests.last().next)
    }
}

/// A frame with requests always selects a state, the last one written: a
/// request appended after any others wins, a lone request is applied, and
/// only a frame without requests keeps the state.
pub proof fn lemma_last_request_wins(requests: Seq<AppStateRequest>, r: AppStateRequest)
    ensures
        requested_state(requests.push(r)) == Some(r.next),
        requested_state(seq![r]) == Some(r.next),
        requested_state(requests) is None <==> requests.len() == 0,
        requests.len() > 0 ==> requested_state(requests) == Some(requests[requests.len() - 1].next),
{
}

/// Of all the state requests written during a frame, the last one wins;
/// with no request the state stays as it is (`None`).
pub fn apply_state_requests(requests: &Vec<AppStateRequest>) -> (next: Option<AppState>)
    ensures
        next == requested_state(requests@),
        next is None <==> requests@.len() == 0,
        requests@.len() > 0 ==> next == Some(requests@[requests@.len() - 1].next),
{
    let n = requests.len();
    if n == 0 {
        None
    } else {
        Some(requests[n - 1].next)
    }
}

/// Entering `Loading` marks the session as loading.
pub fn mark_loading_begin(session: &mut GameSession)
    ensures
        *final(session) == (GameSession { status: status_on_enter(AppState::Loading), ..*old(session) }),
{
    session.status = SessionStatus::Loading;
}

/// Entering `MainMenu` marks the session as in the menu.
pub fn mark_menu_begin(session: &mut GameSession)
    ensures
        *final(session) == (GameSession { status: status_on_enter(AppState::MainMenu), ..*old(session) }),
{
    session.status = SessionStatus::InMenu;
}

/// Entering `Gameplay` marks the session as running.
pub fn mark_gameplay_begin(session: &mut GameSession)
    ensures
        *final(session) == (GameSession { status: status_on_enter(AppState::Gameplay), ..*old(session) }),
{
    session.status = SessionStatus::Running;
}

/// Entering `Pause` marks the session as paused.
pub fn mark_pause_begin(session: &mut GameSession)
    ensures
        *final(session) == (GameSession { status: status_on_enter(AppState::Pause), ..*old(session) }),
{
    session.status = SessionStatus::Paused;
}

/// Entering `GameOver` marks the session as complete.
pub fn mark_game_over(session: &mut GameSession)
    ensures
        *final(session) == (GameSession { status: status_on_enter(AppState::GameOver), ..*old(session) }),
{
    session.status = SessionStatus::Complete;
}

} // verus!
