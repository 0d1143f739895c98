use kingshot::aim::{
    integrate_projectile_lifetime, process_pointer_inputs, projectile_lifetime,
    update_aim_reticle, AimCommand, PointerSample, ReticlePose, PROJECTILE_LIFETIME_NANOS,
};
use kingshot::combat::{advance_enemies, resolve_projectile_enemy_collisions, EnemyStep};
use kingshot::input::PointerPhase;
use kingshot::state::{AppState, AppStateRequest, GameSession, SessionStatus};

fn running(score: u32) -> GameSession {
    GameSession { wave: 1, score, status: SessionStatus::Running }
}

#[test]
fn each_projectile_destroys_first_live_enemy() {
    let projectiles = vec![10, 11, 12];
    let enemies = vec![20, 21];
    let hits = vec![vec![true, true], vec![true, false], vec![true, true]];
    let mut session = running(50);
    let (spent, destroyed) =
        resolve_projectile_enemy_collisions(&projectiles, &enemies, &hits, &mut session);
    assert_eq!(spent, vec![10, 12]);
    assert_eq!(destroyed.len(), 2);
    assert!(destroyed.contains(&20) && destroyed.contains(&21));
    assert_eq!(session.score, 250);
    assert_eq!(session.wave, 1);
}

#[test]
fn no_contact_no_change() {
    let mut session = running(0);
    let (spent, destroyed) = resolve_projectile_enemy_collisions(
        &vec![1, 2],
        &vec![3],
        &vec![vec![false], vec![false]],
        &mut session,
    );
    assert!(spent.is_empty());
    assert!(destroyed.is_empty());
    assert_eq!(session.score, 0);
}

#[test]
fn missing_contact_rows_count_as_misses() {
    let mut session = running(0);
    let (spent, destroyed) =
        resolve_projectile_enemy_collisions(&vec![1, 2], &vec![3, 4], &vec![vec![false, true]], &mut session);
    assert_eq!(spent, vec![1]);
    assert!(destroyed.contains(&4) && destroyed.len() == 1);
    assert_eq!(session.score, 100);
}

#[test]
fn score_saturates() {
    let mut session = running(u32::MAX - 150);
    let (spent, _) = resolve_projectile_enemy_collisions(
        &vec![1, 2],
        &vec![3, 4],
        &vec![vec![true, true], vec![true, true]],
        &mut session,
    );
    assert_eq!(spent.len(), 2);
    assert_eq!(session.score, u32::MAX);
}

#[test]
fn breach_requests_game_over_once() {
    let steps = vec![
        EnemyStep { id: 5, reached_core: false },
        EnemyStep { id: 6, reached_core: true },
        EnemyStep { id: 7, reached_core: true },
    ];
    let (gone, request) = advance_enemies(&steps, &running(0));
    assert_eq!(gone, vec![6, 7]);
    assert_eq!(request, Some(AppStateRequest::new(AppState::GameOver)));
}

#[test]
fn completed_session_requests_nothing() {
    let steps = vec![EnemyStep { id: 6, reached_core: true }];
    let session = GameSession { wave: 1, score: 0, status: SessionStatus::Complete };
    let (gone, request) = advance_enemies(&steps, &session);
    assert_eq!(gone, vec![6]);
    assert_eq!(request, None);
    let (gone, request) = advance_enemies(&vec![EnemyStep { id: 1, reached_core: false }], &running(0));
    assert!(gone.is_empty());
    assert_eq!(request, None);
}

fn sample(phase: PointerPhase, ground_hit: bool, can_fire: bool) -> PointerSample {
    PointerSample { phase, ground_hit, can_fire }
}

#[test]
fn pointer_events_become_aim_commands() {
    let samples = vec![
        sample(PointerPhase::Start, true, true),
        sample(PointerPhase::Move, true, true),
        sample(PointerPhase::Move, false, true),
        sample(PointerPhase::Start, true, false),
        sample(PointerPhase::End, true, true),
        sample(PointerPhase::Cancel, false, false),
    ];
    assert_eq!(
        process_pointer_inputs(true, &samples),
        vec![
            AimCommand::Aim { event: 0, fire: true },
            AimCommand::Aim { event: 1, fire: false },
            AimCommand::Aim { event: 3, fire: false },
            AimCommand::Clear,
            AimCommand::Clear,
        ]
    );
}

#[test]
fn unready_scene_clears_aim() {
    let samples = vec![sample(PointerPhase::Start, true, true)];
    assert_eq!(process_pointer_inputs(false, &samples), vec![AimCommand::Clear]);
    assert_eq!(process_pointer_inputs(true, &Vec::new()), Vec::new());
}

#[test]
fn reticle_follows_aim() {
    assert_eq!(update_aim_reticle(false, true), None);
    assert_eq!(update_aim_reticle(true, true), Some(ReticlePose::Shown));
    assert_eq!(update_aim_reticle(true, false), Some(ReticlePose::Hidden));
}

#[test]
fn projectile_expires_after_lifetime() {
    let mut life = projectile_lifetime();
    assert_eq!(life.duration_nanos(), PROJECTILE_LIFETIME_NANOS);
    assert_eq!(PROJECTILE_LIFETIME_NANOS, 1_200_000_048);
    assert!(!integrate_projectile_lifetime(&mut life, 1_000_000_000));
    assert!(!integrate_projectile_lifetime(&mut life, 200_000_047));
    assert!(integrate_projectile_lifetime(&mut life, 1));
    assert!(integrate_projectile_lifetime(&mut life, 16_000_000));
}

#[test]
fn projectile_lifetime_matches_f32_seconds() {
    let from_f32 = std::time::Duration::from_secs_f32(1.2).as_nanos();
    assert_eq!(u128::from(PROJECTILE_LIFETIME_NANOS), from_f32);
}

#[test]
fn game_over_is_requested_only_once() {
    let mut session = running(300);
    let steps = vec![EnemyStep { id: 9, reached_core: true }];
    let (_, first) = advance_enemies(&steps, &session);
    assert_eq!(first, Some(AppStateRequest::new(AppState::GameOver)));
    kingshot::state::mark_game_over(&mut session);
    let (gone, second) = advance_enemies(&steps, &session);
    assert_eq!(gone, vec![9]);
    assert_eq!(second, None);
}
