//! Resolution of projectile hits against enemies, and enemies reaching the
//! hero's core.
use crate::state::{status_on_enter, AppState, AppStateRequest, GameSession, SessionStatus};
use std::collections::HashSet;
use vstd::prelude::*;

verus! {

broadcast use vstd::std_specs::hash::group_hash_axioms;

/// Points awarded for each enemy a projectile destroys.
pub const HIT_SCORE: u32 = 100;

/// Whether projectile `i` touches enemy `j` this frame (a missing entry
/// counts as no contact).
pub open spec fn touches(hits: Seq<Seq<bool>>, i: int, j: int) -> bool {
    0 <= i < hits.len() && 0 <= j < hits[i].len() && hits[i][j]
}

/// The first enemy index at or after `j`, in order, that projectile `i`
/// touches and that is not already destroyed (its id is not in `taken`).
pub open spec fn first_hit(
    hits: Seq<Seq<bool>>,
    enemies: Seq<u64>,
    i: int,
    taken: Set<u64>,
    j: int,
) -> Option<int>
    decreases enemies.len() - j,
{
    if j < 0 || j >= enemies.len() {
        None
    } else if !taken.contains(enemies[j]) && touches(hits, i, j) {
        Some(j)
    } else {
        first_hit(hits, enemies, i, taken, j + 1)
    }
}

/// The outcome after the first `n` projectiles have been resolved in order:
/// the indices of the projectiles that hit, and the ids of the enemies they
/// destroyed. Each projectile destroys the first live enemy it touches.
pub open spec fn resolved(hits: Seq<Seq<bool>>, enemies: Seq<u64>, n: int) -> (Seq<int>, Set<u64>)
    decreases n,
{
    if n <= 0 {
        (Seq::empty(), Set::empty())
    } else {
        let (spent, taken) = resolved(hits, enemies, n - 1);
        match first_hit(hits, enemies, n - 1, taken, 0) {
            Some(j) => (spent.push(n - 1), taken.insert(enemies[j])),
            None => (spent, taken),
        }
    }
}

/// A score raised by `HIT_SCORE` for each of `hits` hits, saturating at
/// `u32::MAX`.
pub open spec fn score_after_hits(score: u32, hits: nat) -> u32 {
    if score + HIT_SCORE * hits > u32::MAX {
        u32::MAX
    } else {
        (score + HIT_SCORE * hits) as u32
    }
}

/// The score never falls: each further hit adds `HIT_SCORE` until the score
/// saturates at `u32::MAX`.
pub proof fn lemma_score_rises_per_hit(score: u32, hits: nat)
    ensures
        score_after_hits(score, hits) >= score,
        score_after_hits(score, 0) == score,
        score_after_hits(score, hits + 1) == (if score_after_hits(score, hits) + HIT_SCORE
            > u32::MAX {
            u32::MAX
        } else {
            (score_after_hits(score, hits) + HIT_SCORE) as u32
        }),
{
    assert(HIT_SCORE * (hits + 1) == HIT_SCORE * hits + HIT_SCORE) by (nonlinear_arith);
    assert(HIT_SCORE * hits >= 0) by (nonlinear_arith);
}

proof fn lemma_first_hit_skip(
    hits: Seq<Seq<bool>>,
    enemies: Seq<u64>,
    i: int,
    taken: Set<u64>,
    j: int,
)
    requires
        0 <= j < enemies.len(),
        !(!taken.contains(enemies[j]) && touches(hits, i, j)),
    ensures
        first_hit(hits, enemies, i, taken, j) == first_hit(hits, enemies, i, taken, j + 1),
{
}

/// The enemy a projectile destroys is the first one, in order, that it
/// touches and that is still alive: it is touched and alive, and every
/// enemy before it is untouched or already destroyed; with no such enemy,
/// every enemy from `j` on is untouched or already destroyed.
pub proof fn lemma_first_hit_is_hit(
    hits: Seq<Seq<bool>>,
    enemies: Seq<u64>,
    i: int,
    taken: Set<u64>,
    j: int,
)
    requires
        0 <= j,
    ensures
        first_hit(hits, enemies, i, taken, j) matches Some(k) ==> j <= k < enemies.len()
            && !taken.contains(enemies[k]) && touches(hits, i, k),
        first_hit(hits, enemies, i, taken, j) matches Some(k) ==> forall|m: int|
            j <= m < k ==> taken.contains(enemies[m]) || !#[trigger] touches(hits, i, m),
        first_hit(hits, enemies, i, taken, j) is None ==> forall|m: int|
            j <= m < enemies.len() ==> taken.contains(enemies[m]) || !#[trigger] touches(
                hits,
                i,
                m,
            ),
    decreases enemies.len() - j,
{
    if j < enemies.len() && !(!taken.contains(enemies[j]) && touches(hits, i, j)) {
        lemma_first_hit_is_hit(hits, enemies, i, taken, j + 1);
    }
}

/// Resolution pairs projectiles and enemies one to one: the projectiles
/// spent are distinct, taken in order from the first `n`; exactly as many
/// enemies are destroyed as projectiles spent; and no contact is missed: a
/// projectile that touches an enemy is spent, or that enemy was destroyed.
pub proof fn lemma_resolution_pairs_one_to_one(hits: Seq<Seq<bool>>, enemies: Seq<u64>, n: int)
    requires
        0 <= n,
    ensures
        ({
            let (spent, taken) = resolved(hits, enemies, n);
            &&& taken.finite()
            &&& taken.len() == spent.len()
            &&& forall|a: int, b: int| 0 <= a < b < spent.len() ==> spent[a] < spent[b]
            &&& forall|a: int| 0 <= a < spent.len() ==> 0 <= #[trigger] spent[a] < n
            &&& forall|i: int, j: int|
                0 <= i < n && 0 <= j < enemies.len() && #[trigger] touches(hits, i, j)
                    ==> spent.contains(i) || taken.contains(enemies[j])
        }),
    decreases n,
{
    if n > 0 {
        lemma_resolution_pairs_one_to_one(hits, enemies, n - 1);
        let (spent0, taken0) = resolved(hits, enemies, n - 1);
        let (spent, taken) = resolved(hits, enemies, n);
        lemma_first_hit_is_hit(hits, enemies, n - 1, taken0, 0);
        match first_hit(hits, enemies, n - 1, taken0, 0) {
            Some(k) => {
                assert(spent == spent0.push(n - 1));
                assert(spent.contains(n - 1)) by {
                    assert(spent[spent0.len() as int] == n - 1);
                }
                assert forall|i: int, j: int|
                    0 <= i < n && 0 <= j < enemies.len() && #[trigger] touches(hits, i, j)
                        implies spent.contains(i) || taken.contains(enemies[j]) by {
                    if i < n - 1 {
                        if spent0.contains(i) {
                            let a = choose|a: int| 0 <= a < spent0.len() && spent0[a] == i;
                            assert(spent[a] == i);
                        }
                    }
                }
            },
            None => {
                assert forall|i: int, j: int|
                    0 <= i < n && 0 <= j < enemies.len() && #[trigger] touches(hits, i, j)
                        implies spent.contains(i) || taken.contains(enemies[j]) by {
                    if i == n - 1 {
                        lemma_no_first_hit(hits, enemies, n - 1, taken0, 0, j);
                    }
                }
            },
        }
    }
}

proof fn lemma_no_first_hit(
    hits: Seq<Seq<bool>>,
    enemies: Seq<u64>,
    i: int,
    taken: Set<u64>,
    j: int,
    k: int,
)
    requires
        0 <= j <= k < enemies.len(),
        first_hit(hits, enemies, i, taken, j) is None,
        touches(hits, i, k),
    ensures
        taken.contains(enemies[k]),
    decreases k - j,
{
    if j < k {
        if !(!taken.contains(enemies[j]) && touches(hits, i, j)) {
            lemma_no_first_hit(hits, enemies, i, taken, j + 1, k);
        }
    }
}

/// Resolves this frame's contacts. `projectiles` and `enemies` are entity
/// ids, `hits[i][j]` says whether projectile `i` touches enemy `j`. Each
/// projectile, in order, destroys the first enemy it touches that no earlier
/// projectile destroyed, and is itself removed; the score rises by
/// `HIT_SCORE` per destroyed enemy, saturating. Returns the projectiles to
/// remove, in order, and the set of enemies to remove.
pub fn resolve_projectile_enemy_collisions(
    projectiles: &Vec<u64>,
    enemies: &Vec<u64>,
    hits: &Vec<Vec<bool>>,
    session: &mut GameSession,
) -> (removed: (Vec<u64>, HashSet<u64>))
    ensures
        ({
            let (spent, taken) = resolved(hits@.map_values(|r: Vec<bool>| r@), enemies@, projectiles@.len() as int);
            &&& removed.0@ == spent.map_values(|i: int| projectiles@[i])
            &&& removed.1@ == taken
            &&& *final(session) == (GameSession {
                score: score_after_hits(old(session).score, spent.len()),
                ..*old(session)
            })
        }),
{
    let ghost h = hits@.map_values(|r: Vec<bool>| r@);
    let mut projectiles_to_remove: Vec<u64> = Vec::new();
    let mut enemies_to_remove: HashSet<u64> = HashSet::new();
    let ghost score0 = session.score;
    let np = projectiles.len();
    let ne = enemies.len();
    let mut i: usize = 0;
    while i < np
        invariant
            np == projectiles@.len(),
            ne == enemies@.len(),
            h == hits@.map_values(|r: Vec<bool>| r@),
            i <= np,
            ({
                let (spent, taken) = resolved(h, enemies@, i as int);
                &&& projectiles_to_remove@ == spent.map_values(|k: int| projectiles@[k])
                &&& enemies_to_remove@ == taken
                &&& session.score == score_after_hits(score0, spent.len())
            }),
            session.wave == old(session).wave,
            session.status == old(session).status,
            score0 == old(session).score,
        decreases np - i,
    {
        let ghost (spent, taken) = resolved(h, enemies@, i as int);
        let mut j: usize = 0;
        let mut found: bool = false;
        while j < ne
            invariant_except_break
                ne == enemies@.len(),
                h == hits@.map_values(|r: Vec<bool>| r@),
                j <= ne,
                !found,
                enemies_to_remove@ == taken,
                first_hit(h, enemies@, i as int, taken, 0) == first_hit(h, enemies@, i as int, taken, j as int),
            ensures
                found ==> j < ne && first_hit(h, enemies@, i as int, taken, 0) == Some(j as int),
                !found ==> first_hit(h, enemies@, i as int, taken, 0) == None::<int>,
            decreases ne - j,
        {
            let enemy = enemies[j];
            let touching = i < hits.len() && j < hits[i].len() && hits[i][j];
            proof {
                if i < hits.len() {
                    assert(h[i as int] == hits@[i as int]@);
                }
                assert(touching == touches(h, i as int, j as int));
            }
            if !enemies_to_remove.contains(&enemy) && touching {
                found = true;
                break;
            }
            proof {
                lemma_first_hit_skip(h, enemies@, i as int, taken, j as int);
            }
            j = j + 1;
        }
        if found {
            projectiles_to_remove.push(projectiles[i]);
            enemies_to_remove.insert(enemies[j]);
            session.score = session.score.saturating_add(HIT_SCORE);
            proof {
                assert(projectiles_to_remove@ =~= spent.push(i as int).map_values(|k: int| projectiles@[k]));
            }
        }
        i = i + 1;
    }
    (projectiles_to_remove, enemies_to_remove)
}

/// One enemy after this frame's movement: its entity id and whether it has
/// come within reach of the hero's core.
#[derive(Clone, Copy, Debug, PartialEq, Eq, Structural)]
pub struct EnemyStep {
    pub id: u64,
    pub reached_core: bool,
}

/// The ids of the enemies that reached the core, in order.
pub open spec fn reached_ids(steps: Seq<EnemyStep>) -> Seq<u64>
    decreases steps.len(),
{
    if steps.len() == 0 {
        Seq::empty()
    } else {
        let rest = reached_ids(steps.drop_last());
        if steps.last().reached_core {
            rest.push(steps.last().id)
        } else {
            rest
        }
    }
}

/// The request that enemies reaching the core raise: one move to
/// `GameOver`, unless no enemy reached the core or the session is already
/// complete.
pub open spec fn breach_request(steps: Seq<EnemyStep>, status: SessionStatus) -> Option<AppStateRequest> {
    if (exists|k: int| 0 <= k < steps.len() && #[trigger] steps[k].reached_core) && status
        != SessionStatus::Complete {
        Some(AppStateRequest { next: AppState::GameOver })
    } else {
        None
    }
}

/// Once the game is over, breaches raise no further request: the status
/// that entering `GameOver` records stops enemies from requesting it again,
/// while in any other status a breach always requests it.
pub proof fn lemma_game_over_requested_once(steps: Seq<EnemyStep>, state: AppState)
    ensures
        breach_request(steps, status_on_enter(AppState::GameOver)) is None,
        state != AppState::GameOver && (exists|k: int| 0 <= k < steps.len() && #[trigger] steps[k].reached_core)
            ==> breach_request(steps, status_on_enter(state)) == Some(
            AppStateRequest { next: AppState::GameOver },
        ),
{
}

/// Whether some enemy step with id `id` reached the core.
pub open spec fn core_reached_by(steps: Seq<EnemyStep>, id: u64) -> bool {
    exists|k: int| 0 <= k < steps.len() && #[trigger] steps[k].reached_core && steps[k].id == id
}

/// A breach needs an enemy at the core: a request is raised only when some
/// enemy step reached the core (so an empty field raises none, whatever the
/// status); every removed enemy is one that reached the core; and the
/// request, when raised, is for `GameOver`.
pub proof fn lemma_breach_needs_enemy_at_core(steps: Seq<EnemyStep>, status: SessionStatus)
    ensures
        breach_request(steps, status) is Some ==> exists|k: int|
            0 <= k < steps.len() && #[trigger] steps[k].reached_core,
        breach_request(Seq::<EnemyStep>::empty(), status) is None,
        breach_request(steps, status) matches Some(r) ==> r.next == AppState::GameOver,
        forall|a: int|
            0 <= a < reached_ids(steps).len() ==> core_reached_by(steps, #[trigger] reached_ids(steps)[a]),
        reached_ids(steps).len() <= steps.len(),
    decreases steps.len(),
{
    if steps.len() > 0 {
        let rest = steps.drop_last();
        lemma_breach_needs_enemy_at_core(rest, status);
        let ids = reached_ids(steps);
        assert forall|a: int| 0 <= a < ids.len() implies core_reached_by(steps, #[trigger] ids[a]) by {
            if a < reached_ids(rest).len() {
                assert(ids[a] == reached_ids(rest)[a]);
                assert(core_reached_by(rest, reached_ids(rest)[a]));
                let k = choose|k: int|
                    0 <= k < rest.len() && #[trigger] rest[k].reached_core && rest[k].id
                        == reached_ids(rest)[a];
                assert(steps[k] == rest[k]);
                assert(steps[k].reached_core);
            } else {
                let k = steps.len() - 1;
                assert(steps.last().reached_core);
                assert(ids == reached_ids(rest).push(steps.last().id));
                assert(ids[a] == steps[k].id);
                assert(steps[k].reached_core);
            }
        }
    }
}

/// Enemies that reached the hero's core are removed, in order; the first of
/// them requests `GameOver` once, unless the session is already complete.
/// Returns the enemies to remove and the request, if any.
pub fn advance_enemies(steps: &Vec<EnemyStep>, session: &GameSession) -> (r: (
    Vec<u64>,
    Option<AppStateRequest>,
))
    ensures
        r.0@ == reached_ids(steps@),
        r.1 == breach_request(steps@, session.status),
        r.1 is Some ==> exists|k: int| 0 <= k < steps@.len() && #[trigger] steps@[k].reached_core,
        forall|a: int| 0 <= a < r.0@.len() ==> core_reached_by(steps@, #[trigger] r.0@[a]),
{
    let mut despawned: Vec<u64> = Vec::new();
    let mut request: Option<AppStateRequest> = None;
    let mut triggered_game_over: bool = false;
    let n = steps.len();
    let mut i: usize = 0;
    while i < n
        invariant
            n == steps@.len(),
            i <= n,
            despawned@ == reached_ids(steps@.take(i as int)),
            triggered_game_over == (request is Some),
            request is Some ==> request == Some(AppStateRequest { next: AppState::GameOver }),
            request is Some <==> ((exists|k: int| 0 <= k < i && #[trigger] steps@[k].reached_core)
                && session.status != SessionStatus::Complete),
        decreases n - i,
    {
        let step = steps[i];
        proof {
            assert(steps@.take(i + 1).drop_last() =~= steps@.take(i as int));
        }
        if step.reached_core {
            despawned.push(step.id);
            if !triggered_game_over && session.status != SessionStatus::Complete {
                request = Some(AppStateRequest::new(AppState::GameOver));
                triggered_game_over = true;
            }
        }
        i = i + 1;
    }
    proof {
        assert(steps@.take(n as int) =~= steps@);
        lemma_breach_needs_enemy_at_core(steps@, session.status);
    }
    (despawned, request)
}

} // verus!
