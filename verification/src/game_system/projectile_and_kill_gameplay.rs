//! The per-frame projectile systems: movement with lifetime control, and
//! collision resolution with its score and health mutations.
//!
//! Collisions are axis-aligned bounding-box overlaps, with each entity's
//! position as box center and its hitbox size as full extent.  Projectiles
//! are processed in store order; a projectile scores at most one hit: the
//! first matching target wins and the projectile is removed at once.

use vstd::prelude::*;
use crate::game_entity::MoveableSprite;
use crate::game_entity::MAX_TICK_MS;
use crate::game_entity::ennemies::DEATH_POINT_COEF;
use crate::game_entity::ennemies::Ennemy;
use crate::game_entity::ennemies::MAX_POINTS_PER_HITS;
use crate::game_entity::player::Player;
use crate::game_entity::projectiles::Projectile;
use crate::game_system::is_next_movement_out_of_game_area;
use crate::game_system::next_movement_out_of_game_area;
use crate::game_system::scoreboard::ScoreAndInfo;
use crate::math_and_generator::abs_val;

verus! {

/// Whether two axis-aligned boxes, given by their centers and full extents,
/// overlap on both axes.
pub open spec fn boxes_overlap(
    position_a: (i64, i64),
    hitbox_a: (i64, i64),
    position_b: (i64, i64),
    hitbox_b: (i64, i64),
) -> bool {
    &&& 2 * abs_val(position_a.0 - position_b.0) < hitbox_a.0 + hitbox_b.0
    &&& 2 * abs_val(position_a.1 - position_b.1) < hitbox_a.1 + hitbox_b.1
}

/// Whether a projectile's box overlaps the box of a moveable entity.
pub open spec fn projectile_hits_sprite(p: Projectile, s: MoveableSprite) -> bool {
    boxes_overlap(
        s.current_position,
        s.hitbox_size,
        p.sprite_data.current_position,
        p.sprite_data.hitbox_size,
    )
}

/// Retrieve the position and the hitbox from a moveable entity, as the
/// tuple `((position_x, position_y), (hitbox_x, hitbox_y))`.
pub fn get_position_and_hitboxes(entity: &MoveableSprite) -> (r: ((i64, i64), (i64, i64)))
    ensures
        r == (entity.current_position, entity.hitbox_size),
{
    (entity.get_position(), entity.get_hitbox_size())
}

/// Return true if the two entities collide: their position-centered hitbox
/// boxes overlap.
pub fn is_entities_collides(first_entity: &MoveableSprite, second_entity: &MoveableSprite) -> (r:
    bool)
    requires
        first_entity.wf(),
        second_entity.wf(),
    ensures
        r == boxes_overlap(
            first_entity.current_position,
            first_entity.hitbox_size,
            second_entity.current_position,
            second_entity.hitbox_size,
        ),
{
    let (position_1, hitbox_1) = get_position_and_hitboxes(first_entity);
    let (position_2, hitbox_2) = get_position_and_hitboxes(second_entity);

    let diff_x = position_1.0 - position_2.0;
    let diff_y = position_1.1 - position_2.1;
    let abs_diff_x = if diff_x < 0 { -diff_x } else { diff_x };
    let abs_diff_y = if diff_y < 0 { -diff_y } else { diff_y };

    2 * abs_diff_x < hitbox_1.0 + hitbox_2.0 && 2 * abs_diff_y < hitbox_1.1 + hitbox_2.1
}

/// Every enemy of a sequence is well formed.
pub open spec fn ennemies_wf(s: Seq<Ennemy>) -> bool {
    forall|i: int| 0 <= i < s.len() ==> (#[trigger] s[i]).wf()
}

/// The smallest index of an enemy the projectile overlaps, or `-1` when it
/// overlaps none.
pub open spec fn find_hit_index(s: Seq<Ennemy>, p: Projectile) -> int
    decreases s.len(),
{
    if s.len() == 0 {
        -1
    } else if projectile_hits_sprite(p, s[0].sprite_data) {
        0
    } else {
        let rest = find_hit_index(s.drop_first(), p);
        if rest < 0 {
            -1
        } else {
            rest + 1
        }
    }
}

/// `find_hit_index` really is the smallest hit index: `-1` exactly when no
/// enemy is hit, and otherwise an in-range index whose enemy is hit while
/// all earlier ones are missed.
pub proof fn lemma_find_hit_index_spec(s: Seq<Ennemy>, p: Projectile)
    ensures
        find_hit_index(s, p) == -1 <==> (forall|j: int|
            0 <= j < s.len() ==> !projectile_hits_sprite(p, (#[trigger] s[j]).sprite_data)),
        find_hit_index(s, p) != -1 ==> 0 <= find_hit_index(s, p) < s.len(),
        find_hit_index(s, p) != -1 ==> projectile_hits_sprite(
            p,
            s[find_hit_index(s, p)].sprite_data,
        ),
        find_hit_index(s, p) != -1 ==> (forall|j: int|
            0 <= j < find_hit_index(s, p) ==> !projectile_hits_sprite(
                p,
                (#[trigger] s[j]).sprite_data,
            )),
    decreases s.len(),
{
    if s.len() == 0 {
    } else if projectile_hits_sprite(p, s[0].sprite_data) {
    } else {
        let rest = s.drop_first();
        lemma_find_hit_index_spec(rest, p);
        assert forall|j: int| 1 <= j < s.len() implies s[j] == #[trigger] rest[j - 1] by {}
        let r = find_hit_index(rest, p);
        if r < 0 {
            assert(find_hit_index(s, p) == -1);
            assert forall|j: int|
                0 <= j < s.len() implies !projectile_hits_sprite(
                p,
                (#[trigger] s[j]).sprite_data,
            ) by {
                if j >= 1 {
                    assert(s[j] == rest[j - 1]);
                }
            }
        } else {
            assert(find_hit_index(s, p) == r + 1);
            assert(s[r + 1] == rest[r]);
            assert forall|j: int|
                0 <= j < r + 1 implies !projectile_hits_sprite(
                p,
                (#[trigger] s[j]).sprite_data,
            ) by {
                if j >= 1 {
                    assert(s[j] == rest[j - 1]);
                }
            }
        }
        if forall|j: int|
            0 <= j < s.len() ==> !projectile_hits_sprite(p, (#[trigger] s[j]).sprite_data) {
            assert forall|j: int|
                0 <= j < rest.len() implies !projectile_hits_sprite(
                p,
                (#[trigger] rest[j]).sprite_data,
            ) by {
                assert(rest[j] == s[j + 1]);
            }
            assert(r == -1);
        }
    }
}

/// The enemy state after taking one hit.
pub open spec fn reduced_ennemy(e: Ennemy) -> Ennemy {
    Ennemy { health: (e.health - 1) as i32, ..e }
}

/// The enemies left after resolving one projectile against them: the first
/// overlapped enemy loses one health and is removed if that kills it; with
/// no overlap the enemies are unchanged.
pub open spec fn resolve_ennemy_hit_ennemies(s: Seq<Ennemy>, p: Projectile) -> Seq<Ennemy> {
    let k = find_hit_index(s, p);
    if k < 0 {
        s
    } else {
        let hit = reduced_ennemy(s[k]);
        if hit.health < 1 {
            s.remove(k)
        } else {
            s.update(k, hit)
        }
    }
}

/// The score gained by resolving one projectile against the enemies: the
/// per-hit value of the first overlapped enemy, plus its death bonus if the
/// hit kills it.
pub open spec fn resolve_ennemy_hit_gain(s: Seq<Ennemy>, p: Projectile) -> int {
    let k = find_hit_index(s, p);
    if k < 0 {
        0
    } else {
        let points = s[k].points_per_hits as int;
        if reduced_ennemy(s[k]).health < 1 {
            points + points * DEATH_POINT_COEF
        } else {
            points
        }
    }
}

/// Whether resolving one projectile against the enemies scores a hit.
pub open spec fn resolve_ennemy_hit_found(s: Seq<Ennemy>, p: Projectile) -> bool {
    find_hit_index(s, p) >= 0
}

/// If the enemy is dead, award its death bonus to the score and report that
/// it must be removed from play.
pub fn check_and_treat_ennemy_health(ennemy: &Ennemy, score: &mut ScoreAndInfo) -> (dead: bool)
    requires
        ennemy.points_per_hits <= MAX_POINTS_PER_HITS,
        old(score).score + MAX_POINTS_PER_HITS * DEATH_POINT_COEF <= u64::MAX,
    ensures
        dead == (ennemy.health < 1),
        dead ==> *final(score) == (ScoreAndInfo {
            score: (old(score).score + ennemy.points_per_hits * DEATH_POINT_COEF) as u64,
            ..*old(score)
        }),
        !dead ==> *final(score) == *old(score),
{
    if ennemy.is_dead() {
        score.add_to_score(ennemy.get_point_value_on_death());
        return true;
    }
    false
}

/// Resolve one player-fired projectile against the enemies: the first
/// overlapped enemy loses one health and its per-hit value is scored; if
/// the hit kills it, its death bonus is scored too and it is removed.
/// Returns whether a hit happened (and so whether the projectile is spent).
pub fn check_collision_with_ennemy(
    ennemies: &mut Vec<Ennemy>,
    projectile: &Projectile,
    score: &mut ScoreAndInfo,
) -> (hit: bool)
    requires
        ennemies_wf(old(ennemies)@),
        projectile.wf(),
        old(score).score + MAX_POINTS_PER_HITS + MAX_POINTS_PER_HITS * DEATH_POINT_COEF
            <= u64::MAX,
    ensures
        hit == resolve_ennemy_hit_found(old(ennemies)@, *projectile),
        final(ennemies)@ == resolve_ennemy_hit_ennemies(old(ennemies)@, *projectile),
        *final(score) == (ScoreAndInfo {
            score: (old(score).score + resolve_ennemy_hit_gain(old(ennemies)@, *projectile)) as u64,
            ..*old(score)
        }),
        ennemies_wf(final(ennemies)@),
        0 <= resolve_ennemy_hit_gain(old(ennemies)@, *projectile) <= MAX_POINTS_PER_HITS
            + MAX_POINTS_PER_HITS * DEATH_POINT_COEF,
{
    let ghost s = ennemies@;
    let ghost initial_score = *score;
    proof {
        lemma_find_hit_index_spec(s, *projectile);
    }
    let ghost k = find_hit_index(s, *projectile);

    let mut i: usize = 0;
    while i < ennemies.len()
        invariant
            s == old(ennemies)@,
            initial_score == *old(score),
            ennemies@ == s,
            ennemies_wf(s),
            projectile.wf(),
            *score == initial_score,
            initial_score.score + MAX_POINTS_PER_HITS + MAX_POINTS_PER_HITS * DEATH_POINT_COEF
                <= u64::MAX,
            0 <= i <= s.len(),
            forall|j: int|
                0 <= j < i ==> !projectile_hits_sprite(
                    *projectile,
                    (#[trigger] s[j]).sprite_data,
                ),
            k == find_hit_index(s, *projectile),
            k == -1 <==> (forall|j: int|
                0 <= j < s.len() ==> !projectile_hits_sprite(
                    *projectile,
                    (#[trigger] s[j]).sprite_data,
                )),
            k != -1 ==> 0 <= k < s.len() && projectile_hits_sprite(
                *projectile,
                s[k].sprite_data,
            ) && (forall|j: int|
                0 <= j < k ==> !projectile_hits_sprite(*projectile, (#[trigger] s[j]).sprite_data)),
        decreases s.len() - i,
    {
        let hits = is_entities_collides(
            ennemies[i].get_moveable_interface(),
            projectile.get_moveable_interface(),
        );
        if hits {
            proof {
                assert(k == i);
            }
            let mut hit_ennemy = ennemies.remove(i);
            hit_ennemy.reduce_health();
            score.add_to_score(hit_ennemy.get_point_value_per_hits());
            let dead = check_and_treat_ennemy_health(&hit_ennemy, score);
            if !dead {
                ennemies.insert(i, hit_ennemy);
                proof {
                    assert(ennemies@ =~= s.update(k, reduced_ennemy(s[k])));
                }
            }
            return true;
        }
        i = i + 1;
    }
    false
}

/// If the projectile comes from an enemy and overlaps the player, remove
/// one player health and report that the projectile is spent.
pub fn check_collision_with_player(
    player: &Player,
    projectile: &Projectile,
    score: &mut ScoreAndInfo,
) -> (hit: bool)
    requires
        player.wf(),
        projectile.wf(),
    ensures
        hit == projectile_hits_sprite(*projectile, player.sprite_data),
        hit ==> *final(score) == old(score).remove_health_spec(1),
        !hit ==> *final(score) == *old(score),
{
    let hits = is_entities_collides(
        player.get_moveable_interface(),
        projectile.get_moveable_interface(),
    );
    if hits {
        score.remove_health(1);
        return true;
    }
    false
}

/// If the player health is exhausted the session is over and the player
/// must leave play.
pub fn check_and_treat_player_health(score: &ScoreAndInfo) -> (gameover: bool)
    ensures
        gameover == (score.health == 0),
{
    score.is_gameover()
}

/// Every projectile of a sequence is well formed.
pub open spec fn projectiles_wf(s: Seq<Projectile>) -> bool {
    forall|i: int| 0 <= i < s.len() ==> (#[trigger] s[i]).wf()
}

/// A projectile after one movement step along its own direction.
pub open spec fn moved_projectile(p: Projectile, elapsed_ms: int) -> Projectile {
    Projectile {
        sprite_data: p.sprite_data.move_spec(elapsed_ms, p.sprite_data.direction),
        ..p
    }
}

/// Whether a projectile is done: it travelled beyond its distance limit or
/// its next movement would leave the playfield.
pub open spec fn projectile_expired(p: Projectile) -> bool {
    p.out_of_distance() || next_movement_out_of_game_area(
        p.sprite_data.current_position,
        p.sprite_data.direction,
    )
}

/// The projectiles left in flight after one movement step: each projectile
/// moves along its own direction, and the ones that are done are removed,
/// keeping the order of the rest.
pub open spec fn surviving_projectiles(ps: Seq<Projectile>, elapsed_ms: int) -> Seq<Projectile>
    decreases ps.len(),
{
    if ps.len() == 0 {
        Seq::empty()
    } else {
        let prev = surviving_projectiles(ps.drop_last(), elapsed_ms);
        let moved = moved_projectile(ps.last(), elapsed_ms);
        if projectile_expired(moved) {
            prev
        } else {
            prev.push(moved)
        }
    }
}

/// A movement step never adds projectiles: at most as many survive as
/// flew in.
pub proof fn lemma_surviving_projectiles_len(ps: Seq<Projectile>, elapsed_ms: int)
    ensures
        surviving_projectiles(ps, elapsed_ms).len() <= ps.len(),
    decreases ps.len(),
{
    if ps.len() > 0 {
        lemma_surviving_projectiles_len(ps.drop_last(), elapsed_ms);
    }
}

/// Move every projectile along its own direction and remove the ones that
/// are done: beyond their distance limit or about to leave the playfield.
pub fn projectile_movement_system(projectiles: &mut Vec<Projectile>, elapsed_ms: u32)
    requires
        projectiles_wf(old(projectiles)@),
        elapsed_ms <= MAX_TICK_MS,
    ensures
        final(projectiles)@ == surviving_projectiles(old(projectiles)@, elapsed_ms as int),
        projectiles_wf(final(projectiles)@),
{
    let ghost ps = projectiles@;
    let total = projectiles.len();
    let mut kept: Vec<Projectile> = Vec::new();
    let mut i: usize = 0;
    while projectiles.len() > 0
        invariant
            ps == old(projectiles)@,
            ps.len() == total,
            projectiles_wf(ps),
            elapsed_ms <= MAX_TICK_MS,
            i + projectiles@.len() == ps.len(),
            projectiles@ == ps.subrange(i as int, ps.len() as int),
            kept@ == surviving_projectiles(ps.subrange(0, i as int), elapsed_ms as int),
            projectiles_wf(kept@),
        decreases projectiles@.len(),
    {
        let mut projectile = projectiles.remove(0);
        proof {
            assert(projectile == ps[i as int]);
            assert(projectiles@ =~= ps.subrange(i + 1, ps.len() as int));
        }
        let direction_of_fire = projectile.sprite_data.get_direction();
        projectile.sprite_data.move_sprite(elapsed_ms, direction_of_fire);

        let done = projectile.is_out_of_distance() || is_next_movement_out_of_game_area(
            projectile.sprite_data.get_position(),
            projectile.sprite_data.get_direction(),
        );
        proof {
            assert(projectile == moved_projectile(ps[i as int], elapsed_ms as int));
            assert(done == projectile_expired(projectile));
            assert(ps.subrange(0, i + 1).drop_last() =~= ps.subrange(0, i as int));
            assert(ps.subrange(0, i + 1).last() == ps[i as int]);
        }
        if !done {
            kept.push(projectile);
        }
        i = i + 1;
    }
    proof {
        assert(ps.subrange(0, ps.len() as int) =~= ps);
    }
    *projectiles = kept;
}

/// The outcome of resolving a frame's projectiles in store order against
/// the player and the enemies: the projectiles still in play, the enemies
/// still in play, the score gained, and the number of hits the player took.
pub open spec fn resolve_tick(
    player: MoveableSprite,
    ps: Seq<Projectile>,
    enemies: Seq<Ennemy>,
) -> (Seq<Projectile>, Seq<Ennemy>, int, int)
    decreases ps.len(),
{
    if ps.len() == 0 {
        (Seq::<Projectile>::empty(), enemies, 0int, 0int)
    } else {
        let prev = resolve_tick(player, ps.drop_last(), enemies);
        let p = ps.last();
        if p.is_from_ennemy {
            if projectile_hits_sprite(p, player) {
                (prev.0, prev.1, prev.2, prev.3 + 1)
            } else {
                (prev.0.push(p), prev.1, prev.2, prev.3)
            }
        } else {
            if resolve_ennemy_hit_found(prev.1, p) {
                (
                    prev.0,
                    resolve_ennemy_hit_ennemies(prev.1, p),
                    prev.2 + resolve_ennemy_hit_gain(prev.1, p),
                    prev.3,
                )
            } else {
                (prev.0.push(p), prev.1, prev.2, prev.3)
            }
        }
    }
}

/// Resolve every projectile in store order: an enemy projectile that
/// overlaps the player removes one player health; a player projectile is
/// resolved against the enemies, scoring per hit and per kill.  A
/// projectile is removed on its first hit, so it scores at most once.
/// Afterwards the difficulty timer advances by the elapsed time.
pub fn projectile_collision_and_score_system(
    projectiles: &mut Vec<Projectile>,
    ennemies: &mut Vec<Ennemy>,
    player: &Player,
    score: &mut ScoreAndInfo,
    elapsed_ms: u64,
)
    requires
        player.wf(),
        projectiles_wf(old(projectiles)@),
        ennemies_wf(old(ennemies)@),
        old(score).wf(),
        elapsed_ms <= crate::game_system::scoreboard::MAX_DIFFICULTY_TICK_MS,
        old(score).score + (MAX_POINTS_PER_HITS + MAX_POINTS_PER_HITS * DEATH_POINT_COEF)
            * old(projectiles)@.len() <= u64::MAX,
    ensures
        ({
            let rt = resolve_tick(player.sprite_data, old(projectiles)@, old(ennemies)@);
            &&& final(projectiles)@ == rt.0
            &&& final(ennemies)@ == rt.1
            &&& *final(score) == (ScoreAndInfo {
                score: (old(score).score + rt.2) as u64,
                health: (if rt.3 >= old(score).health {
                    0int
                } else {
                    old(score).health - rt.3
                }) as u32,
                ..*old(score)
            }).update_percent_spec(elapsed_ms as int)
            &&& ennemies_wf(final(ennemies)@)
            &&& projectiles_wf(final(projectiles)@)
        }),
{
    let ghost ps = projectiles@;
    let ghost initial_ennemies = ennemies@;
    let ghost initial_score = *score;
    let total = projectiles.len();
    let mut kept: Vec<Projectile> = Vec::new();
    let mut i: usize = 0;
    while projectiles.len() > 0
        invariant
            ps == old(projectiles)@,
            ps.len() == total,
            initial_ennemies == old(ennemies)@,
            initial_score == *old(score),
            player.wf(),
            projectiles_wf(ps),
            i + projectiles@.len() == ps.len(),
            projectiles@ == ps.subrange(i as int, ps.len() as int),
            initial_score.score + (MAX_POINTS_PER_HITS + MAX_POINTS_PER_HITS * DEATH_POINT_COEF)
                * ps.len() <= u64::MAX,
            ({
                let pr = resolve_tick(player.sprite_data, ps.subrange(0, i as int), initial_ennemies);
                &&& kept@ == pr.0
                &&& ennemies@ == pr.1
                &&& score.score == initial_score.score + pr.2
                &&& score.score <= initial_score.score + (MAX_POINTS_PER_HITS
                    + MAX_POINTS_PER_HITS * DEATH_POINT_COEF) * i
                &&& score.health == (if pr.3 >= initial_score.health {
                    0int
                } else {
                    initial_score.health - pr.3
                })
                &&& score.percent_until_next_level == initial_score.percent_until_next_level
                &&& score.difficulty_level == initial_score.difficulty_level
                &&& score.level_elapsed_ms == initial_score.level_elapsed_ms
            }),
            ennemies_wf(ennemies@),
            projectiles_wf(kept@),
        decreases projectiles@.len(),
    {
        let projectile = projectiles.remove(0);
        proof {
            assert(projectile == ps[i as int]);
            assert(projectiles@ =~= ps.subrange(i + 1, ps.len() as int));
            assert(ps.subrange(0, i + 1).drop_last() =~= ps.subrange(0, i as int));
            assert(ps.subrange(0, i + 1).last() == ps[i as int]);
            assert((MAX_POINTS_PER_HITS + MAX_POINTS_PER_HITS * DEATH_POINT_COEF) * (i + 1)
                == (MAX_POINTS_PER_HITS + MAX_POINTS_PER_HITS * DEATH_POINT_COEF) * i
                + (MAX_POINTS_PER_HITS + MAX_POINTS_PER_HITS * DEATH_POINT_COEF))
                by (nonlinear_arith);
        }
        if projectile.is_coming_from_ennemy() {
            let hit = check_collision_with_player(player, &projectile, score);
            if !hit {
                kept.push(projectile);
            }
        } else {
            proof {
                assert((MAX_POINTS_PER_HITS + MAX_POINTS_PER_HITS * DEATH_POINT_COEF) * (i + 1)
                    <= (MAX_POINTS_PER_HITS + MAX_POINTS_PER_HITS * DEATH_POINT_COEF)
                    * ps.len()) by (nonlinear_arith)
                    requires i + 1 <= ps.len();
                assert((MAX_POINTS_PER_HITS + MAX_POINTS_PER_HITS * DEATH_POINT_COEF) * (i + 1)
                    == (MAX_POINTS_PER_HITS + MAX_POINTS_PER_HITS * DEATH_POINT_COEF) * i
                    + (MAX_POINTS_PER_HITS + MAX_POINTS_PER_HITS * DEATH_POINT_COEF))
                    by (nonlinear_arith);
                assert(score.score + MAX_POINTS_PER_HITS + MAX_POINTS_PER_HITS * DEATH_POINT_COEF
                    <= u64::MAX);
            }
            let hit = check_collision_with_ennemy(ennemies, &projectile, score);
            if !hit {
                kept.push(projectile);
            }
        }
        i = i + 1;
    }
    proof {
        assert(ps.subrange(0, ps.len() as int) =~= ps);
    }
    *projectiles = kept;
    score.update_percent_until_next_level(elapsed_ms);
}

} // verus!
