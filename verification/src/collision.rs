//! Collision and scoring: brute-force pairwise distance checks.  The
//! player-enemy threshold is the full `PLAYER_SIZE` while the
//! player-star threshold is the sum of the two half sizes — an
//! asymmetry of the round's tuning, kept as is.
//! All comparisons are made on squared distances.

use vstd::prelude::*;
use crate::{
    Enemy, PLAYER_SIZE, Player, STAR_SIZE, Score, Star, Vec2, dist_sq, pos_in_limits,
};

verus! {

/// The enemy is close enough to catch the player: Euclidean distance
/// strictly below the full player size.
pub open spec fn enemy_catches(p: Vec2, e: Enemy) -> bool {
    dist_sq(p, e.position) < PLAYER_SIZE * PLAYER_SIZE
}

/// The star is close enough to be picked up: Euclidean distance
/// strictly below the sum of the half sizes.
pub open spec fn star_collected(p: Vec2, st: Star) -> bool {
    dist_sq(p, st.position) < (PLAYER_SIZE / 2 + STAR_SIZE / 2) * (PLAYER_SIZE / 2 + STAR_SIZE / 2)
}

/// How many enemies of the sequence catch the player.
pub open spec fn count_hits(p: Vec2, s: Seq<Enemy>) -> int
    decreases s.len(),
{
    if s.len() == 0 {
        0
    } else {
        count_hits(p, s.drop_last()) + if enemy_catches(p, s.last()) {
            1int
        } else {
            0int
        }
    }
}

/// The stars that survive a pickup pass, in their original order.
pub open spec fn surviving_stars(p: Vec2, s: Seq<Star>) -> Seq<Star>
    decreases s.len(),
{
    if s.len() == 0 {
        s
    } else if star_collected(p, s.last()) {
        surviving_stars(p, s.drop_last())
    } else {
        surviving_stars(p, s.drop_last()).push(s.last())
    }
}

/// How many stars of the sequence the player picks up.
pub open spec fn count_collected(p: Vec2, s: Seq<Star>) -> int
    decreases s.len(),
{
    if s.len() == 0 {
        0
    } else {
        count_collected(p, s.drop_last()) + if star_collected(p, s.last()) {
            1int
        } else {
            0int
        }
    }
}

/// Each despawned star is worth exactly one point: the pickups and the
/// survivors of a pass partition the stars, so the score delta of the
/// pass equals the number of stars removed by it.
pub proof fn lemma_one_point_per_star(p: Vec2, s: Seq<Star>)
    ensures
        0 <= count_collected(p, s) <= s.len(),
        count_collected(p, s) == s.len() - surviving_stars(p, s).len(),
    decreases s.len(),
{
    if s.len() > 0 {
        lemma_one_point_per_star(p, s.drop_last());
    }
}

/// Count the enemies whose distance to the player is below the full
/// player size; any such contact costs the player the round.
pub fn enermy_hit_player(player: &Player, enemies: &Vec<Enemy>) -> (hits: u64)
    requires
        pos_in_limits(player.position),
        forall|i: int| 0 <= i < enemies@.len() ==> pos_in_limits(
            (#[trigger] enemies@[i]).position,
        ),
    ensures
        hits == count_hits(player.position, enemies@),
{
    let n = enemies.len();
    let mut hits: u64 = 0;
    let mut i: usize = 0;
    while i < n
        invariant
            n == enemies@.len(),
            0 <= i <= n,
            pos_in_limits(player.position),
            forall|j: int| 0 <= j < n ==> pos_in_limits((#[trigger] enemies@[j]).position),
            hits == count_hits(player.position, enemies@.take(i as int)),
            hits <= i,
        decreases n - i,
    {
        let e = enemies[i];
        let dx = player.position.x - e.position.x;
        let dy = player.position.y - e.position.y;
        proof {
            assert(0 <= dx * dx <= 40_000_000_000_000_000 && 0 <= dy * dy <= 40_000_000_000_000_000)
                by (nonlinear_arith)
                requires
                    -200_000_000 <= dx <= 200_000_000,
                    -200_000_000 <= dy <= 200_000_000,
            ;
        }
        if dx * dx + dy * dy < PLAYER_SIZE * PLAYER_SIZE {
            hits = hits + 1;
        }
        proof {
            assert(enemies@.take(i as int + 1).drop_last() =~= enemies@.take(i as int));
            assert(enemies@.take(i as int + 1).last() == enemies@[i as int]);
        }
        i = i + 1;
    }
    proof {
        assert(enemies@.take(n as int) =~= enemies@);
    }
    hits
}

/// Remove every star within pickup range of the player, in one pass
/// and keeping the order of the rest; add one point per removed star.
pub fn player_hit_stars(player: &Player, stars: &mut Vec<Star>, score: &mut Score) -> (collected:
    u64)
    requires
        pos_in_limits(player.position),
        forall|i: int| 0 <= i < old(stars)@.len() ==> pos_in_limits(
            (#[trigger] old(stars)@[i]).position,
        ),
        old(score).value + old(stars)@.len() <= u32::MAX,
    ensures
        final(stars)@ == surviving_stars(player.position, old(stars)@),
        collected == count_collected(player.position, old(stars)@),
        collected == old(stars)@.len() - final(stars)@.len(),
        final(score).value == old(score).value + collected,
        final(score).value >= old(score).value,
        forall|i: int| 0 <= i < final(stars)@.len() ==> pos_in_limits(
            (#[trigger] final(stars)@[i]).position,
        ),
{
    let ghost orig = stars@;
    let n = stars.len();
    let mut kept: Vec<Star> = Vec::new();
    let mut collected: u64 = 0;
    let mut i: usize = 0;
    while i < n
        invariant
            n == orig.len(),
            stars@ == orig,
            0 <= i <= n,
            pos_in_limits(player.position),
            forall|j: int| 0 <= j < n ==> pos_in_limits((#[trigger] orig[j]).position),
            kept@ == surviving_stars(player.position, orig.take(i as int)),
            collected == count_collected(player.position, orig.take(i as int)),
            collected + kept@.len() == i,
            forall|k: int| 0 <= k < kept@.len() ==> pos_in_limits((#[trigger] kept@[k]).position),
        decreases n - i,
    {
        let st = stars[i];
        let dx = player.position.x - st.position.x;
        let dy = player.position.y - st.position.y;
        proof {
            assert(0 <= dx * dx <= 40_000_000_000_000_000 && 0 <= dy * dy <= 40_000_000_000_000_000)
                by (nonlinear_arith)
                requires
                    -200_000_000 <= dx <= 200_000_000,
                    -200_000_000 <= dy <= 200_000_000,
            ;
        }
        if dx * dx + dy * dy < (PLAYER_SIZE / 2 + STAR_SIZE / 2) * (PLAYER_SIZE / 2 + STAR_SIZE / 2) {
            collected = collected + 1;
        } else {
            kept.push(st);
        }
        proof {
            assert(orig.take(i as int + 1).drop_last() =~= orig.take(i as int));
            assert(orig.take(i as int + 1).last() == orig[i as int]);
        }
        i = i + 1;
    }
    proof {
        assert(orig.take(n as int) =~= orig);
        lemma_one_point_per_star(player.position, orig);
    }
    score.value = score.value + collected as u32;
    *stars = kept;
    collected
}

} // verus!
