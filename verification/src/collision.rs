//! The collision pass of a tick: which asteroids and bullets destroy each
//! other, and whether the player is hit.

use crate::data::Rectangle;
use vstd::prelude::*;

verus! {

/// None of the first `i` asteroids overlaps `bullet`.
pub open spec fn untouched_before(asteroids: Seq<Rectangle>, i: int, bullet: Rectangle) -> bool {
    forall|k: int|
        0 <= k < i && k < asteroids.len() ==> !(#[trigger] asteroids[k]).spec_overlaps(bullet)
}

/// One of the first `n` bullets overlaps `asteroid`.
pub open spec fn shot_by_first(asteroid: Rectangle, bullets: Seq<Rectangle>, n: int) -> bool {
    exists|j: int| 0 <= j < n && j < bullets.len() && asteroid.spec_overlaps(#[trigger] bullets[j])
}

/// `asteroid` overlaps the player or one of the bullets.
pub open spec fn touched(asteroid: Rectangle, bullets: Seq<Rectangle>, player: Rectangle) -> bool {
    asteroid.spec_overlaps(player) || shot_by_first(asteroid, bullets, bullets.len() as int)
}

/// Asteroid `i` is destroyed in the pass exactly if it overlaps the player or
/// one of the bullets, whatever else that bullet overlaps.
pub open spec fn asteroid_is_hit(
    asteroids: Seq<Rectangle>,
    bullets: Seq<Rectangle>,
    player: Rectangle,
    i: int,
) -> bool {
    touched(asteroids[i], bullets, player)
}

/// A bullet is destroyed in the pass exactly if some asteroid overlaps it.
pub open spec fn bullet_is_hit(asteroids: Seq<Rectangle>, bullet: Rectangle) -> bool {
    !untouched_before(asteroids, asteroids.len() as int, bullet)
}

/// One of the first `i` asteroids overlaps the player.
pub open spec fn player_hit_by_first(asteroids: Seq<Rectangle>, player: Rectangle, i: int) -> bool {
    exists|k: int|
        0 <= k < i && k < asteroids.len() && (#[trigger] asteroids[k]).spec_overlaps(player)
}

/// The player is hit in the pass exactly if some asteroid overlaps it.
pub open spec fn player_is_hit(asteroids: Seq<Rectangle>, player: Rectangle) -> bool {
    player_hit_by_first(asteroids, player, asteroids.len() as int)
}

/// For each asteroid, whether it survives the pass.
pub open spec fn asteroids_alive(
    asteroids: Seq<Rectangle>,
    bullets: Seq<Rectangle>,
    player: Rectangle,
) -> Seq<bool> {
    Seq::new(asteroids.len(), |i: int| !asteroid_is_hit(asteroids, bullets, player, i))
}

/// For each bullet, whether it survives the pass.
pub open spec fn bullets_alive(asteroids: Seq<Rectangle>, bullets: Seq<Rectangle>) -> Seq<bool> {
    Seq::new(bullets.len(), |j: int| !bullet_is_hit(asteroids, bullets[j]))
}

/// The outcome of a collision pass.
pub struct Collisions {
    /// For each asteroid, whether it survives.
    pub asteroids_alive: Vec<bool>,
    /// For each bullet, whether it survives.
    pub bullets_alive: Vec<bool>,
    /// Whether the player was hit, by however many asteroids.
    pub player_hit: bool,
}

impl Collisions {
    /// The outcome is that of a pass over the given rectangles.
    pub open spec fn is_outcome_of(
        &self,
        asteroids: Seq<Rectangle>,
        bullets: Seq<Rectangle>,
        player: Rectangle,
    ) -> bool {
        &&& self.asteroids_alive@.len() == asteroids.len()
        &&& self.bullets_alive@.len() == bullets.len()
        &&& forall|i: int|
            0 <= i < asteroids.len() ==> #[trigger] self.asteroids_alive@[i] == !asteroid_is_hit(
                asteroids,
                bullets,
                player,
                i,
            )
        &&& forall|j: int|
            0 <= j < bullets.len() ==> #[trigger] self.bullets_alive@[j] == !bullet_is_hit(
                asteroids,
                bullets[j],
            )
        &&& self.player_hit == player_is_hit(asteroids, player)
    }
}

/// Runs the collision pass. Every asteroid is tested against every bullet,
/// whether or not another asteroid has destroyed that bullet in this pass, and
/// against the player. An overlap destroys the asteroid, and the bullet with
/// it; one bullet may so destroy several asteroids, and one asteroid several
/// bullets.
pub fn collide(asteroids: &Vec<Rectangle>, bullets: &Vec<Rectangle>, player: Rectangle) -> (r:
    Collisions)
    ensures
        r.is_outcome_of(asteroids@, bullets@, player),
        r.asteroids_alive@ == asteroids_alive(asteroids@, bullets@, player),
        r.bullets_alive@ == bullets_alive(asteroids@, bullets@),
{
    let mut bullets_alive: Vec<bool> = Vec::new();
    let mut j: usize = 0;
    while j < bullets.len()
        invariant
            j <= bullets@.len(),
            bullets_alive@.len() == j,
            forall|m: int| 0 <= m < j ==> #[trigger] bullets_alive@[m],
        decreases bullets@.len() - j,
    {
        bullets_alive.push(true);
        j += 1;
    }
    let mut asteroids_alive: Vec<bool> = Vec::new();
    let mut player_hit: bool = false;
    let mut i: usize = 0;
    while i < asteroids.len()
        invariant
            i <= asteroids@.len(),
            asteroids_alive@.len() == i,
            bullets_alive@.len() == bullets@.len(),
            forall|k: int|
                0 <= k < i ==> #[trigger] asteroids_alive@[k] == !asteroid_is_hit(
                    asteroids@,
                    bullets@,
                    player,
                    k,
                ),
            forall|m: int|
                0 <= m < bullets@.len() ==> #[trigger] bullets_alive@[m] == untouched_before(
                    asteroids@,
                    i as int,
                    bullets@[m],
                ),
            player_hit == player_hit_by_first(asteroids@, player, i as int),
        decreases asteroids@.len() - i,
    {
        let asteroid: Rectangle = asteroids[i];
        let mut asteroid_alive: bool = true;
        let mut j: usize = 0;
        while j < bullets.len()
            invariant
                i < asteroids@.len(),
                asteroid == asteroids@[i as int],
                j <= bullets@.len(),
                bullets_alive@.len() == bullets@.len(),
                asteroid_alive == !shot_by_first(asteroid, bullets@, j as int),
                forall|m: int|
                    0 <= m < j ==> #[trigger] bullets_alive@[m] == untouched_before(
                        asteroids@,
                        i + 1,
                        bullets@[m],
                    ),
                forall|m: int|
                    j <= m < bullets@.len() ==> #[trigger] bullets_alive@[m] == untouched_before(
                        asteroids@,
                        i as int,
                        bullets@[m],
                    ),
            decreases bullets@.len() - j,
        {
            let touching: bool = asteroid.overlaps(bullets[j]);
            proof {
                let b = bullets@[j as int];
                if untouched_before(asteroids@, i + 1, b) {
                    assert(untouched_before(asteroids@, i as int, b));
                    assert(!asteroids@[i as int].spec_overlaps(b));
                }
                if untouched_before(asteroids@, i as int, b) && !touching {
                    assert(untouched_before(asteroids@, i + 1, b));
                }
                if shot_by_first(asteroid, bullets@, j + 1) && !shot_by_first(
                    asteroid,
                    bullets@,
                    j as int,
                ) {
                    let w = choose|w: int|
                        0 <= w < j + 1 && w < bullets@.len() && asteroid.spec_overlaps(
                            #[trigger] bullets@[w],
                        );
                    assert(w == j);
                }
            }
            if touching {
                asteroid_alive = false;
                bullets_alive.set(j, false);
            }
            j += 1;
        }
        if asteroid.overlaps(player) {
            asteroid_alive = false;
            player_hit = true;
        }
        proof {
            if player_hit_by_first(asteroids@, player, i + 1) && !player_hit_by_first(
                asteroids@,
                player,
                i as int,
            ) {
                let w = choose|w: int|
                    0 <= w < i + 1 && w < asteroids@.len() && (#[trigger] asteroids@[w]).spec_overlaps(
                        player,
                    );
                assert(w == i);
            }
            if asteroid.spec_overlaps(player) {
                assert(asteroids@[i as int].spec_overlaps(player));
            }
        }
        asteroids_alive.push(asteroid_alive);
        i += 1;
    }
    assert(asteroids_alive@ =~= self::asteroids_alive(asteroids@, bullets@, player));
    assert(bullets_alive@ =~= self::bullets_alive(asteroids@, bullets@));
    Collisions { asteroids_alive, bullets_alive, player_hit }
}

/// `value` stands somewhere in `order`.
pub open spec fn has_place(order: Seq<int>, value: int) -> bool {
    exists|i: int| 0 <= i < order.len() && #[trigger] order[i] == value
}

/// `order` lists every index below `n` exactly once.
pub open spec fn is_permutation(order: Seq<int>, n: int) -> bool {
    &&& order.len() == n
    &&& forall|i: int| 0 <= i < n ==> 0 <= #[trigger] order[i] < n
    &&& forall|i: int, k: int| 0 <= i < n && 0 <= k < n && i != k ==> order[i] != order[k]
    &&& forall|v: int| 0 <= v < n ==> #[trigger] has_place(order, v)
}

/// The rectangles of `items`, taken in the order that `order` gives.
pub open spec fn reordered(items: Seq<Rectangle>, order: Seq<int>) -> Seq<Rectangle> {
    Seq::new(order.len(), |i: int| items[order[i]])
}

/// The order of the bullets does not matter: with the bullets taken in another
/// order, every asteroid has the same fate, every bullet has the fate it had
/// in its old place, and the player is hit or not as before.
pub proof fn lemma_bullet_order_irrelevant(
    asteroids: Seq<Rectangle>,
    bullets: Seq<Rectangle>,
    player: Rectangle,
    order: Seq<int>,
)
    requires
        is_permutation(order, bullets.len() as int),
    ensures
        forall|i: int|
            0 <= i < asteroids.len() ==> #[trigger] asteroid_is_hit(
                asteroids,
                reordered(bullets, order),
                player,
                i,
            ) == asteroid_is_hit(asteroids, bullets, player, i),
        forall|j: int|
            0 <= j < bullets.len() ==> bullet_is_hit(
                asteroids,
                #[trigger] reordered(bullets, order)[j],
            ) == bullet_is_hit(asteroids, bullets[order[j]]),
{
    let moved = reordered(bullets, order);
    let n = bullets.len() as int;
    assert forall|i: int| 0 <= i < asteroids.len() implies #[trigger] asteroid_is_hit(
        asteroids,
        moved,
        player,
        i,
    ) == asteroid_is_hit(asteroids, bullets, player, i) by {
        let a = asteroids[i];
        if shot_by_first(a, moved, n) {
            let j = choose|j: int|
                0 <= j < n && j < moved.len() && a.spec_overlaps(#[trigger] moved[j]);
            assert(moved[j] == bullets[order[j]]);
            assert(a.spec_overlaps(bullets[order[j]]));
        }
        if shot_by_first(a, bullets, n) {
            let j = choose|j: int|
                0 <= j < n && j < bullets.len() && a.spec_overlaps(#[trigger] bullets[j]);
            assert(has_place(order, j));
            let m = choose|m: int| 0 <= m < order.len() && #[trigger] order[m] == j;
            assert(moved[m] == bullets[j]);
            assert(a.spec_overlaps(moved[m]));
        }
    }
}

/// The order of the asteroids does not matter: with the asteroids taken in
/// another order, every asteroid has the fate it had in its old place, every
/// bullet has the same fate, and the player is hit or not as before.
pub proof fn lemma_asteroid_order_irrelevant(
    asteroids: Seq<Rectangle>,
    bullets: Seq<Rectangle>,
    player: Rectangle,
    order: Seq<int>,
)
    requires
        is_permutation(order, asteroids.len() as int),
    ensures
        forall|i: int|
            0 <= i < asteroids.len() ==> #[trigger] asteroid_is_hit(
                reordered(asteroids, order),
                bullets,
                player,
                i,
            ) == asteroid_is_hit(asteroids, bullets, player, order[i]),
        forall|j: int|
            0 <= j < bullets.len() ==> bullet_is_hit(
                reordered(asteroids, order),
                #[trigger] bullets[j],
            ) == bullet_is_hit(asteroids, bullets[j]),
        player_is_hit(reordered(asteroids, order), player) == player_is_hit(asteroids, player),
{
    let moved = reordered(asteroids, order);
    let n = asteroids.len() as int;
    assert forall|i: int| 0 <= i < n implies #[trigger] asteroid_is_hit(moved, bullets, player, i)
        == asteroid_is_hit(asteroids, bullets, player, order[i]) by {
        assert(moved[i] == asteroids[order[i]]);
    }
    assert forall|j: int| 0 <= j < bullets.len() implies bullet_is_hit(moved, #[trigger] bullets[j])
        == bullet_is_hit(asteroids, bullets[j]) by {
        let b = bullets[j];
        if bullet_is_hit(moved, b) {
            let k = choose|k: int|
                0 <= k < n && k < moved.len() && (#[trigger] moved[k]).spec_overlaps(b);
            assert(moved[k] == asteroids[order[k]]);
            assert(asteroids[order[k]].spec_overlaps(b));
        }
        if bullet_is_hit(asteroids, b) {
            let k = choose|k: int|
                0 <= k < n && k < asteroids.len() && (#[trigger] asteroids[k]).spec_overlaps(b);
            assert(has_place(order, k));
            let m = choose|m: int| 0 <= m < order.len() && #[trigger] order[m] == k;
            assert(moved[m] == asteroids[k]);
            assert(moved[m].spec_overlaps(b));
        }
    }
    if player_is_hit(moved, player) {
        let k = choose|k: int|
            0 <= k < n && k < moved.len() && (#[trigger] moved[k]).spec_overlaps(player);
        assert(moved[k] == asteroids[order[k]]);
        assert(asteroids[order[k]].spec_overlaps(player));
    }
    if player_is_hit(asteroids, player) {
        let k = choose|k: int|
            0 <= k < n && k < asteroids.len() && (#[trigger] asteroids[k]).spec_overlaps(player);
        assert(has_place(order, k));
        let m = choose|m: int| 0 <= m < order.len() && #[trigger] order[m] == k;
        assert(moved[m] == asteroids[k]);
        assert(moved[m].spec_overlaps(player));
    }
}

} // verus!
