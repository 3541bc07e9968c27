//! Why the order of the items in a collection does not matter to what is
//! left of it: what is made of each item, and whether it is kept, depends on
//! the item alone.

use crate::bullets::Bullet;
use crate::collision::{
    asteroids_alive, bullet_is_hit, bullets_alive, player_is_hit, shot_by_first, touched,
};
use crate::data::Rectangle;
use crate::game::{
    asteroid_after, asteroid_rects, asteroid_views, asteroids_after, blasts, bullet_rects,
    bullets_after, explosion_after, explosion_at, explosion_views, explosions_after, kept,
    AsteroidView, Draws, ExplosionView, GameView,
};
use crate::gfx::AnimationView;
use crate::phi::Events;
use vstd::multiset::Multiset;
use vstd::prelude::*;

verus! {

/// What `f` makes of each of `items`, in their order, without those of which
/// it makes nothing.
pub open spec fn gathered<A, B>(items: Seq<A>, f: spec_fn(A) -> Option<B>) -> Seq<B>
    decreases items.len(),
{
    if items.len() == 0 {
        Seq::empty()
    } else {
        let rest = gathered(items.drop_last(), f);
        match f(items.last()) {
            Some(made) => rest.push(made),
            None => rest,
        }
    }
}

/// What `f` makes of one item, as a collection of one or none.
pub open spec fn made_of<A, B>(item: A, f: spec_fn(A) -> Option<B>) -> Multiset<B> {
    match f(item) {
        Some(made) => Multiset::singleton(made),
        None => Multiset::empty(),
    }
}

/// What is gathered from `items` is what is gathered from them without item
/// `k`, together with what is made of that item.
pub proof fn lemma_gathered_without<A, B>(items: Seq<A>, k: int, f: spec_fn(A) -> Option<B>)
    requires
        0 <= k < items.len(),
    ensures
        gathered(items, f).to_multiset() == gathered(items.remove(k), f).to_multiset().add(
            made_of(items[k], f),
        ),
    decreases items.len(),
{
    broadcast use vstd::multiset::group_multiset_axioms;
    broadcast use vstd::seq_lib::to_multiset_build;

    let rest = items.drop_last();
    let less = items.remove(k);
    if k == items.len() - 1 {
        assert(less =~= rest);
        assert(gathered(items, f).to_multiset() =~= gathered(less, f).to_multiset().add(
            made_of(items[k], f),
        ));
    } else {
        lemma_gathered_without(rest, k, f);
        assert(less.drop_last() =~= rest.remove(k));
        assert(less.last() == items.last());
        assert(rest[k] == items[k]);
        assert(gathered(items, f).to_multiset() =~= gathered(less, f).to_multiset().add(
            made_of(items[k], f),
        ));
    }
}

/// Two sequences that hold the same items, in whatever order, hold the same
/// items after anything is gathered from them.
pub proof fn lemma_gathered_same_items<A, B>(
    first: Seq<A>,
    second: Seq<A>,
    f: spec_fn(A) -> Option<B>,
)
    requires
        first.to_multiset() == second.to_multiset(),
    ensures
        gathered(first, f).to_multiset() == gathered(second, f).to_multiset(),
    decreases first.len(),
{
    broadcast use vstd::multiset::group_multiset_axioms;

    first.to_multiset_ensures();
    second.to_multiset_ensures();
    if first.len() == 0 {
        assert(second.len() == 0);
    } else {
        let last = first.len() - 1;
        let x = first[last];
        let rest = first.remove(last);
        assert(first.contains(x));
        lemma_same_items_same_members(first, second, x);
        let k = second.lemma_contains_to_index(x);
        let other = second.remove(k);
        assert(rest.to_multiset() =~= other.to_multiset());
        lemma_gathered_same_items(rest, other, f);
        lemma_gathered_without(first, last, f);
        lemma_gathered_without(second, k, f);
    }
}

/// Two sequences that hold the same items hold any one item together or not
/// at all.
pub proof fn lemma_same_items_same_members<A>(first: Seq<A>, second: Seq<A>, item: A)
    requires
        first.to_multiset() == second.to_multiset(),
    ensures
        first.contains(item) == second.contains(item),
{
    first.to_multiset_ensures();
    second.to_multiset_ensures();
    assert(first.contains(item) <==> first.to_multiset().count(item) > 0);
    assert(second.contains(item) <==> second.to_multiset().count(item) > 0);
}


/// The asteroids after a time are what is gathered from them by moving
/// each on.
proof fn lemma_asteroids_after_gathered(
    items: Seq<AsteroidView>,
    dt: int,
    f: spec_fn(AsteroidView) -> Option<AsteroidView>,
)
    requires
        forall|a: AsteroidView| #[trigger] f(a) == asteroid_after(a, dt),
    ensures
        asteroids_after(items, dt) == gathered(items, f),
    decreases items.len(),
{
    if items.len() > 0 {
        lemma_asteroids_after_gathered(items.drop_last(), dt, f);
    }
}

/// The bullets after a time are what is gathered from them by moving each
/// on.
proof fn lemma_bullets_after_gathered(
    items: Seq<Bullet>,
    wave: Seq<i64>,
    size: (i64, i64),
    dt: int,
    f: spec_fn(Bullet) -> Option<Bullet>,
)
    requires
        forall|b: Bullet| #[trigger] f(b) == b.spec_update(wave, size, dt),
    ensures
        bullets_after(items, wave, size, dt) == gathered(items, f),
    decreases items.len(),
{
    if items.len() > 0 {
        lemma_bullets_after_gathered(items.drop_last(), wave, size, dt, f);
    }
}

/// The explosions after a time are what is gathered from them by moving
/// each on.
proof fn lemma_explosions_after_gathered(
    items: Seq<ExplosionView>,
    dt: int,
    f: spec_fn(ExplosionView) -> Option<ExplosionView>,
)
    requires
        forall|e: ExplosionView| #[trigger] f(e) == explosion_after(e, dt),
    ensures
        explosions_after(items, dt) == gathered(items, f),
    decreases items.len(),
{
    if items.len() > 0 {
        lemma_explosions_after_gathered(items.drop_last(), dt, f);
    }
}

/// Where each flag says whether its item meets a condition, the items kept
/// by the flags are those gathered by the condition.
proof fn lemma_kept_gathered<A>(
    items: Seq<A>,
    alive: Seq<bool>,
    keep: spec_fn(A) -> bool,
    f: spec_fn(A) -> Option<A>,
)
    requires
        forall|k: int| 0 <= k < items.len() ==> alive[k] == keep(#[trigger] items[k]),
        forall|a: A|
            #[trigger] f(a) == (if keep(a) {
                Some(a)
            } else {
                None
            }),
    ensures
        kept(items, alive) == gathered(items, f),
    decreases items.len(),
{
    if items.len() > 0 {
        let rest = items.drop_last();
        assert forall|k: int| 0 <= k < rest.len() implies alive[k] == keep(#[trigger] rest[k]) by {
            assert(rest[k] == items[k]);
        }
        lemma_kept_gathered(rest, alive, keep, f);
        assert(alive[items.len() - 1] == keep(items[items.len() - 1]));
    }
}

/// Where each flag says whether its asteroid meets a condition, the
/// explosions of the asteroids that the flags do not keep are those gathered
/// from the asteroids that do not meet the condition.
proof fn lemma_blasts_gathered(
    items: Seq<AsteroidView>,
    alive: Seq<bool>,
    template: AnimationView,
    keep: spec_fn(AsteroidView) -> bool,
    f: spec_fn(AsteroidView) -> Option<ExplosionView>,
)
    requires
        forall|k: int| 0 <= k < items.len() ==> alive[k] == keep(#[trigger] items[k]),
        forall|a: AsteroidView|
            #[trigger] f(a) == (if keep(a) {
                None
            } else {
                Some(explosion_at(template, a.rect.spec_center()))
            }),
    ensures
        blasts(asteroid_rects(items), alive, template) == gathered(items, f),
    decreases items.len(),
{
    if items.len() > 0 {
        let rest = items.drop_last();
        assert forall|k: int| 0 <= k < rest.len() implies alive[k] == keep(#[trigger] rest[k]) by {
            assert(rest[k] == items[k]);
        }
        lemma_blasts_gathered(rest, alive, template, keep, f);
        assert(asteroid_rects(items).drop_last() =~= asteroid_rects(rest));
        assert(asteroid_rects(items).last() == items.last().rect);
        assert(alive[items.len() - 1] == keep(items[items.len() - 1]));
    }
}

/// A rectangle that one of some bullets overlaps is overlapped by one of any
/// bullets that are the same but for their order.
proof fn lemma_shot_whatever_the_order(
    from: Seq<Bullet>,
    to: Seq<Bullet>,
    wave: Seq<i64>,
    asteroid: Rectangle,
)
    requires
        from.to_multiset() == to.to_multiset(),
        shot_by_first(asteroid, bullet_rects(from, wave), from.len() as int),
    ensures
        shot_by_first(asteroid, bullet_rects(to, wave), to.len() as int),
{
    let rects = bullet_rects(from, wave);
    let j = choose|j: int|
        0 <= j < from.len() && j < rects.len() && asteroid.spec_overlaps(#[trigger] rects[j]);
    let bullet = from[j];
    assert(from.contains(bullet));
    lemma_same_items_same_members(from, to, bullet);
    let k = to.lemma_contains_to_index(bullet);
    assert(asteroid.spec_overlaps(bullet_rects(to, wave)[k]));
}

/// Some asteroid's rectangle overlaps `target`.
spec fn some_overlaps(asteroids: Seq<AsteroidView>, target: Rectangle) -> bool {
    exists|k: int| 0 <= k < asteroids.len() && (#[trigger] asteroids[k]).rect.spec_overlaps(target)
}

/// A bullet is hit, and the player is hit, exactly if some asteroid overlaps
/// it.
proof fn lemma_hit_is_some_overlap(asteroids: Seq<AsteroidView>, target: Rectangle)
    ensures
        bullet_is_hit(asteroid_rects(asteroids), target) == some_overlaps(asteroids, target),
        player_is_hit(asteroid_rects(asteroids), target) == some_overlaps(asteroids, target),
{
    let rects = asteroid_rects(asteroids);
    if some_overlaps(asteroids, target) {
        let k = choose|k: int|
            0 <= k < asteroids.len() && (#[trigger] asteroids[k]).rect.spec_overlaps(target);
        assert(rects[k].spec_overlaps(target));
    }
    if bullet_is_hit(rects, target) {
        let k = choose|k: int|
            0 <= k < rects.len() && k < rects.len() && (#[trigger] rects[k]).spec_overlaps(target);
        assert(asteroids[k].rect.spec_overlaps(target));
    }
    if player_is_hit(rects, target) {
        let k = choose|k: int|
            0 <= k < rects.len() && k < rects.len() && (#[trigger] rects[k]).spec_overlaps(target);
        assert(asteroids[k].rect.spec_overlaps(target));
    }
}

/// A rectangle that one of some asteroids overlaps is overlapped by one of
/// any asteroids that are the same but for their order.
proof fn lemma_overlap_whatever_the_order(
    from: Seq<AsteroidView>,
    to: Seq<AsteroidView>,
    target: Rectangle,
)
    requires
        from.to_multiset() == to.to_multiset(),
        some_overlaps(from, target),
    ensures
        some_overlaps(to, target),
{
    let k = choose|k: int|
        0 <= k < from.len() && (#[trigger] from[k]).rect.spec_overlaps(target);
    let asteroid = from[k];
    assert(from.contains(asteroid));
    lemma_same_items_same_members(from, to, asteroid);
    let m = to.lemma_contains_to_index(asteroid);
    assert(to[m].rect.spec_overlaps(target));
}

/// The order in which a game holds its asteroids, its bullets and its
/// explosions does not matter to a tick. Of two games that are alike but for
/// that order, the same tick asks the same of the loop, takes the same
/// lives, and leaves the same asteroids, the same bullets and the same
/// explosions: the games are alike but for that order afterwards as well.
pub proof fn lemma_tick_order_irrelevant(
    first: &GameView,
    second: &GameView,
    first_next: &GameView,
    second_next: &GameView,
    events: Events,
    size: (i64, i64),
    elapsed: int,
    draws: Draws,
)
    requires
        first.spec_alike_but_for_order(second),
        first.spec_ticked(first_next, events, size, elapsed, draws),
        second.spec_ticked(second_next, events, size, elapsed, draws),
    ensures
        first.spec_action(events, size, elapsed) == second.spec_action(events, size, elapsed),
        first_next.player.lives == second_next.player.lives,
        asteroid_views(first_next.asteroids@).to_multiset() == asteroid_views(
            second_next.asteroids@,
        ).to_multiset(),
        first_next.bullets@.to_multiset() == second_next.bullets@.to_multiset(),
        explosion_views(first_next.explosions@).to_multiset() == explosion_views(
            second_next.explosions@,
        ).to_multiset(),
        first_next.spec_alike_but_for_order(second_next),
{
    broadcast use vstd::seq_lib::lemma_multiset_commutative;

    let wave = first.wave@;
    let template = first.explosion_factory.sprite@;
    let player = first.player.spec_moved_rect(events, size, elapsed);
    assert(player == second.player.spec_moved_rect(events, size, elapsed));

    let move_asteroid = |a: AsteroidView| asteroid_after(a, elapsed);
    let move_bullet = |b: Bullet| b.spec_update(wave, size, elapsed);
    let move_explosion = |e: ExplosionView| explosion_after(e, elapsed);

    let a1 = asteroid_views(first.asteroids@);
    let a2 = asteroid_views(second.asteroids@);
    lemma_asteroids_after_gathered(a1, elapsed, move_asteroid);
    lemma_asteroids_after_gathered(a2, elapsed, move_asteroid);
    lemma_gathered_same_items(a1, a2, move_asteroid);
    let m1 = asteroids_after(a1, elapsed);
    let m2 = asteroids_after(a2, elapsed);

    let b1 = first.bullets@;
    let b2 = second.bullets@;
    lemma_bullets_after_gathered(b1, wave, size, elapsed, move_bullet);
    lemma_bullets_after_gathered(b2, wave, size, elapsed, move_bullet);
    lemma_gathered_same_items(b1, b2, move_bullet);
    let n1 = bullets_after(b1, wave, size, elapsed);
    let n2 = bullets_after(b2, wave, size, elapsed);

    let e1 = explosion_views(first.explosions@);
    let e2 = explosion_views(second.explosions@);
    lemma_explosions_after_gathered(e1, elapsed, move_explosion);
    lemma_explosions_after_gathered(e2, elapsed, move_explosion);
    lemma_gathered_same_items(e1, e2, move_explosion);

    let r1 = asteroid_rects(m1);
    let r2 = asteroid_rects(m2);
    let s1 = bullet_rects(n1, wave);
    let s2 = bullet_rects(n2, wave);

    assert forall|r: Rectangle| touched(r, s1, player) == #[trigger] touched(r, s2, player) by {
        if shot_by_first(r, s1, s1.len() as int) {
            lemma_shot_whatever_the_order(n1, n2, wave, r);
        }
        if shot_by_first(r, s2, s2.len() as int) {
            lemma_shot_whatever_the_order(n2, n1, wave, r);
        }
    }
    assert forall|x: Rectangle| bullet_is_hit(r1, x) == #[trigger] bullet_is_hit(r2, x) by {
        lemma_hit_is_some_overlap(m1, x);
        lemma_hit_is_some_overlap(m2, x);
        if some_overlaps(m1, x) {
            lemma_overlap_whatever_the_order(m1, m2, x);
        }
        if some_overlaps(m2, x) {
            lemma_overlap_whatever_the_order(m2, m1, x);
        }
    }
    assert(player_is_hit(r1, player) == player_is_hit(r2, player)) by {
        lemma_hit_is_some_overlap(m1, player);
        lemma_hit_is_some_overlap(m2, player);
        if some_overlaps(m1, player) {
            lemma_overlap_whatever_the_order(m1, m2, player);
        }
        if some_overlaps(m2, player) {
            lemma_overlap_whatever_the_order(m2, m1, player);
        }
    }

    let untouched = |a: AsteroidView| !touched(a.rect, s2, player);
    let keep_asteroid = |a: AsteroidView|
        if untouched(a) {
            Some(a)
        } else {
            None
        };
    let blast_asteroid = |a: AsteroidView|
        if untouched(a) {
            None
        } else {
            Some(explosion_at(template, a.rect.spec_center()))
        };
    let flags1 = asteroids_alive(r1, s1, player);
    let flags2 = asteroids_alive(r2, s2, player);
    assert forall|k: int| 0 <= k < m1.len() implies flags1[k] == untouched(#[trigger] m1[k]) by {
        assert(r1[k] == m1[k].rect);
    }
    assert forall|k: int| 0 <= k < m2.len() implies flags2[k] == untouched(#[trigger] m2[k]) by {
        assert(r2[k] == m2[k].rect);
    }
    lemma_kept_gathered(m1, flags1, untouched, keep_asteroid);
    lemma_kept_gathered(m2, flags2, untouched, keep_asteroid);
    lemma_gathered_same_items(m1, m2, keep_asteroid);
    lemma_blasts_gathered(m1, flags1, template, untouched, blast_asteroid);
    lemma_blasts_gathered(m2, flags2, template, untouched, blast_asteroid);
    lemma_gathered_same_items(m1, m2, blast_asteroid);

    let missed = |b: Bullet| !bullet_is_hit(r2, b.spec_rect(wave));
    let keep_bullet = |b: Bullet|
        if missed(b) {
            Some(b)
        } else {
            None
        };
    let marks1 = bullets_alive(r1, s1);
    let marks2 = bullets_alive(r2, s2);
    assert forall|k: int| 0 <= k < n1.len() implies marks1[k] == missed(#[trigger] n1[k]) by {
        assert(s1[k] == n1[k].spec_rect(wave));
    }
    assert forall|k: int| 0 <= k < n2.len() implies marks2[k] == missed(#[trigger] n2[k]) by {
        assert(s2[k] == n2[k].spec_rect(wave));
    }
    lemma_kept_gathered(n1, marks1, missed, keep_bullet);
    lemma_kept_gathered(n2, marks2, missed, keep_bullet);
    lemma_gathered_same_items(n1, n2, keep_bullet);

    assert(first.spec_asteroids_struck(events, size, elapsed).to_multiset()
        == second.spec_asteroids_struck(events, size, elapsed).to_multiset());
    assert(first.spec_bullets_struck(size, elapsed).to_multiset() == second.spec_bullets_struck(
        size,
        elapsed,
    ).to_multiset());
    assert(first.spec_explosions_struck(events, size, elapsed).to_multiset()
        == second.spec_explosions_struck(events, size, elapsed).to_multiset());
    assert(first.spec_lives_left(events, size, elapsed) == second.spec_lives_left(
        events,
        size,
        elapsed,
    ));
}

} // verus!
