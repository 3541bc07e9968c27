use arcade_sim::bullets::{Bullet, CannonType, SineTable, BULLET_H, BULLET_W};
use arcade_sim::data::{Rectangle, UNIT};
use arcade_sim::game::{
    diagonal, move_asteroids, move_bullets, move_explosions, strike, Asteroid, Draws, Explosion,
    GameView, Player, PlayerFrame, ASTEROID_SIDE, EXPLOSION_DURATION, EXPLOSION_SIDE, PLAYER_H,
    PLAYER_MAX_LIVES, PLAYER_W,
};
use arcade_sim::gfx::{DrawCall, DrawList, Layer, Sprite};
use arcade_sim::phi::{Events, Phi, ViewAction, ViewId};

const TICK: i64 = 10_000;

fn window() -> Phi {
    Phi::new(Events::new(), DrawList::new(800, 600))
}

fn wave() -> SineTable {
    SineTable::new(vec![0, 1_000_000, 0, -1_000_000]).unwrap()
}

fn new_game(phi: &Phi) -> GameView {
    let ship = Sprite::new(1, 129, 117);
    let rocks = Sprite::new(2, 2016, 672);
    let blasts = Sprite::new(3, 480, 384);
    GameView::new(phi, &ship, &rocks, &blasts, wave()).unwrap()
}

fn quiet() -> Draws {
    Draws { spawn: 1, fps: 0, y: 0, vel: 0 }
}

fn asteroid_at(game: &GameView, phi: &Phi, x: i64, y: i64, vel: i64) -> Asteroid {
    let mut asteroid = game.asteroid_factory.with_draws(phi, 0, 0, 0);
    asteroid.rect.x = x;
    asteroid.rect.y = y;
    asteroid.vel = vel;
    asteroid
}

fn straight(x: i64, y: i64) -> Bullet {
    Bullet::Rect { rect: Rectangle { x, y, w: BULLET_W, h: BULLET_H } }
}

#[test]
fn a_new_game_has_a_player_with_all_lives_and_nothing_else() {
    let phi = window();
    let game = new_game(&phi);
    assert_eq!(game.player.lives, 3);
    assert_eq!(PLAYER_MAX_LIVES, 3);
    assert_eq!(
        game.player.rect,
        Rectangle { x: 64 * UNIT, y: 280_500_000, w: PLAYER_W, h: PLAYER_H }
    );
    assert_eq!(game.player.current, PlayerFrame::MidNorm);
    assert_eq!(game.player.cannon, CannonType::RectBullet);
    assert_eq!(game.player.sprites.len(), 9);
    for (place, sprite) in game.player.sprites.iter().enumerate() {
        let (col, row) = ((place % 3) as i64, (place / 3) as i64);
        assert_eq!(sprite.image, 1);
        assert_eq!(
            sprite.src,
            Rectangle { x: col * PLAYER_W, y: row * PLAYER_H, w: PLAYER_W, h: PLAYER_H }
        );
    }
    assert_eq!(game.asteroid_factory.sprite.current_time(), 0);
    assert_eq!(game.explosion_factory.sprite.current_time(), 0);
    assert_eq!(
        game.asteroid_factory.sprite.current_sprite(),
        Sprite { image: 2, src: Rectangle { x: 0, y: 0, w: ASTEROID_SIDE, h: ASTEROID_SIDE } }
    );
    assert_eq!(
        game.explosion_factory.sprite.current_sprite(),
        Sprite { image: 3, src: Rectangle { x: 0, y: 0, w: EXPLOSION_SIDE, h: EXPLOSION_SIDE } }
    );
    assert_eq!(
        game.player.sprites[5].src,
        Rectangle { x: 2 * PLAYER_W, y: PLAYER_H, w: PLAYER_W, h: PLAYER_H }
    );
    assert!(game.bullets.is_empty() && game.asteroids.is_empty() && game.explosions.is_empty());
    assert_eq!(game.asteroid_factory.sprite.frames(), 143);
    assert_eq!(game.asteroid_factory.sprite.frame_delay(), 1_000_000);
    assert_eq!(game.explosion_factory.sprite.frames(), 17);
    assert_eq!(game.explosion_factory.sprite.frame_delay(), 62_500);
}

#[test]
fn a_game_needs_sheets_that_hold_all_frames() {
    let phi = window();
    let ship = Sprite::new(1, 129, 117);
    let rocks = Sprite::new(2, 2016, 672);
    let blasts = Sprite::new(3, 480, 384);
    assert!(GameView::new(&phi, &Sprite::new(1, 128, 117), &rocks, &blasts, wave()).is_none());
    assert!(GameView::new(&phi, &ship, &Sprite::new(2, 2016, 671), &blasts, wave()).is_none());
    assert!(GameView::new(&phi, &ship, &rocks, &Sprite::new(3, 479, 384), wave()).is_none());
    assert!(GameView::new(&phi, &ship, &rocks, &Sprite::new(3, 480, 383), wave_of_one()).is_none());
    assert!(Player::new(&phi, &Sprite::new(1, 129, 116)).is_none());
    assert!(Asteroid::factory(&rocks).is_some());
    assert!(Explosion::factory(&blasts).is_some());
    assert!(Explosion::factory(&rocks).is_some());
    assert!(Asteroid::factory(&blasts).is_none());
}

fn wave_of_one() -> SineTable {
    SineTable::new(vec![0]).unwrap()
}

#[test]
fn a_player_at_rest_stays_where_it_is_in_the_level_frame() {
    let mut phi = window();
    let mut game = new_game(&phi);
    game.player.rect = Rectangle { x: 64 * UNIT, y: 280 * UNIT, w: PLAYER_W, h: PLAYER_H };
    game.player.current = PlayerFrame::DownFast;
    let action = game.render_with(&mut phi, 0, quiet());
    assert_eq!(action, ViewAction::Continue);
    assert_eq!(
        game.player.rect,
        Rectangle { x: 64 * UNIT, y: 280 * UNIT, w: PLAYER_W, h: PLAYER_H }
    );
    assert_eq!(game.player.current, PlayerFrame::MidNorm);
    assert_eq!(game.player.lives, 3);
    let action = game.render_with(&mut phi, TICK, quiet());
    assert_eq!(action, ViewAction::Continue);
    assert_eq!(game.player.rect.x, 64 * UNIT);
    assert_eq!(game.player.rect.y, 280 * UNIT);
    assert_eq!(game.player.current, PlayerFrame::MidNorm);
}

#[test]
fn held_keys_without_time_do_not_move_the_player() {
    let mut phi = window();
    let mut game = new_game(&phi);
    phi.events.key_right = true;
    phi.events.key_down = true;
    let before = game.player.rect;
    game.player.update(&phi, 0);
    assert_eq!(game.player.rect, before);
    assert_eq!(game.player.current, PlayerFrame::MidNorm);
}

#[test]
fn the_player_moves_at_its_speed_along_an_axis() {
    let mut phi = window();
    let mut game = new_game(&phi);
    phi.events.key_right = true;
    game.player.update(&phi, TICK);
    assert_eq!(game.player.rect.x, 64 * UNIT + 1_800_000);
    assert_eq!(game.player.rect.y, 280_500_000);
    assert_eq!(game.player.current, PlayerFrame::MidFast);
    phi.events.key_right = false;
    phi.events.key_left = true;
    game.player.update(&phi, TICK);
    assert_eq!(game.player.rect.x, 64 * UNIT);
    assert_eq!(game.player.current, PlayerFrame::MidSlow);
    phi.events.key_left = false;
    phi.events.key_up = true;
    game.player.update(&phi, TICK);
    assert_eq!(game.player.rect.y, 280_500_000 - 1_800_000);
    assert_eq!(game.player.current, PlayerFrame::UpNorm);
    phi.events.key_up = false;
    phi.events.key_down = true;
    game.player.update(&phi, 2 * TICK);
    assert_eq!(game.player.rect.y, 280_500_000 + 1_800_000);
    assert_eq!(game.player.current, PlayerFrame::DownNorm);
}

#[test]
fn opposite_keys_cancel() {
    let mut phi = window();
    let mut game = new_game(&phi);
    phi.events.key_right = true;
    phi.events.key_left = true;
    phi.events.key_up = true;
    game.player.update(&phi, TICK);
    assert_eq!(game.player.rect.x, 64 * UNIT);
    assert_eq!(game.player.rect.y, 280_500_000 - 1_800_000);
    assert_eq!(game.player.current, PlayerFrame::UpNorm);
    phi.events.key_down = true;
    game.player.update(&phi, TICK);
    assert_eq!(game.player.rect.y, 280_500_000 - 1_800_000);
    assert_eq!(game.player.current, PlayerFrame::MidNorm);
}

#[test]
fn a_diagonal_move_is_as_long_as_one_along_an_axis() {
    assert_eq!(diagonal(1_800_000), 1_272_792);
    assert_eq!(diagonal(-1_800_000), -1_272_792);
    assert_eq!(diagonal(0), 0);
    assert_eq!(diagonal(1), 0);
    assert_eq!(diagonal(2), 1);
    assert_eq!(diagonal(10), 7);
    assert_eq!(diagonal(i64::MAX), 6_521_908_912_666_391_105);
    for way in [3i64, 17, 1_000, 1_800_000, 123_456_789] {
        let share = diagonal(way) as i128;
        let way = way as i128;
        assert!(2 * share * share <= way * way);
        assert!(2 * (share + 1) * (share + 1) > way * way);
    }
    let mut phi = window();
    let mut game = new_game(&phi);
    phi.events.key_right = true;
    phi.events.key_down = true;
    game.player.update(&phi, TICK);
    assert_eq!(game.player.rect.x, 64 * UNIT + 1_272_792);
    assert_eq!(game.player.rect.y, 280_500_000 + 1_272_792);
    assert_eq!(game.player.current, PlayerFrame::DownFast);
    phi.events.key_right = false;
    phi.events.key_down = false;
    phi.events.key_left = true;
    phi.events.key_up = true;
    game.player.update(&phi, TICK);
    assert_eq!(game.player.rect.x, 64 * UNIT);
    assert_eq!(game.player.rect.y, 280_500_000);
    assert_eq!(game.player.current, PlayerFrame::UpSlow);
}

#[test]
fn the_frame_follows_the_direction() {
    assert_eq!(PlayerFrame::for_motion(0, -1), PlayerFrame::UpNorm);
    assert_eq!(PlayerFrame::for_motion(1, -1), PlayerFrame::UpFast);
    assert_eq!(PlayerFrame::for_motion(-1, -1), PlayerFrame::UpSlow);
    assert_eq!(PlayerFrame::for_motion(0, 0), PlayerFrame::MidNorm);
    assert_eq!(PlayerFrame::for_motion(1, 0), PlayerFrame::MidFast);
    assert_eq!(PlayerFrame::for_motion(-1, 0), PlayerFrame::MidSlow);
    assert_eq!(PlayerFrame::for_motion(0, 1), PlayerFrame::DownNorm);
    assert_eq!(PlayerFrame::for_motion(1, 1), PlayerFrame::DownFast);
    assert_eq!(PlayerFrame::for_motion(-1, 1), PlayerFrame::DownSlow);
    let all = [
        PlayerFrame::UpNorm,
        PlayerFrame::UpFast,
        PlayerFrame::UpSlow,
        PlayerFrame::MidNorm,
        PlayerFrame::MidFast,
        PlayerFrame::MidSlow,
        PlayerFrame::DownNorm,
        PlayerFrame::DownFast,
        PlayerFrame::DownSlow,
    ];
    for (place, frame) in all.iter().enumerate() {
        assert_eq!(frame.index(), place);
    }
}

#[test]
fn the_player_stays_in_the_left_seven_tenths_of_the_window() {
    let mut phi = window();
    let mut game = new_game(&phi);
    phi.events.key_right = true;
    game.player.update(&phi, 10_000_000);
    assert_eq!(game.player.rect.x, 560 * UNIT - PLAYER_W);
    assert_eq!(game.player.current, PlayerFrame::MidFast);
    phi.events.key_right = false;
    phi.events.key_left = true;
    phi.events.key_up = true;
    game.player.update(&phi, 50_000_000_000_000_000);
    assert_eq!((game.player.rect.x, game.player.rect.y), (0, 0));
    assert_eq!(game.player.current, PlayerFrame::UpSlow);
    phi.events.key_up = false;
    phi.events.key_left = false;
    phi.events.key_down = true;
    game.player.update(&phi, 10_000_000);
    assert_eq!(game.player.rect.y, 600 * UNIT - PLAYER_H);
    game.player.update(&phi, -50_000_000_000_000_000);
    assert_eq!(game.player.rect.y, 0);
    assert_eq!(game.player.current, PlayerFrame::UpNorm);
}

#[test]
fn any_time_may_pass_in_a_tick() {
    let mut phi = window();
    let mut game = new_game(&phi);
    phi.events.key_right = true;
    phi.events.key_down = true;
    game.player.update(&phi, i64::MAX);
    assert_eq!(
        (game.player.rect.x, game.player.rect.y),
        (560 * UNIT - PLAYER_W, 600 * UNIT - PLAYER_H)
    );
    assert_eq!(game.player.current, PlayerFrame::DownFast);
    game.player.update(&phi, i64::MIN);
    assert_eq!((game.player.rect.x, game.player.rect.y), (0, 0));
    assert_eq!(game.player.current, PlayerFrame::UpSlow);
    phi.events.key_down = false;
    game.player.update(&phi, 51_240_955_760_304_311);
    assert_eq!((game.player.rect.x, game.player.rect.y), (560 * UNIT - PLAYER_W, 0));
    assert_eq!(game.player.current, PlayerFrame::MidFast);
    phi.events.key_right = false;
    game.player.update(&phi, i64::MAX);
    assert_eq!((game.player.rect.x, game.player.rect.y), (560 * UNIT - PLAYER_W, 0));
    assert_eq!(game.player.current, PlayerFrame::MidNorm);
    phi.events.key_left = true;
    phi.events.key_down = true;
    game.player.update(&phi, 51_240_955_760_304_310);
    assert_eq!((game.player.rect.x, game.player.rect.y), (0, 600 * UNIT - PLAYER_H));
    assert_eq!(game.player.current, PlayerFrame::DownSlow);
    game.bullets.push(straight(10 * UNIT, 10 * UNIT));
    assert_eq!(game.render_with(&mut phi, i64::MAX, quiet()), ViewAction::Continue);
    assert!(game.bullets.is_empty());
    assert_eq!(game.render_with(&mut phi, i64::MIN, quiet()), ViewAction::Continue);
    assert_eq!((game.player.rect.x, game.player.rect.y), (560 * UNIT - PLAYER_W, 0));
    assert_eq!(game.player.lives, 3);
}

#[test]
fn the_keys_one_to_three_switch_the_weapon() {
    let mut phi = window();
    let mut game = new_game(&phi);
    phi.events.now.key_2 = Some(true);
    game.player.update(&phi, TICK);
    assert_eq!(
        game.player.cannon,
        CannonType::SineBullet { amplitude: 10 * UNIT, angular_vel: 15 }
    );
    phi.events.now.key_2 = Some(false);
    game.player.update(&phi, TICK);
    assert_eq!(
        game.player.cannon,
        CannonType::SineBullet { amplitude: 10 * UNIT, angular_vel: 15 }
    );
    phi.events.now.key_2 = None;
    phi.events.now.key_3 = Some(true);
    game.player.update(&phi, TICK);
    assert_eq!(game.player.cannon, CannonType::DivergentBullet { a: 100 * UNIT, b: 1_200_000 });
    phi.events.now.key_1 = Some(true);
    phi.events.now.key_2 = Some(true);
    game.player.update(&phi, TICK);
    assert_eq!(game.player.cannon, CannonType::DivergentBullet { a: 100 * UNIT, b: 1_200_000 });
    phi.events.now.key_3 = None;
    game.player.update(&phi, TICK);
    assert_eq!(
        game.player.cannon,
        CannonType::SineBullet { amplitude: 10 * UNIT, angular_vel: 15 }
    );
    phi.events.now.key_2 = None;
    game.player.update(&phi, TICK);
    assert_eq!(game.player.cannon, CannonType::RectBullet);
}

#[test]
fn firing_straight_spawns_two_bullets_at_the_cannons() {
    let mut phi = window();
    let mut game = new_game(&phi);
    game.player.rect = Rectangle { x: 100 * UNIT, y: 100 * UNIT, w: PLAYER_W, h: PLAYER_H };
    assert_eq!(
        game.player.spawn_bullets(),
        vec![straight(130 * UNIT, 106 * UNIT), straight(130 * UNIT, 129 * UNIT)]
    );
    phi.events.now.key_space = Some(true);
    assert_eq!(game.render_with(&mut phi, 0, quiet()), ViewAction::Continue);
    assert_eq!(
        game.bullets,
        vec![straight(130 * UNIT, 106 * UNIT), straight(130 * UNIT, 129 * UNIT)]
    );
    phi.events.now.key_space = None;
    for tick in 1..=3 {
        assert_eq!(game.render_with(&mut phi, TICK, quiet()), ViewAction::Continue);
        assert_eq!(
            game.bullets,
            vec![
                straight(130 * UNIT + tick * 2_400_000, 106 * UNIT),
                straight(130 * UNIT + tick * 2_400_000, 129 * UNIT),
            ]
        );
    }
}

#[test]
fn a_weapon_switch_takes_effect_on_the_shot_of_the_same_tick() {
    let mut phi = window();
    let mut game = new_game(&phi);
    phi.events.now.key_3 = Some(true);
    phi.events.now.key_space = Some(true);
    assert_eq!(game.render_with(&mut phi, 0, quiet()), ViewAction::Continue);
    assert_eq!(game.bullets.len(), 2);
    assert!(matches!(game.bullets[0], Bullet::Divergent { a: -100_000_000, .. }));
    assert!(matches!(game.bullets[1], Bullet::Divergent { a: 100_000_000, .. }));
    phi.events.now.key_space = Some(false);
    assert_eq!(game.render_with(&mut phi, TICK, quiet()), ViewAction::Continue);
    assert_eq!(game.bullets.len(), 2);
}

#[test]
fn an_asteroid_drifts_left_and_its_animation_moves_on() {
    let phi = window();
    let game = new_game(&phi);
    let asteroid = asteroid_at(&game, &phi, 500 * UNIT, 40 * UNIT, 120);
    let next = asteroid.update(TICK).unwrap();
    assert_eq!(
        next.rect,
        Rectangle { x: 500 * UNIT - 1_200_000, y: 40 * UNIT, w: ASTEROID_SIDE, h: ASTEROID_SIDE }
    );
    assert_eq!(next.vel, 120);
    assert_eq!(next.sprite.current_time(), TICK);
    assert_eq!(next.rect(), next.rect);
}

#[test]
fn an_asteroid_wholly_off_the_left_edge_is_removed_by_the_next_update() {
    let phi = window();
    let game = new_game(&phi);
    for vel in [0i64, 1, 50, 149, 1_000_000] {
        for dt in [0i64, 1, TICK] {
            let asteroid = asteroid_at(&game, &phi, -ASTEROID_SIDE, 40 * UNIT, vel);
            assert!(asteroid.update(dt).is_none());
        }
    }
    let asteroid = asteroid_at(&game, &phi, -ASTEROID_SIDE, 40 * UNIT, -77);
    assert!(asteroid.update(0).is_none());
    let asteroid = asteroid_at(&game, &phi, -ASTEROID_SIDE + 1, 40 * UNIT, 50);
    assert!(asteroid.update(0).is_some());
    let asteroid = asteroid_at(&game, &phi, -ASTEROID_SIDE + 500_000, 40 * UNIT, 50);
    assert!(asteroid.update(TICK).is_none());
    let asteroid = asteroid_at(&game, &phi, -ASTEROID_SIDE + 500_001, 40 * UNIT, 50);
    assert!(asteroid.update(TICK).is_some());
}

#[test]
fn an_asteroid_off_the_left_edge_is_gone_from_the_game_after_a_tick() {
    let mut phi = window();
    let mut game = new_game(&phi);
    let gone = asteroid_at(&game, &phi, -ASTEROID_SIDE, 40 * UNIT, 99);
    let stays = asteroid_at(&game, &phi, 700 * UNIT, 400 * UNIT, 99);
    game.asteroids.push(gone);
    game.asteroids.push(stays);
    assert_eq!(game.render_with(&mut phi, TICK, quiet()), ViewAction::Continue);
    assert_eq!(game.asteroids.len(), 1);
    assert_eq!(game.asteroids[0].rect.x, 700 * UNIT - 990_000);
    assert!(game.explosions.is_empty());
    assert_eq!(game.player.lives, 3);
}

#[test]
fn an_asteroid_whose_state_cannot_be_represented_is_dropped() {
    let phi = window();
    let game = new_game(&phi);
    let asteroid = asteroid_at(&game, &phi, 0, 0, i64::MIN);
    assert!(asteroid.update(i64::MAX).is_none());
    let asteroid = asteroid_at(&game, &phi, i64::MAX - ASTEROID_SIDE, 0, -1);
    assert!(asteroid.update(1).is_none());
    let asteroid = asteroid_at(&game, &phi, i64::MAX - ASTEROID_SIDE, 0, -1);
    assert!(asteroid.update(0).is_some());
}

#[test]
fn an_asteroid_or_explosion_with_an_old_clock_goes_on() {
    let phi = window();
    let game = new_game(&phi);
    let mut asteroid = asteroid_at(&game, &phi, 500 * UNIT, 40 * UNIT, 100);
    asteroid.sprite.add_time(i64::MAX);
    let next = asteroid.update(TICK).unwrap();
    assert_eq!(next.rect.x, 499 * UNIT);
    assert!(next.sprite.current_time() >= 0);
    assert_eq!(next.sprite.current_time(), (i64::MAX as i128 + 10_000).rem_euclid(143 * 100_000) as i64);
    let mut blast = game.explosion_factory.at_center((200 * UNIT, 300 * UNIT));
    blast.sprite.add_time(i64::MAX);
    let next = blast.update(TICK).unwrap();
    assert_eq!(next.alive_since, TICK);
    assert_eq!(next.sprite.current_time(), (i64::MAX as i128 + 10_000).rem_euclid(17 * 62_500) as i64);
}

#[test]
fn an_explosion_lasts_as_long_as_its_animation() {
    let phi = window();
    let game = new_game(&phi);
    assert_eq!(EXPLOSION_DURATION, 17 * 62_500);
    let blast = game.explosion_factory.at_center((200 * UNIT, 300 * UNIT));
    assert_eq!(
        blast.rect,
        Rectangle { x: 152 * UNIT, y: 252 * UNIT, w: EXPLOSION_SIDE, h: EXPLOSION_SIDE }
    );
    assert_eq!(blast.alive_since, 0);
    let blast = blast.update(1_062_499).unwrap();
    assert_eq!(blast.alive_since, 1_062_499);
    assert_eq!(blast.sprite.current_time(), 1_062_499);
    assert_eq!(blast.sprite.current_frame(), 16);
    let blast = blast.update(1).unwrap();
    assert_eq!(blast.alive_since, EXPLOSION_DURATION);
    assert_eq!(blast.rect.x, 152 * UNIT);
    assert!(blast.update(1).is_none());
    let blast = game.explosion_factory.at_center((200 * UNIT, 300 * UNIT));
    assert_eq!(blast.update(EXPLOSION_DURATION).unwrap().alive_since, EXPLOSION_DURATION);
    let blast = game.explosion_factory.at_center((200 * UNIT, 300 * UNIT));
    assert!(blast.update(EXPLOSION_DURATION + 1).is_none());
    let blast = game.explosion_factory.at_center((200 * UNIT, 300 * UNIT));
    let blast = blast.update(-TICK).unwrap();
    assert_eq!(blast.alive_since, -TICK);
    assert_eq!(blast.sprite.current_time(), 16 * 62_500);
}

#[test]
fn every_entity_moves_on_and_the_expired_are_dropped_in_order() {
    let phi = window();
    let game = new_game(&phi);
    let w = wave();
    let bullets = vec![
        straight(10 * UNIT, 5 * UNIT),
        straight(800 * UNIT, 6 * UNIT),
        straight(20 * UNIT, 7 * UNIT),
    ];
    assert_eq!(
        move_bullets(&bullets, &phi, TICK, &w),
        vec![straight(12_400_000, 5 * UNIT), straight(22_400_000, 7 * UNIT)]
    );
    let asteroids = vec![
        asteroid_at(&game, &phi, 300 * UNIT, 0, 100),
        asteroid_at(&game, &phi, -ASTEROID_SIDE, 0, 100),
        asteroid_at(&game, &phi, 200 * UNIT, 0, 50),
    ];
    let moved = move_asteroids(asteroids, TICK);
    let places: Vec<i64> = moved.iter().map(|a| a.rect.x).collect();
    assert_eq!(places, vec![299 * UNIT, 200 * UNIT - 500_000]);
    let mut old = game.explosion_factory.at_center((0, 0));
    old.alive_since = 1_060_000;
    let explosions = vec![
        game.explosion_factory.at_center((50 * UNIT, 50 * UNIT)),
        old,
        game.explosion_factory.at_center((90 * UNIT, 90 * UNIT)),
    ];
    let moved = move_explosions(explosions, TICK);
    let ages: Vec<(i64, i64)> = moved.iter().map(|e| (e.rect.x, e.alive_since)).collect();
    assert_eq!(ages, vec![(2 * UNIT, TICK), (42 * UNIT, TICK)]);
}

#[test]
fn a_destroyed_asteroid_leaves_an_explosion_centered_on_it() {
    let phi = window();
    let game = new_game(&phi);
    let asteroids = vec![
        asteroid_at(&game, &phi, 300 * UNIT, 100 * UNIT, 100),
        asteroid_at(&game, &phi, 500 * UNIT, 300 * UNIT, 100),
        asteroid_at(&game, &phi, 40 * UNIT, 250 * UNIT, 100),
    ];
    let bullets = vec![
        straight(510 * UNIT, 310 * UNIT),
        straight(700 * UNIT, 10 * UNIT),
        straight(590 * UNIT, 390 * UNIT),
    ];
    let before = vec![game.explosion_factory.at_center((0, 0))];
    let player = Rectangle { x: 64 * UNIT, y: 280 * UNIT, w: PLAYER_W, h: PLAYER_H };
    let struck = strike(asteroids, bullets, before, player, &wave(), &game.explosion_factory);
    assert!(struck.player_hit);
    assert_eq!(struck.bullets, vec![straight(700 * UNIT, 10 * UNIT)]);
    let left: Vec<Rectangle> = struck.asteroids.iter().map(|a| a.rect).collect();
    assert_eq!(
        left,
        vec![Rectangle { x: 300 * UNIT, y: 100 * UNIT, w: ASTEROID_SIDE, h: ASTEROID_SIDE }]
    );
    let blasts: Vec<(Rectangle, i64)> =
        struck.explosions.iter().map(|e| (e.rect, e.alive_since)).collect();
    assert_eq!(
        blasts,
        vec![
            (Rectangle { x: -48 * UNIT, y: -48 * UNIT, w: EXPLOSION_SIDE, h: EXPLOSION_SIDE }, 0),
            (Rectangle { x: 500 * UNIT, y: 300 * UNIT, w: EXPLOSION_SIDE, h: EXPLOSION_SIDE }, 0),
            (Rectangle { x: 40 * UNIT, y: 250 * UNIT, w: EXPLOSION_SIDE, h: EXPLOSION_SIDE }, 0),
        ]
    );
    assert!(struck.explosions.iter().all(|e| e.sprite.frames() == 17));
}

#[test]
fn one_hit_takes_one_life_even_with_two_bullets_in_the_asteroid() {
    let mut phi = window();
    let mut game = new_game(&phi);
    let rock = asteroid_at(&game, &phi, 60 * UNIT, 270 * UNIT, 0);
    game.asteroids.push(rock);
    game.bullets.push(straight(70 * UNIT, 275 * UNIT));
    game.bullets.push(straight(100 * UNIT, 300 * UNIT));
    game.bullets.push(straight(400 * UNIT, 300 * UNIT));
    assert_eq!(game.render_with(&mut phi, 0, quiet()), ViewAction::Continue);
    assert_eq!(game.player.lives, 2);
    assert!(game.asteroids.is_empty());
    assert_eq!(game.bullets, vec![straight(400 * UNIT, 300 * UNIT)]);
    assert_eq!(game.explosions.len(), 1);
    assert_eq!(
        game.explosions[0].rect,
        Rectangle { x: 60 * UNIT, y: 270 * UNIT, w: EXPLOSION_SIDE, h: EXPLOSION_SIDE }
    );
}

#[test]
fn two_asteroids_that_share_a_bullet_are_both_destroyed() {
    let mut phi = window();
    let mut game = new_game(&phi);
    let first = asteroid_at(&game, &phi, 250 * UNIT, 250 * UNIT, 0);
    let second = asteroid_at(&game, &phi, 260 * UNIT, 260 * UNIT, 0);
    game.player.rect.y = 0;
    game.asteroids.push(first);
    game.asteroids.push(second);
    game.bullets.push(straight(300 * UNIT, 300 * UNIT));
    assert_eq!(game.render_with(&mut phi, 0, quiet()), ViewAction::Continue);
    assert!(game.asteroids.is_empty());
    assert!(game.bullets.is_empty());
    assert_eq!(game.player.lives, 3);
    let blasts: Vec<(i64, i64)> = game.explosions.iter().map(|e| (e.rect.x, e.rect.y)).collect();
    assert_eq!(blasts, vec![(250 * UNIT, 250 * UNIT), (260 * UNIT, 260 * UNIT)]);
}

#[test]
fn a_quit_or_escape_tick_asks_nothing_of_the_window_or_the_time() {
    let mut small = Phi::new(Events::new(), DrawList::new(10, 10));
    let mut game = new_game(&window());
    small.events.now.quit = true;
    assert_eq!(game.render_with(&mut small, i64::MAX, quiet()), ViewAction::Quit);
    assert_eq!(game.render(&mut small, i64::MIN), ViewAction::Quit);
    small.events.now.quit = false;
    small.events.now.key_escape = Some(true);
    assert_eq!(
        game.render(&mut small, i64::MAX),
        ViewAction::ChangeView(ViewId::MainMenu)
    );
    assert_eq!(game.player.lives, 3);
    assert_eq!(game.player.rect.x, 64 * UNIT);
    assert_eq!(small.renderer.len(), 0);
}

#[test]
fn several_asteroids_on_the_player_take_one_life_and_are_all_destroyed() {
    let mut phi = window();
    let mut game = new_game(&phi);
    for offset in [0i64, 10, 20] {
        let rock = asteroid_at(&game, &phi, (60 + offset) * UNIT, 270 * UNIT, 0);
        game.asteroids.push(rock);
    }
    assert_eq!(game.render_with(&mut phi, TICK, quiet()), ViewAction::Continue);
    assert_eq!(game.player.lives, 2);
    assert!(game.asteroids.is_empty());
    assert_eq!(game.explosions.len(), 3);
}

#[test]
fn a_tick_without_a_hit_takes_no_life() {
    let mut phi = window();
    let mut game = new_game(&phi);
    let rock = asteroid_at(&game, &phi, 400 * UNIT, 0, 100);
    game.asteroids.push(rock);
    game.bullets.push(straight(410 * UNIT, 10 * UNIT));
    assert_eq!(game.render_with(&mut phi, TICK, quiet()), ViewAction::Continue);
    assert_eq!(game.player.lives, 3);
    assert!(game.asteroids.is_empty() && game.bullets.is_empty());
    assert_eq!(game.explosions.len(), 1);
}

#[test]
fn the_third_hit_leads_to_the_menu_and_no_tick_before_it() {
    let mut phi = window();
    let mut game = new_game(&phi);
    for lives_left in [2usize, 1] {
        let rock = asteroid_at(&game, &phi, 60 * UNIT, 270 * UNIT, 0);
        game.asteroids.push(rock);
        assert_eq!(game.render_with(&mut phi, TICK, quiet()), ViewAction::Continue);
        assert_eq!(game.player.lives, lives_left);
        assert_eq!(game.render_with(&mut phi, TICK, quiet()), ViewAction::Continue);
        assert_eq!(game.player.lives, lives_left);
    }
    let rock = asteroid_at(&game, &phi, 60 * UNIT, 270 * UNIT, 0);
    game.asteroids.push(rock);
    phi.renderer.take();
    assert_eq!(
        game.render_with(&mut phi, TICK, quiet()),
        ViewAction::ChangeView(ViewId::MainMenu)
    );
    assert_eq!(game.player.lives, 0);
    assert_eq!(phi.renderer.len(), 0);
}

#[test]
fn closing_the_window_ends_the_program_at_once() {
    let mut phi = window();
    let mut game = new_game(&phi);
    let rock = asteroid_at(&game, &phi, 60 * UNIT, 270 * UNIT, 10);
    game.asteroids.push(rock);
    phi.events.now.quit = true;
    phi.events.now.key_escape = Some(true);
    phi.events.now.key_space = Some(true);
    phi.events.key_right = true;
    assert_eq!(game.render_with(&mut phi, TICK, Draws { spawn: 0, ..quiet() }), ViewAction::Quit);
    assert_eq!(game.player.lives, 3);
    assert_eq!(game.player.rect.x, 64 * UNIT);
    assert_eq!(game.asteroids.len(), 1);
    assert_eq!(game.asteroids[0].rect.x, 60 * UNIT);
    assert!(game.bullets.is_empty() && game.explosions.is_empty());
    assert_eq!(phi.renderer.len(), 0);
}

#[test]
fn escape_leads_to_the_menu_at_once() {
    let mut phi = window();
    let mut game = new_game(&phi);
    let rock = asteroid_at(&game, &phi, 60 * UNIT, 270 * UNIT, 10);
    game.asteroids.push(rock);
    phi.events.now.key_escape = Some(true);
    phi.events.now.key_space = Some(true);
    assert_eq!(
        game.render_with(&mut phi, TICK, Draws { spawn: 0, ..quiet() }),
        ViewAction::ChangeView(ViewId::MainMenu)
    );
    assert_eq!(game.player.lives, 3);
    assert_eq!(game.asteroids.len(), 1);
    assert!(game.bullets.is_empty());
    assert_eq!(phi.renderer.len(), 0);
    phi.events.now.key_escape = Some(false);
    phi.events.now.key_space = None;
    phi.events.key_escape = true;
    assert_eq!(game.render_with(&mut phi, 0, quiet()), ViewAction::Continue);
}

#[test]
fn an_asteroid_comes_in_when_the_draw_is_a_multiple_of_ten() {
    let mut phi = window();
    let mut game = new_game(&phi);
    let draws = Draws { spawn: 40, fps: 45, y: 1_000_000_000_123, vel: 777 };
    assert_eq!(game.render_with(&mut phi, TICK, draws), ViewAction::Continue);
    assert_eq!(game.asteroids.len(), 1);
    let rock = &game.asteroids[0];
    assert_eq!(
        rock.rect,
        Rectangle {
            x: 800 * UNIT,
            y: 1_000_000_000_123 % (504 * UNIT + 1),
            w: ASTEROID_SIDE,
            h: ASTEROID_SIDE
        }
    );
    assert_eq!(rock.vel, 127);
    assert_eq!(rock.sprite.frame_delay(), 1_000_000 / 15);
    assert_eq!(rock.sprite.current_time(), 0);
    assert_eq!(rock.sprite.frames(), 143);
    for spawn in [1u64, 9, 11, 19, 12_345] {
        assert_eq!(
            game.render_with(&mut phi, 0, Draws { spawn, ..draws }),
            ViewAction::Continue
        );
        assert_eq!(game.asteroids.len(), 1);
    }
    assert_eq!(
        game.render_with(&mut phi, 0, Draws { spawn: 0, fps: 19, y: 504 * 1_000_000, vel: 99 }),
        ViewAction::Continue
    );
    assert_eq!(game.asteroids.len(), 2);
    assert_eq!(game.asteroids[1].rect.y, 504 * UNIT);
    assert_eq!(game.asteroids[1].vel, 149);
    assert_eq!(game.asteroids[1].sprite.frame_delay(), 1_000_000 / 29);
}

#[test]
fn a_random_asteroid_is_within_its_ranges() {
    let phi = window();
    let game = new_game(&phi);
    let mut speeds = Vec::new();
    for _ in 0..200 {
        let rock = game.asteroid_factory.random(&phi);
        assert_eq!(rock.rect.x, 800 * UNIT);
        assert!(0 <= rock.rect.y && rock.rect.y <= 504 * UNIT);
        assert_eq!((rock.rect.w, rock.rect.h), (ASTEROID_SIDE, ASTEROID_SIDE));
        assert!(50 <= rock.vel && rock.vel < 150);
        let delay = rock.sprite.frame_delay();
        assert!(1_000_000 / 29 <= delay && delay <= 100_000);
        assert_eq!(rock.sprite.current_time(), 0);
        speeds.push((rock.vel, rock.rect.y, delay));
    }
    speeds.sort();
    speeds.dedup();
    assert!(speeds.len() > 1);
    assert_eq!(game.asteroid_factory.sprite.frame_delay(), 1_000_000);
}

#[test]
fn a_game_left_to_itself_goes_on_and_fills_with_asteroids() {
    let mut phi = window();
    let mut game = new_game(&phi);
    game.player.rect.y = 0;
    let mut seen = 0;
    for _ in 0..400 {
        let before = game.asteroids.len();
        let action = game.render(&mut phi, 0);
        if action != ViewAction::Continue {
            assert_eq!(action, ViewAction::ChangeView(ViewId::MainMenu));
            assert_eq!(game.player.lives, 0);
            break;
        }
        assert!(game.asteroids.len() == before || game.asteroids.len() == before + 1);
        seen = game.asteroids.len();
        phi.renderer.take();
    }
    assert!(seen > 0);
}

#[test]
fn an_asteroid_in_a_window_too_low_for_it_begins_at_the_top() {
    let phi = Phi::new(Events::new(), DrawList::new(800, 90));
    let game = new_game(&window());
    let rock = game.asteroid_factory.with_draws(&phi, 3, 987_654_321, 5);
    assert_eq!(rock.rect.y, 0);
    assert_eq!(rock.rect.x, 800 * UNIT);
    assert_eq!(rock.vel, 55);
    assert_eq!(rock.sprite.frame_delay(), 1_000_000 / 13);
}

#[test]
fn the_frame_is_requested_from_back_to_front() {
    let mut phi = window();
    let mut game = new_game(&phi);
    let rock = asteroid_at(&game, &phi, 600 * UNIT, 50 * UNIT, 100);
    game.asteroids.push(rock);
    game.bullets.push(straight(300 * UNIT, 500 * UNIT));
    let blast = game.explosion_factory.at_center((400 * UNIT, 400 * UNIT));
    game.explosions.push(blast);
    assert_eq!(game.render_with(&mut phi, TICK, quiet()), ViewAction::Continue);
    let frame = phi.renderer.take();
    assert_eq!(
        frame,
        vec![
            DrawCall::Clear,
            DrawCall::Background { layer: Layer::Back, elapsed: TICK },
            DrawCall::Background { layer: Layer::Middle, elapsed: TICK },
            DrawCall::Copy {
                sprite: Sprite {
                    image: 1,
                    src: Rectangle { x: 0, y: PLAYER_H, w: PLAYER_W, h: PLAYER_H }
                },
                dest: Rectangle { x: 64 * UNIT, y: 280_500_000, w: PLAYER_W, h: PLAYER_H },
            },
            DrawCall::Fill {
                red: 230,
                green: 230,
                blue: 30,
                rect: Rectangle { x: 302_400_000, y: 500 * UNIT, w: BULLET_W, h: BULLET_H },
            },
            DrawCall::Copy {
                sprite: Sprite {
                    image: 2,
                    src: Rectangle { x: 0, y: 0, w: ASTEROID_SIDE, h: ASTEROID_SIDE }
                },
                dest: Rectangle { x: 599 * UNIT, y: 50 * UNIT, w: ASTEROID_SIDE, h: ASTEROID_SIDE },
            },
            DrawCall::Copy {
                sprite: Sprite {
                    image: 3,
                    src: Rectangle { x: 0, y: 0, w: EXPLOSION_SIDE, h: EXPLOSION_SIDE }
                },
                dest: Rectangle {
                    x: 352 * UNIT,
                    y: 352 * UNIT,
                    w: EXPLOSION_SIDE,
                    h: EXPLOSION_SIDE
                },
            },
            DrawCall::Background { layer: Layer::Front, elapsed: TICK },
        ]
    );
}

#[test]
fn an_empty_game_is_drawn_as_backgrounds_and_player() {
    let mut phi = window();
    let game = new_game(&phi);
    game.draw(&mut phi, 7);
    let frame = phi.renderer.take();
    assert_eq!(frame.len(), 5);
    assert_eq!(frame[0], DrawCall::Clear);
    assert_eq!(frame[4], DrawCall::Background { layer: Layer::Front, elapsed: 7 });
    game.player.render(&mut phi);
    assert_eq!(phi.renderer.take(), vec![frame[3]]);
}
