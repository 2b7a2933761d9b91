use coinfall::coin::{Coin, CoinType};
use coinfall::coinspawner::{CoinSpawner, ItemSet, COIN_RADIUS, SPAWN_BATCH, SPAWN_INTERVAL_MS};
use coinfall::geometry::{Point, Rect, Vector};
use coinfall::sprites::{normalize, normalize_point, normalize_rect, SpriteDraw, TEXTURE_UNIT};

fn spawner() -> CoinSpawner {
    CoinSpawner::new(ItemSet::new(1000, 500), 800, 600, 500)
}

fn still_coin(x: i64, y: i64, coin_type: CoinType) -> Coin {
    Coin::new(Point { x, y }, Vector { x: 0, y: 0 }, 0, coin_type)
}

#[test]
fn texture_coordinates_are_millionths_of_the_sheet() {
    assert_eq!(TEXTURE_UNIT, 1_000_000);
    assert_eq!(normalize(288, 1000), 288_000);
    assert_eq!(normalize(1, 3), 333_333);
    assert_eq!(normalize(-1, 3), -333_333);
    assert_eq!(normalize(512, 512), 1_000_000);
    assert_eq!(normalize(i64::MAX, 1), i64::MAX);
    assert_eq!(
        normalize_rect(Rect::new(0, 98, 72, 97), 508, 288),
        Rect { x: 0, y: 340_277, w: 141_732, h: 336_805 }
    );
    assert_eq!(normalize_point(Point { x: 323, y: 395 }, 1000, 500), Point { x: 323_000, y: 790_000 });
}

#[test]
fn the_item_set_knows_both_coins() {
    let set = ItemSet::new(1000, 500);
    assert_eq!(set.gold_coin_def, Rect { x: 288_000, y: 720_000, w: 70_000, h: 140_000 });
    assert_eq!(set.gold_coin_center, Point { x: 323_000, y: 790_000 });
    assert_eq!(set.silver_coin_def, Rect { x: 288_000, y: 576_000, w: 70_000, h: 140_000 });
    assert_eq!(set.silver_coin_center, Point { x: 288_000, y: 576_000 });
}

#[test]
fn a_coin_is_drawn_by_its_kind_at_its_place_and_angle() {
    let set = ItemSet::new(1000, 500);
    let mut gold = still_coin(5, 6, CoinType::Gold);
    gold.angle = 77;
    assert_eq!(
        set.sprite(&gold),
        SpriteDraw {
            src: set.gold_coin_def,
            dest: Point { x: 5, y: 6 },
            offset: set.gold_coin_center,
            rotation: 77,
            mirrored: false,
        }
    );
    let silver = still_coin(8, 9, CoinType::Silver);
    assert_eq!(
        set.sprite(&silver),
        SpriteDraw {
            src: set.silver_coin_def,
            dest: Point { x: 8, y: 9 },
            offset: set.silver_coin_center,
            rotation: 0,
            mirrored: false,
        }
    );
}

#[test]
fn a_new_spawner_is_empty_and_due() {
    let s = spawner();
    assert_eq!(s.spawn_timer, 0);
    assert_eq!(s.spawn_time, SPAWN_INTERVAL_MS);
    assert_eq!(s.spawn_time, 100);
    assert!(s.coins.is_empty());
    assert_eq!(s.world_width, 800_000);
    assert_eq!(s.world_height, 600_000);
    assert_eq!(s.ground, 500_000);
    assert_eq!(s.coin_radius, COIN_RADIUS);
    assert_eq!(s.coin_radius, 70_000);
    assert_eq!(s.item_set, ItemSet::new(1000, 500));
}

#[test]
fn an_expired_countdown_spawns_a_batch_of_two() {
    let mut s = spawner();
    s.update(16);
    assert_eq!(SPAWN_BATCH, 2);
    assert_eq!(s.coins.len(), 2);
    assert_eq!(s.spawn_timer, 100);
    for c in &s.coins {
        assert!(c.coin_type == CoinType::Gold || c.coin_type == CoinType::Silver);
    }
}

#[test]
fn the_countdown_goes_down_by_the_time_that_passes() {
    let mut s = spawner();
    s.update(0);
    assert_eq!(s.coins.len(), 2);
    assert_eq!(s.spawn_timer, 100);
    s.update(30);
    assert_eq!(s.spawn_timer, 70);
    assert_eq!(s.coins.len(), 2);
    s.update(69);
    assert_eq!(s.spawn_timer, 1);
    assert_eq!(s.coins.len(), 2);
    s.update(0);
    assert_eq!(s.spawn_timer, 1);
    assert_eq!(s.coins.len(), 2);
    s.update(1);
    assert_eq!(s.spawn_timer, 100);
    assert_eq!(s.coins.len(), 4);
    s.update(u32::MAX);
    assert_eq!(s.spawn_timer, 100);
    assert_eq!(s.coins.len(), 6);
}

#[test]
fn a_reset_makes_the_next_frame_spawn() {
    let mut s = spawner();
    s.update(16);
    s.reset_timer();
    assert_eq!(s.spawn_timer, 1);
    assert_eq!(s.coins.len(), 2);
    s.update(16);
    assert_eq!(s.coins.len(), 4);
    assert_eq!(s.spawn_timer, 100);
}

#[test]
fn every_spawned_coin_is_within_the_spawn_ranges() {
    let mut s = spawner();
    let mut gold = 0;
    let mut right = 0;
    for i in 0..2000 {
        s.spawn_coin();
        assert_eq!(s.coins.len(), i + 1);
        let c = s.coins[i];
        assert_eq!(c.pos.y, -10_000);
        assert!(80_000 <= c.pos.x && c.pos.x < 720_000);
        assert!(-3000 <= c.vel.x && c.vel.x < 3000);
        assert!(3000 <= c.vel.y && c.vel.y < 8000);
        assert_eq!(c.torque, c.vel.x / 100);
        assert_eq!(c.angle, 0);
        assert_eq!(c.bounce_count, 0);
        if c.coin_type == CoinType::Gold {
            gold += 1;
        }
        if c.vel.x > 0 {
            right += 1;
        }
    }
    assert_eq!(s.spawn_timer, 0);
    assert!(gold > 700 && gold < 1300);
    assert!(right > 700 && right < 1300);
}

#[test]
fn spawned_coins_are_stepped_in_the_frame_in_which_they_appear() {
    let mut s = spawner();
    s.update(16);
    for c in &s.coins {
        assert!(c.pos.y >= -10_000 + 3000 && c.pos.y < -10_000 + 8000);
        assert!(c.vel.y >= 4000 && c.vel.y < 9000);
        assert_eq!(c.angle, c.torque);
    }
}

#[test]
fn stepping_keeps_every_coin_on_or_above_the_ground() {
    let mut s = spawner();
    for _ in 0..600 {
        s.update(16);
        for c in &s.coins {
            assert!(c.pos.y + s.coin_radius <= s.ground);
            assert!(c.bounce_count <= 7);
        }
    }
    assert_eq!(s.coins.len(), 172);
    assert_eq!(s.coins[0].bounce_count, 7);
    assert_eq!(s.coins[0].vel.y, 0);
}

#[test]
fn step_coins_steps_each_coin_once_and_spawns_nothing() {
    let mut s = spawner();
    s.coins.push(Coin::new(Point { x: 100_000, y: 0 }, Vector { x: 1000, y: 2000 }, 10, CoinType::Gold));
    s.coins.push(still_coin(200_000, 429_500, CoinType::Silver));
    s.spawn_timer = 40;
    s.step_coins();
    assert_eq!(s.spawn_timer, 40);
    assert_eq!(s.coins.len(), 2);
    assert_eq!(s.coins[0].pos, Point { x: 101_000, y: 2000 });
    assert_eq!(s.coins[0].vel, Vector { x: 1000, y: 3000 });
    assert_eq!(s.coins[0].angle, 10);
    assert_eq!(s.coins[1].pos, Point { x: 200_000, y: 429_500 });
    assert_eq!(s.coins[1].vel, Vector { x: 0, y: 1000 });
    s.step_coins();
    assert_eq!(s.coins[1].pos, Point { x: 200_000, y: 430_000 });
    assert_eq!(s.coins[1].vel, Vector { x: 0, y: -1400 });
    assert_eq!(s.coins[1].bounce_count, 1);
}

#[test]
fn collecting_takes_the_covered_coins_and_keeps_the_rest_in_order() {
    let mut s = spawner();
    let a = still_coin(10, 10, CoinType::Gold);
    let b = still_coin(50, 50, CoinType::Silver);
    let mut c = still_coin(200, 10, CoinType::Gold);
    c.angle = 5;
    c.vel = Vector { x: 3, y: 4 };
    let d = still_coin(100, 100, CoinType::Silver);
    let e = still_coin(101, 100, CoinType::Silver);
    s.coins = vec![a, b, c, d, e];
    s.spawn_timer = 33;
    let taken = s.collect(&Rect::new(40, 40, 60, 60));
    assert_eq!(taken, 2);
    assert_eq!(s.coins, vec![a, c, e]);
    assert_eq!(s.spawn_timer, 33);
    let none = s.collect(&Rect::new(40, 40, 60, 60));
    assert_eq!(none, 0);
    assert_eq!(s.coins, vec![a, c, e]);
    let all = s.collect(&Rect::new(0, 0, 1000, 1000));
    assert_eq!(all, 3);
    assert!(s.coins.is_empty());
    assert_eq!(s.collect(&Rect::new(0, 0, 1000, 1000)), 0);
}

#[test]
fn the_spawner_draws_one_sprite_for_each_coin() {
    let mut s = spawner();
    assert!(s.draw().is_empty());
    let mut gold = still_coin(10, 20, CoinType::Gold);
    gold.angle = 300;
    let silver = still_coin(30, 40, CoinType::Silver);
    s.coins = vec![gold, silver];
    let sprites = s.draw();
    assert_eq!(sprites.len(), 2);
    assert_eq!(sprites[0], s.item_set.sprite(&gold));
    assert_eq!(sprites[1], s.item_set.sprite(&silver));
    assert_eq!(sprites[0].src, Rect { x: 288_000, y: 720_000, w: 70_000, h: 140_000 });
    assert_eq!(sprites[0].rotation, 300);
    assert_eq!(sprites[1].offset, Point { x: 288_000, y: 576_000 });
    assert_eq!(s.coins.len(), 2);
}
