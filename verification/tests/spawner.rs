use dino::config::Cfg;
use dino::random::Generator;
use dino::spawner::{ObstacleSpawner, SpawnTier, SpawnerCurve};
use dino::types::ObstacleType;

fn spawner_at(score: usize) -> ObstacleSpawner {
    let mut spawner = ObstacleSpawner::new(Cfg::default());
    spawner.update_difficulty(score);
    spawner
}

fn is_pterodactyl(kind: ObstacleType) -> bool {
    matches!(
        kind,
        ObstacleType::PterodactylLow | ObstacleType::PterodactylMid | ObstacleType::PterodactylHigh
    )
}

#[test]
fn gaps_at_score_zero_and_at_full_difficulty() {
    assert_eq!(
        SpawnerCurve::at(0),
        SpawnerCurve { min_gap: 50_000_000, max_gap: 120_000_000, difficulty_score: 0 }
    );
    assert_eq!(
        SpawnerCurve::at(1000),
        SpawnerCurve { min_gap: 35_000_000, max_gap: 90_000_000, difficulty_score: 1000 }
    );
}

#[test]
fn gaps_in_between_and_beyond() {
    assert_eq!(SpawnerCurve::at(1).min_gap, 49_985_000);
    assert_eq!(SpawnerCurve::at(1).max_gap, 119_970_000);
    assert_eq!(SpawnerCurve::at(500).min_gap, 42_500_000);
    assert_eq!(SpawnerCurve::at(500).max_gap, 105_000_000);
    assert_eq!(SpawnerCurve::at(999).min_gap, 35_015_000);
    assert_eq!(SpawnerCurve::at(5000).min_gap, 35_000_000);
    assert_eq!(SpawnerCurve::at(usize::MAX).max_gap, 90_000_000);
}

#[test]
fn gaps_never_widen_and_stay_above_their_floor() {
    let mut last = SpawnerCurve::at(0);
    for score in 1..=1200usize {
        let curve = SpawnerCurve::at(score);
        assert!(curve.min_gap <= last.min_gap);
        assert!(curve.max_gap <= last.max_gap);
        assert!(curve.min_gap >= 35_000_000);
        assert!(curve.max_gap >= 90_000_000);
        assert!(curve.min_gap <= curve.max_gap);
        last = curve;
    }
}

#[test]
fn a_new_spawner_is_at_score_zero() {
    let spawner = ObstacleSpawner::new(Cfg::default());
    assert_eq!(spawner.curve(), SpawnerCurve::at(0));
    assert_eq!(spawner.thresholds(), Cfg::default().game);
}

#[test]
fn difficulty_follows_the_score() {
    let mut spawner = ObstacleSpawner::new(Cfg::default());
    spawner.update_difficulty(250);
    assert_eq!(spawner.curve(), SpawnerCurve::at(250));
    assert_eq!(spawner.curve().min_gap, 46_250_000);
    spawner.update_difficulty(0);
    assert_eq!(spawner.curve().min_gap, 50_000_000);
}

#[test]
fn next_obstacle_is_due_left_of_the_least_gap() {
    let spawner = spawner_at(0);
    let width = 80_000_000;
    assert!(!spawner.should_spawn(30_000_000, width));
    assert!(spawner.should_spawn(29_999_999, width));
    assert!(!spawner.should_spawn(130_000_000, width));
    let hard = spawner_at(1000);
    assert!(!hard.should_spawn(45_000_000, width));
    assert!(hard.should_spawn(44_999_999, width));
}

#[test]
fn next_obstacle_is_due_at_the_ends_of_the_range() {
    let spawner = spawner_at(0);
    assert!(!spawner.should_spawn(i64::MIN, i64::MIN));
    assert!(spawner.should_spawn(i64::MIN, i64::MAX));
    assert!(!spawner.should_spawn(i64::MAX, i64::MAX));
}

#[test]
fn unlocked_roll_gives_a_pterodactyl() {
    let spawner = spawner_at(301);
    for roll in 0..25u64 {
        let tier = spawner.tier_for(roll, 99);
        assert_eq!(tier, SpawnTier::Flying);
        for pick in 0..tier.len() {
            assert!(is_pterodactyl(tier.kind(pick)));
        }
    }
}

#[test]
fn flying_threshold_and_roll_are_strict() {
    assert_eq!(spawner_at(300).tier_for(0, 99), SpawnTier::Common);
    assert_eq!(spawner_at(301).tier_for(24, 99), SpawnTier::Flying);
    assert_eq!(spawner_at(301).tier_for(25, 99), SpawnTier::Common);
    assert_eq!(spawner_at(301).tier_for(99, 0), SpawnTier::Common);
}

#[test]
fn hard_threshold_and_roll_are_strict() {
    assert_eq!(spawner_at(500).tier_for(99, 0), SpawnTier::Common);
    assert_eq!(spawner_at(501).tier_for(99, 29), SpawnTier::Hard);
    assert_eq!(spawner_at(501).tier_for(99, 30), SpawnTier::Common);
}

#[test]
fn flying_comes_before_hard() {
    assert_eq!(spawner_at(501).tier_for(0, 0), SpawnTier::Flying);
    assert_eq!(spawner_at(501).tier_for(25, 0), SpawnTier::Hard);
}

#[test]
fn members_of_each_tier() {
    assert_eq!(SpawnTier::Flying.len(), 3);
    assert_eq!(SpawnTier::Hard.len(), 2);
    assert_eq!(SpawnTier::Common.len(), 3);
    assert_eq!(SpawnTier::Flying.kind(0), ObstacleType::PterodactylLow);
    assert_eq!(SpawnTier::Flying.kind(1), ObstacleType::PterodactylMid);
    assert_eq!(SpawnTier::Flying.kind(2), ObstacleType::PterodactylHigh);
    assert_eq!(SpawnTier::Hard.kind(0), ObstacleType::TallCactus);
    assert_eq!(SpawnTier::Hard.kind(1), ObstacleType::WideCactus);
    assert_eq!(SpawnTier::Common.kind(0), ObstacleType::SmallCactus);
    assert_eq!(SpawnTier::Common.kind(1), ObstacleType::MediumCactus);
    assert_eq!(SpawnTier::Common.kind(2), ObstacleType::TallCactus);
}

#[test]
fn placing_adds_the_gap() {
    let placed = ObstacleSpawner::place(26_000_000, 50_000_000, ObstacleType::WideCactus);
    assert_eq!(placed.x, 76_000_000);
    assert_eq!(placed.obstacle_type, ObstacleType::WideCactus);
    assert_eq!(ObstacleSpawner::place(i64::MAX, 1, ObstacleType::SmallCactus).x, i64::MAX);
}

#[test]
fn spawned_obstacles_keep_their_distance() {
    let spawner = spawner_at(0);
    let mut rng = Generator::new();
    let mut seen_low = i64::MAX;
    let mut seen_high = i64::MIN;
    for _ in 0..2000 {
        let obstacle = spawner.spawn_next(10_000_000, &mut rng);
        assert!(obstacle.x >= 60_000_000);
        assert!(obstacle.x <= 130_000_000);
        assert!(matches!(
            obstacle.obstacle_type,
            ObstacleType::SmallCactus | ObstacleType::MediumCactus | ObstacleType::TallCactus
        ));
        seen_low = seen_low.min(obstacle.x);
        seen_high = seen_high.max(obstacle.x);
    }
    assert!(seen_low < seen_high);
}

#[test]
fn spawn_distance_is_between_the_gaps() {
    let spawner = spawner_at(1000);
    let mut rng = Generator::seeded(7);
    let mut distances = Vec::new();
    for _ in 0..500 {
        let gap = spawner.get_spawn_distance(&mut rng);
        assert!(gap >= 35_000_000 && gap <= 90_000_000);
        distances.push(gap);
    }
    assert!(distances.iter().any(|gap| *gap != distances[0]));
}

#[test]
fn chosen_kinds_are_unlocked_and_varied() {
    let early = spawner_at(0);
    let mut rng = Generator::seeded(11);
    let mut kinds = Vec::new();
    for _ in 0..500 {
        let kind = early.choose_obstacle_type(&mut rng);
        assert!(!is_pterodactyl(kind));
        assert_ne!(kind, ObstacleType::WideCactus);
        kinds.push(kind);
    }
    assert!(kinds.iter().any(|kind| *kind != kinds[0]));

    let middle = spawner_at(400);
    for _ in 0..500 {
        assert_ne!(middle.choose_obstacle_type(&mut rng), ObstacleType::WideCactus);
    }
}

#[test]
fn every_kind_appears_late_in_a_run() {
    let late = spawner_at(2000);
    let mut rng = Generator::new();
    let mut flying = false;
    let mut wide = false;
    for _ in 0..5000 {
        let kind = late.choose_obstacle_type(&mut rng);
        flying = flying || is_pterodactyl(kind);
        wide = wide || kind == ObstacleType::WideCactus;
    }
    assert!(flying);
    assert!(wide);
}

#[test]
fn equal_seeds_spawn_the_same_obstacles() {
    let spawner = spawner_at(2000);
    let mut first = Generator::seeded(42);
    let mut second = Generator::seeded(42);
    let mut other = Generator::seeded(43);
    let mut differs = false;
    for _ in 0..200 {
        let obstacle = spawner.spawn_next(0, &mut first);
        assert_eq!(obstacle, spawner.spawn_next(0, &mut second));
        differs = differs || obstacle != spawner.spawn_next(0, &mut other);
    }
    assert!(differs);
}

#[test]
fn draws_stay_in_their_range() {
    let mut rng = Generator::new();
    let mut low = u64::MAX;
    let mut high = 0;
    for _ in 0..1000 {
        let drawn = rng.between(3, 9);
        assert!(drawn >= 3 && drawn <= 9);
        low = low.min(drawn);
        high = high.max(drawn);
        assert_eq!(rng.between(5, 5), 5);
    }
    assert_eq!((low, high), (3, 9));
    assert!(rng.between(0, u64::MAX) <= u64::MAX);
}
