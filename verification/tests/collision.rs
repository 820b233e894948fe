use dino::collision::{
    box_of_obstacle, box_of_player, ground_line, hits_any, Box, Hitbox, DINO_COLUMN,
};
use dino::types::{Dino, DinoState, Obstacle, ObstacleType};

fn dino(state: DinoState, y: i64) -> Dino {
    Dino { state, y, velocity_y: 0 }
}

#[test]
fn boxes_that_share_a_cell_collide() {
    let a = Box::new(10, 11, 8, 6);
    let b = Box::new(12, 13, 5, 4);
    assert!(a.check_collision(b));
    assert!(b.check_collision(a));
}

#[test]
fn boxes_apart_on_one_axis_do_not_collide() {
    let a = Box::new(10, 11, 8, 6);
    assert!(!a.check_collision(Box::new(30, 11, 8, 6)));
    assert!(!a.check_collision(Box::new(10, 0, 8, 6)));
    assert!(!a.check_collision(Box::new(0, 11, 3, 6)));
}

#[test]
fn edge_contact_is_no_collision() {
    let a = Box::new(10, 10, 5, 5);
    assert!(!a.check_collision(Box::new(15, 10, 5, 5)));
    assert!(!a.check_collision(Box::new(5, 10, 5, 5)));
    assert!(!a.check_collision(Box::new(10, 15, 5, 5)));
    assert!(!a.check_collision(Box::new(10, 5, 5, 5)));
    assert!(a.check_collision(Box::new(14, 14, 5, 5)));
    assert!(a.check_collision(Box::new(6, 6, 5, 5)));
}

#[test]
fn boxes_at_the_end_of_the_range_are_compared_without_overflow() {
    let far = Box::new(usize::MAX, usize::MAX, 7, 3);
    let near = Box::new(10, 11, 8, 6);
    assert!(!near.check_collision(far));
    assert!(!far.check_collision(near));
    assert!(far.check_collision(far));
    let wide = Box::new(0, 0, usize::MAX, usize::MAX);
    assert!(wide.check_collision(near));
}

#[test]
fn every_class_of_obstacle_has_its_shape() {
    assert_eq!(ObstacleType::SmallCactus.hitbox(), Hitbox { width: 3, height: 2, rise: 2 });
    assert_eq!(ObstacleType::MediumCactus.hitbox(), Hitbox { width: 3, height: 3, rise: 3 });
    assert_eq!(ObstacleType::TallCactus.hitbox(), Hitbox { width: 5, height: 4, rise: 4 });
    assert_eq!(ObstacleType::WideCactus.hitbox(), Hitbox { width: 7, height: 3, rise: 3 });
    assert_eq!(ObstacleType::PterodactylLow.hitbox(), Hitbox { width: 7, height: 3, rise: 8 });
    assert_eq!(ObstacleType::PterodactylMid.hitbox(), Hitbox { width: 7, height: 3, rise: 12 });
    assert_eq!(ObstacleType::PterodactylHigh.hitbox(), Hitbox { width: 7, height: 3, rise: 16 });
}

#[test]
fn ground_line_of_an_eighty_by_twenty_screen() {
    assert_eq!(ground_line(20, 3), 17);
    assert_eq!(ground_line(2, 3), 0);
    assert_eq!(ground_line(0, 0), 0);
}

#[test]
fn tall_cactus_at_column_twelve() {
    let ground_y = ground_line(20, 3);
    let cactus = Obstacle::new(12_000_000, ObstacleType::TallCactus);
    assert_eq!(box_of_obstacle(&cactus, ground_y), Box::new(12, 13, 5, 4));
    let player = box_of_player(&Dino::new(), ground_y);
    assert!(player.check_collision(box_of_obstacle(&cactus, ground_y)));
    assert!(hits_any(&Dino::new(), &vec![cactus], ground_y));
}

#[test]
fn player_box_by_motion() {
    let ground_y = ground_line(20, 3);
    assert_eq!(DINO_COLUMN, 10);
    assert_eq!(box_of_player(&dino(DinoState::Running, 0), ground_y), Box::new(10, 11, 8, 6));
    assert_eq!(
        box_of_player(&dino(DinoState::Jumping, 3_000_000), ground_y),
        Box::new(10, 8, 8, 6)
    );
    assert_eq!(
        box_of_player(&dino(DinoState::Jumping, 3_999_999), ground_y),
        Box::new(10, 8, 8, 6)
    );
    assert_eq!(box_of_player(&dino(DinoState::Crouching, 0), ground_y), Box::new(10, 13, 6, 4));
}

#[test]
fn crouching_box_is_smaller_and_lower() {
    let ground_y = ground_line(20, 3);
    let low = box_of_player(&dino(DinoState::Crouching, 0), ground_y);
    let tall = box_of_player(&dino(DinoState::Running, 0), ground_y);
    assert_eq!((low.w, low.h), (6, 4));
    assert_eq!((tall.w, tall.h), (8, 6));
    assert_eq!(low.y, tall.y + 2);
    assert_eq!(low.y + low.h, tall.y + tall.h);
    let low_ptero = box_of_obstacle(&Obstacle::new(12_000_000, ObstacleType::PterodactylLow), ground_y);
    assert_eq!(low_ptero, Box::new(12, 9, 7, 3));
    assert!(tall.check_collision(low_ptero));
    assert!(!low.check_collision(low_ptero));
}

#[test]
fn player_box_on_a_screen_without_room() {
    assert_eq!(box_of_player(&dino(DinoState::Running, 0), 4), Box::new(10, 0, 8, 6));
    assert_eq!(box_of_player(&dino(DinoState::Crouching, 0), 0), Box::new(10, 2, 6, 4));
    assert_eq!(
        box_of_player(&dino(DinoState::Jumping, 50_000_000), 17),
        Box::new(10, 0, 8, 6)
    );
    assert_eq!(
        box_of_obstacle(&Obstacle::new(5_000_000, ObstacleType::PterodactylHigh), 10),
        Box::new(5, 0, 7, 3)
    );
}

#[test]
fn obstacle_left_of_the_screen_stands_on_column_zero() {
    let cactus = Obstacle::new(-19_000_000, ObstacleType::SmallCactus);
    assert_eq!(box_of_obstacle(&cactus, 17), Box::new(0, 15, 3, 2));
    assert!(!hits_any(&Dino::new(), &vec![cactus], 17));
}

#[test]
fn any_one_obstacle_is_enough() {
    let ground_y = 17;
    let obstacles = vec![
        Obstacle::new(60_000_000, ObstacleType::SmallCactus),
        Obstacle::new(100_000_000, ObstacleType::WideCactus),
        Obstacle::new(17_000_000, ObstacleType::MediumCactus),
    ];
    assert!(hits_any(&Dino::new(), &obstacles, ground_y));
    assert!(!hits_any(&Dino::new(), &obstacles[..2].to_vec(), ground_y));
    assert!(!hits_any(&Dino::new(), &Vec::new(), ground_y));
}

#[test]
fn cactus_crosses_the_player_between_columns_seventeen_and_eight() {
    let ground_y = 17;
    let at = |x: i64| hits_any(&Dino::new(), &vec![Obstacle::new(x, ObstacleType::SmallCactus)], ground_y);
    assert!(!at(18_000_000));
    assert!(at(17_999_999));
    assert!(at(8_000_000));
    assert!(!at(7_999_999));
}
