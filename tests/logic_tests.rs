use battle_sim::combat::calculate_damage;
use battle_sim::spatial::{circle_collision, get_grid_cell};

#[test]
fn test_circle_collision_hit() {
    assert!(circle_collision(0, 0, 10, 15, 0, 10));
}

#[test]
fn test_circle_collision_miss() {
    assert!(!circle_collision(0, 0, 10, 100, 0, 10));
}

#[test]
fn test_get_grid_cell() {
    assert_eq!(get_grid_cell(0, 0), 0);
    assert_eq!(get_grid_cell(199, 0), 0);
    assert_eq!(get_grid_cell(200, 0), 1);
    assert_eq!(get_grid_cell(0, 200), 8);
}

#[test]
fn test_damage_calculation_logic() {
    // 50 armor keeps 100 / 150 of the damage: 66.67, rounded down
    let final_damage = calculate_damage(100, 50, 150, false, 1);
    assert_eq!(final_damage, 66);
}
