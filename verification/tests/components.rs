use space_shooter::components::{
    AnimationIndices, Bullet, Damage, Foe, FoeProjectile, GameBanner, Health, Pumper, SpaceShip,
};
use space_shooter::constants::{
    FOE_DAMAGE, FOE_HEALTH, FOE_PROJECTILE_SPEED, FOE_SPEED, FOE_UNITS, FOE_UNIT_WIDTH,
    SHIP_BULLET_SPEED, SHIP_DAMAGE, SHIP_HEALTH, SHIP_SPEED, WINDOW_HEIGHT, WINDOW_WIDTH,
};
use space_shooter::states::{check_to_reset, GameState};

#[test]
fn animation_indices_keep_what_they_are_given() {
    let indices = AnimationIndices::new(15, 18);
    assert_eq!(indices.first, 15);
    assert_eq!(indices.last, 18);
    assert_eq!(indices, AnimationIndices { first: 15, last: 18 });
}

#[test]
fn animation_indices_may_run_backwards() {
    let indices = AnimationIndices::new(7, 3);
    assert_eq!(indices.first, 7);
    assert_eq!(indices.last, 3);
}

#[test]
fn markers_are_plain_values() {
    assert_eq!(SpaceShip, SpaceShip);
    assert_eq!(Pumper, Pumper);
    assert_eq!(Bullet, Bullet);
    assert_eq!(Foe, Foe);
    assert_eq!(FoeProjectile, FoeProjectile);
    assert_eq!(GameBanner, GameBanner);
    assert_eq!(format!("{:?}", Foe), "Foe");
}

#[test]
fn health_and_damage_wrap_one_number() {
    let health = Health(12);
    let damage = Damage(2);
    assert_eq!(health.0, 12);
    assert_eq!(damage.0, 2);
    assert_ne!(Health(1), Health(2));
    assert_eq!(Damage(-3), Damage(-3));
}

#[test]
fn constants_have_their_values() {
    assert_eq!(WINDOW_WIDTH, 640);
    assert_eq!(WINDOW_HEIGHT, 480);
    assert_eq!(SHIP_SPEED, 530);
    assert_eq!(SHIP_DAMAGE, 2);
    assert_eq!(SHIP_HEALTH, 10);
    assert_eq!(SHIP_BULLET_SPEED, 980);
    assert_eq!(FOE_SPEED, 230);
    assert_eq!(FOE_DAMAGE, 2);
    assert_eq!(FOE_HEALTH, 12);
    assert_eq!(FOE_UNITS, 32);
    assert_eq!(FOE_PROJECTILE_SPEED, 500);
}

#[test]
fn foe_columns_split_the_window() {
    assert_eq!(FOE_UNIT_WIDTH, 20);
    assert_eq!(FOE_UNIT_WIDTH * FOE_UNITS, WINDOW_WIDTH);
}

#[test]
fn a_game_starts_in_play() {
    assert_eq!(GameState::default(), GameState::Playing);
    assert_ne!(GameState::default(), GameState::GameOver);
}

#[test]
fn reset_key_starts_a_new_round() {
    assert_eq!(check_to_reset(true), Some(GameState::Playing));
}

#[test]
fn without_reset_key_the_state_stays() {
    assert_eq!(check_to_reset(false), None);
}
