use phoenix_engine::engine::audio::AudioClip;
use phoenix_engine::engine::renderer::{advance_frame, TextAnchor};
use phoenix_engine::game::combat::{apply_hit, enemy_can_attack, enemy_take_damage, EnemyHit, EnemyState};
use phoenix_engine::game::player::{
    double_jump_after, heal_health, jump_kind, player_can_act, player_take_damage, JumpKind, PlayerHit, PlayerState,
};

#[test]
fn player_hits() {
    assert_eq!(
        player_take_damage(100, 30, PlayerState::Idle, false),
        PlayerHit { applied: true, health: 70, state: PlayerState::Hurt, restart_invincibility: true }
    );
    assert_eq!(
        player_take_damage(20, 30, PlayerState::Running, false),
        PlayerHit { applied: true, health: 0, state: PlayerState::Dead, restart_invincibility: false }
    );
    assert_eq!(
        player_take_damage(20, 5, PlayerState::Idle, true),
        PlayerHit { applied: false, health: 20, state: PlayerState::Idle, restart_invincibility: false }
    );
    assert_eq!(
        player_take_damage(0, 5, PlayerState::Dead, false),
        PlayerHit { applied: false, health: 0, state: PlayerState::Dead, restart_invincibility: false }
    );
}

#[test]
fn healing_caps_at_max() {
    assert_eq!(heal_health(50, 25, 100), 75);
    assert_eq!(heal_health(90, 25, 100), 100);
    assert_eq!(heal_health(100, 0, 100), 100);
}

#[test]
fn acting_and_jumping() {
    assert!(player_can_act(true, PlayerState::Idle));
    assert!(!player_can_act(false, PlayerState::Idle));
    assert!(!player_can_act(true, PlayerState::Dashing));
    assert!(!player_can_act(true, PlayerState::Hurt));
    assert!(player_can_act(true, PlayerState::Falling));
    assert_eq!(jump_kind(true, false), Some(JumpKind::Ground));
    assert_eq!(jump_kind(false, true), Some(JumpKind::Double));
    assert_eq!(jump_kind(false, false), None);
}

#[test]
fn enemy_hits() {
    assert_eq!(enemy_take_damage(50, 25, EnemyState::Patrol, true), EnemyHit { applied: true, health: 25, state: EnemyState::Hurt });
    assert_eq!(enemy_take_damage(25, 25, EnemyState::Hurt, true), EnemyHit { applied: true, health: 0, state: EnemyState::Dead });
    assert_eq!(enemy_take_damage(25, 25, EnemyState::Hurt, false), EnemyHit { applied: false, health: 25, state: EnemyState::Hurt });
    assert_eq!(enemy_take_damage(0, 5, EnemyState::Dead, true), EnemyHit { applied: false, health: 0, state: EnemyState::Dead });
    assert!(enemy_can_attack(true, EnemyState::Chase));
    assert!(!enemy_can_attack(true, EnemyState::Hurt));
    assert!(!enemy_can_attack(false, EnemyState::Idle));
    assert_eq!(apply_hit(10, 4), 6);
    assert_eq!(apply_hit(10, 40), 0);
}

#[test]
fn animation_frames() {
    assert_eq!(advance_frame(0, 3, false), (1, true));
    assert_eq!(advance_frame(2, 3, true), (0, true));
    assert_eq!(advance_frame(2, 3, false), (2, false));
    assert_eq!(advance_frame(0, 1, true), (0, true));
    assert_eq!(TextAnchor::default(), TextAnchor::MiddleLeft);
}

#[test]
fn audio_clip_keeps_bytes() {
    let clip = AudioClip::from_bytes(vec![82, 73, 70, 70]);
    assert_eq!(clip.bytes(), &vec![82u8, 73, 70, 70]);
}

#[test]
fn double_jump_bookkeeping() {
    assert!(double_jump_after(Some(JumpKind::Ground), false));
    assert!(!double_jump_after(Some(JumpKind::Double), true));
    assert!(double_jump_after(None, true));
    assert!(!double_jump_after(None, false));
}
