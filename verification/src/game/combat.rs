//! Combat System
//!
//! Damage types, enemy states, and the rules of health, hits and attacks that
//! need no physics.

use vstd::prelude::*;

verus! {

/// Damage types
#[derive(Debug, Clone, Copy, PartialEq, Eq, Structural)]
pub enum DamageType {
    Physical,
    Fire,
    Ice,
    Lightning,
    Poison,
}

/// Enemy AI states
#[derive(Debug, Clone, Copy, PartialEq, Eq, Structural)]
pub enum EnemyState {
    Idle,
    Patrol,
    Chase,
    Attack,
    Hurt,
    Dead,
}

/// Health after a hit on a health component: the difference, but never below zero.
pub open spec fn health_after_hit(current: i32, damage: i32) -> int {
    if current - damage >= 0 {
        current - damage
    } else {
        0
    }
}

/// Applies `damage` to a health component's current health.
pub fn apply_hit(current: i32, damage: i32) -> (h: i32)
    requires
        i32::MIN <= current - damage <= i32::MAX,
    ensures
        h == health_after_hit(current, damage),
{
    let left = current - damage;
    if left >= 0 {
        left
    } else {
        0
    }
}

/// What a hit does to an enemy.
#[derive(Debug, Clone, Copy, PartialEq, Eq, Structural)]
pub struct EnemyHit {
    /// Whether the damage was applied (and the invincibility window restarts).
    pub applied: bool,
    /// Health after the hit.
    pub health: i32,
    /// State after the hit.
    pub state: EnemyState,
}

/// A hit is ignored while the enemy's invincibility runs or once it is dead;
/// otherwise health drops by the damage and the enemy dies at zero health
/// (health stays at zero) or is hurt.
pub open spec fn enemy_hit(health: i32, damage: i32, state: EnemyState, invincibility_finished: bool) -> EnemyHit {
    if !invincibility_finished || state == EnemyState::Dead {
        EnemyHit { applied: false, health: health, state: state }
    } else if health - damage <= 0 {
        EnemyHit { applied: true, health: 0, state: EnemyState::Dead }
    } else {
        EnemyHit { applied: true, health: (health - damage) as i32, state: EnemyState::Hurt }
    }
}

/// Applies a hit of `damage` to an enemy with `health` in `state`.
pub fn enemy_take_damage(health: i32, damage: i32, state: EnemyState, invincibility_finished: bool) -> (hit: EnemyHit)
    requires
        !invincibility_finished || state == EnemyState::Dead || i32::MIN <= health - damage <= i32::MAX,
    ensures
        hit == enemy_hit(health, damage, state, invincibility_finished),
{
    if !invincibility_finished || state == EnemyState::Dead {
        return EnemyHit { applied: false, health, state };
    }
    let left = health - damage;
    if left <= 0 {
        EnemyHit { applied: true, health: 0, state: EnemyState::Dead }
    } else {
        EnemyHit { applied: true, health: left, state: EnemyState::Hurt }
    }
}

/// An enemy may attack when its cooldown has run out and it is neither hurt nor dead.
pub fn enemy_can_attack(cooldown_finished: bool, state: EnemyState) -> (b: bool)
    ensures
        b == (cooldown_finished && state != EnemyState::Hurt && state != EnemyState::Dead),
{
    cooldown_finished && state != EnemyState::Hurt && state != EnemyState::Dead
}

/// Law (a dead enemy stays dead): hits on a dead enemy change nothing.
pub proof fn law_dead_enemy_ignores_hits(health: i32, damage: i32, finished: bool)
    ensures
        enemy_hit(health, damage, EnemyState::Dead, finished) == (EnemyHit {
            applied: false,
            health: health,
            state: EnemyState::Dead,
        }),
{
}

/// Law (health never drops below zero): from non-negative health, a hit of
/// non-negative damage leaves non-negative health, on a health component and
/// on an enemy.
pub proof fn law_hits_never_go_below_zero(health: i32, damage: i32, state: EnemyState, finished: bool)
    requires
        health >= 0,
        damage >= 0,
    ensures
        health_after_hit(health, damage) >= 0,
        enemy_hit(health, damage, state, finished).health >= 0,
{
}

/// Law (a hit that leaves no health kills): an applied hit leaves the enemy
/// with what its health less the damage leaves, never below zero; the enemy
/// is dead exactly when no health is left, and hurt otherwise. A hit that is
/// not applied changes nothing.
pub proof fn law_enemy_hit_outcome(health: i32, damage: i32, state: EnemyState, finished: bool)
    requires
        finished && state != EnemyState::Dead ==> i32::MIN <= health - damage <= i32::MAX,
    ensures
        enemy_hit(health, damage, state, finished).applied ==> {
            &&& enemy_hit(health, damage, state, finished).health == if health - damage > 0 {
                health - damage
            } else {
                0
            }
            &&& (enemy_hit(health, damage, state, finished).state == EnemyState::Dead
                <==> enemy_hit(health, damage, state, finished).health == 0)
            &&& (enemy_hit(health, damage, state, finished).state != EnemyState::Dead
                ==> enemy_hit(health, damage, state, finished).state == EnemyState::Hurt)
        },
        enemy_hit(health, damage, state, finished).applied <==> (finished && state != EnemyState::Dead),
        !enemy_hit(health, damage, state, finished).applied ==> enemy_hit(health, damage, state, finished).health
            == health && enemy_hit(health, damage, state, finished).state == state,
{
}

/// Law (a hit on a health component): the health left is the health less
/// the damage when that is not negative, and zero otherwise; it never
/// exceeds the health before a non-negative hit.
pub proof fn law_health_hit_outcome(current: i32, damage: i32)
    ensures
        current - damage >= 0 ==> health_after_hit(current, damage) == current - damage,
        current - damage < 0 ==> health_after_hit(current, damage) == 0,
        health_after_hit(current, damage) >= 0,
        damage >= 0 && current >= 0 ==> health_after_hit(current, damage) <= current,
{
}

} // verus!
