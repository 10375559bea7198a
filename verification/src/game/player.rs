//! Player System
//!
//! Player states and the rules of the player controller that need no
//! physics: when the player may act, how a hit or a heal changes health and
//! state, and which jump an input gives.

use vstd::prelude::*;

verus! {

/// Player state machine states
#[derive(Debug, Clone, Copy, PartialEq, Eq, Structural)]
pub enum PlayerState {
    Idle,
    Walking,
    Running,
    Jumping,
    Falling,
    Attacking,
    Dashing,
    Hurt,
    Dead,
}

/// The player may start an attack (or a dash) when the matching cooldown has
/// run out and the player is not attacking, dashing or hurt.
pub fn player_can_act(cooldown_finished: bool, state: PlayerState) -> (b: bool)
    ensures
        b == (cooldown_finished && state != PlayerState::Attacking && state != PlayerState::Dashing
            && state != PlayerState::Hurt),
{
    cooldown_finished && state != PlayerState::Attacking && state != PlayerState::Dashing && state
        != PlayerState::Hurt
}

/// What a hit does to the player.
#[derive(Debug, Clone, Copy, PartialEq, Eq, Structural)]
pub struct PlayerHit {
    /// Whether the damage was applied.
    pub applied: bool,
    /// Health after the hit.
    pub health: i32,
    /// State after the hit.
    pub state: PlayerState,
    /// Whether the invincibility window starts again.
    pub restart_invincibility: bool,
}

/// A hit is ignored while invincible or dead; otherwise health drops by the
/// damage, and the player dies at zero health (health stays at zero) or is
/// hurt and becomes invincible again.
pub open spec fn player_hit(health: i32, damage: i32, state: PlayerState, invincible: bool) -> PlayerHit {
    if invincible || state == PlayerState::Dead {
        PlayerHit { applied: false, health: health, state: state, restart_invincibility: false }
    } else if health - damage <= 0 {
        PlayerHit { applied: true, health: 0, state: PlayerState::Dead, restart_invincibility: false }
    } else {
        PlayerHit {
            applied: true,
            health: (health - damage) as i32,
            state: PlayerState::Hurt,
            restart_invincibility: true,
        }
    }
}

/// Applies a hit of `damage` to a player with `health` in `state`.
pub fn player_take_damage(health: i32, damage: i32, state: PlayerState, invincible: bool) -> (hit: PlayerHit)
    requires
        invincible || state == PlayerState::Dead || i32::MIN <= health - damage <= i32::MAX,
    ensures
        hit == player_hit(health, damage, state, invincible),
{
    if invincible || state == PlayerState::Dead {
        return PlayerHit { applied: false, health, state, restart_invincibility: false };
    }
    let left = health - damage;
    if left <= 0 {
        PlayerHit { applied: true, health: 0, state: PlayerState::Dead, restart_invincibility: false }
    } else {
        PlayerHit { applied: true, health: left, state: PlayerState::Hurt, restart_invincibility: true }
    }
}

/// Health after healing by `amount`: the sum, but never above `max_health`.
pub open spec fn healed(health: i32, amount: i32, max_health: i32) -> int {
    if health + amount <= max_health {
        health + amount
    } else {
        max_health as int
    }
}

/// Heals `health` by `amount`, up to `max_health`.
pub fn heal_health(health: i32, amount: i32, max_health: i32) -> (h: i32)
    requires
        i32::MIN <= health + amount <= i32::MAX,
    ensures
        h == healed(health, amount, max_health),
{
    let sum = health + amount;
    if sum <= max_health {
        sum
    } else {
        max_health
    }
}

/// The kinds of jump.
#[derive(Debug, Clone, Copy, PartialEq, Eq, Structural)]
pub enum JumpKind {
    /// From the ground, or within coyote time: resets the double jump.
    Ground,
    /// In the air, using up the double jump.
    Double,
}

/// The jump an input gives: a ground jump when grounded or within coyote
/// time, else the double jump if it is still available, else none.
pub fn jump_kind(grounded_or_coyote: bool, can_double_jump: bool) -> (k: Option<JumpKind>)
    ensures
        grounded_or_coyote ==> k == Some(JumpKind::Ground),
        !grounded_or_coyote && can_double_jump ==> k == Some(JumpKind::Double),
        !grounded_or_coyote && !can_double_jump ==> k is None,
{
    if grounded_or_coyote {
        Some(JumpKind::Ground)
    } else if can_double_jump {
        Some(JumpKind::Double)
    } else {
        None
    }
}

/// Whether the double jump is still available after a jump of `kind`: a
/// ground jump restores it, the double jump uses it up, no jump leaves it.
pub fn double_jump_after(kind: Option<JumpKind>, can_double_jump: bool) -> (b: bool)
    ensures
        b == match kind {
            Some(JumpKind::Ground) => true,
            Some(JumpKind::Double) => false,
            None => can_double_jump,
        },
{
    match kind {
        Some(JumpKind::Ground) => true,
        Some(JumpKind::Double) => false,
        None => can_double_jump,
    }
}

/// Law (death is final): a dead player ignores every further hit and stays dead.
pub proof fn law_dead_player_ignores_hits(health: i32, damage: i32, invincible: bool)
    ensures
        !player_hit(health, damage, PlayerState::Dead, invincible).applied,
        player_hit(health, damage, PlayerState::Dead, invincible).state == PlayerState::Dead,
        player_hit(health, damage, PlayerState::Dead, invincible).health == health,
{
}

/// Law (health stays in range): starting from health within `0..=max`, a
/// hit of non-negative damage or a heal of a non-negative amount leaves
/// health within `0..=max`, and a hit that leaves no health kills the player.
pub proof fn law_health_stays_in_range(
    health: i32,
    max_health: i32,
    damage: i32,
    amount: i32,
    state: PlayerState,
    invincible: bool,
)
    requires
        0 <= health <= max_health,
        damage >= 0,
        amount >= 0,
    ensures
        0 <= player_hit(health, damage, state, invincible).health <= max_health,
        player_hit(health, damage, state, invincible).health == 0 && player_hit(
            health,
            damage,
            state,
            invincible,
        ).applied ==> player_hit(health, damage, state, invincible).state == PlayerState::Dead,
        0 <= healed(health, amount, max_health) <= max_health,
{
}

/// Law (what a hit does to the player): a hit is applied exactly when the
/// player is neither invincible nor dead; an applied hit leaves the health
/// less the damage, never below zero, and the player is dead exactly when no
/// health is left, hurt otherwise, with invincibility restarted only when
/// hurt. A hit not applied changes nothing.
pub proof fn law_player_hit_outcome(health: i32, damage: i32, state: PlayerState, invincible: bool)
    requires
        !invincible && state != PlayerState::Dead ==> i32::MIN <= health - damage <= i32::MAX,
    ensures
        player_hit(health, damage, state, invincible).applied <==> (!invincible && state != PlayerState::Dead),
        player_hit(health, damage, state, invincible).applied ==> {
            &&& player_hit(health, damage, state, invincible).health == if health - damage > 0 {
                health - damage
            } else {
                0
            }
            &&& (player_hit(health, damage, state, invincible).state == PlayerState::Dead
                <==> player_hit(health, damage, state, invincible).health == 0)
            &&& (player_hit(health, damage, state, invincible).state != PlayerState::Dead
                ==> player_hit(health, damage, state, invincible).state == PlayerState::Hurt)
            &&& (player_hit(health, damage, state, invincible).restart_invincibility
                <==> player_hit(health, damage, state, invincible).state == PlayerState::Hurt)
        },
        !player_hit(health, damage, state, invincible).applied ==> {
            &&& player_hit(health, damage, state, invincible).health == health
            &&& player_hit(health, damage, state, invincible).state == state
            &&& !player_hit(health, damage, state, invincible).restart_invincibility
        },
{
}

/// Law (healing adds, up to the maximum): healing gives the sum when it does
/// not pass the maximum, and the maximum otherwise; it never lowers health
/// below what it was or below the maximum, whichever is smaller.
pub proof fn law_heal_outcome(health: i32, amount: i32, max_health: i32)
    ensures
        health + amount <= max_health ==> healed(health, amount, max_health) == health + amount,
        health + amount > max_health ==> healed(health, amount, max_health) == max_health,
        healed(health, amount, max_health) <= max_health,
        amount >= 0 ==> healed(health, amount, max_health) >= if health <= max_health {
            health as int
        } else {
            max_health as int
        },
{
}

} // verus!
