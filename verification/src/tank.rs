//! A tank: its health, its barrel, and what hits do to it.

use vstd::prelude::*;
use crate::geometry::{Position2d, Scalar};
use crate::projectile::Projectile;

verus! {

/// Health that one hit takes from a tank, whatever hit it.
pub const HIT_DAMAGE: i8 = 50;

/// A tank. `barrel_angle` is in degrees; any value is accepted.
#[derive(Debug, Copy, Clone, PartialEq, Eq, Structural)]
pub struct Tank {
    pub health: i8,
    pub barrel_angle: i8,
    pub barrel_length: Scalar,
    pub position: Position2d,
}

/// How many entries of `near` are set.
///
/// `near[j]` says that projectile `j` lies within the hit radius of the tank
/// in question, so this is the number of hits the tank takes in one tick.
pub open spec fn hits_among(near: Seq<bool>) -> nat
    decreases near.len(),
{
    if near.len() == 0 {
        0
    } else {
        hits_among(near.drop_last()) + if near.last() { 1nat } else { 0nat }
    }
}

/// A prefix of `near` holds no more hits than `near` itself, and one entry
/// more adds one hit exactly when that entry is set.
pub proof fn hits_among_prefix(near: Seq<bool>, n: int)
    requires
        0 <= n <= near.len(),
    ensures
        hits_among(near.take(n)) <= hits_among(near),
        n < near.len() ==> hits_among(near.take(n + 1)) == hits_among(near.take(n)) + if near[n] {
            1nat
        } else {
            0nat
        },
    decreases near.len() - n,
{
    if n < near.len() {
        assert(near.take(n + 1).drop_last() =~= near.take(n));
        hits_among_prefix(near, n + 1);
    } else {
        assert(near.take(n) =~= near);
    }
}

/// A row with no entry set holds no hit.
pub proof fn hits_among_none(near: Seq<bool>)
    requires
        forall|j: int| 0 <= j < near.len() ==> !near[j],
    ensures
        hits_among(near) == 0,
    decreases near.len(),
{
    if near.len() > 0 {
        hits_among_none(near.drop_last());
    }
}

/// Hits add up: a tank that takes `first` hits and after them `more` is the
/// tank that takes them all at once. The order of the hits does not matter.
pub proof fn hits_add_up(tank: Tank, first: nat, more: nat)
    requires
        tank.can_take(first + more),
    ensures
        tank.can_take(first),
        tank.after_hits(first).can_take(more),
        tank.after_hits(first).after_hits(more) == tank.after_hits(first + more),
        tank.after_hits(0) == tank,
{
}

/// Hits only ever take health: a dead tank stays dead under any number of
/// hits, and a tank that was alive and is dead was hit at least once.
pub proof fn dead_stays_dead(tank: Tank, hits: nat)
    requires
        tank.can_take(hits),
    ensures
        tank.after_hits(hits).health <= tank.health,
        !tank.alive() ==> !tank.after_hits(hits).alive(),
        tank.alive() && !tank.after_hits(hits).alive() ==> hits > 0,
{
}

impl Tank {
    /// A tank is alive while it has health left.
    pub open spec fn alive(self) -> bool {
        self.health > 0
    }

    /// Whether `hits` more hits leave a health that eight bits can hold.
    pub open spec fn can_take(self, hits: nat) -> bool {
        self.health - HIT_DAMAGE * hits >= i8::MIN
    }

    /// The tank after `hits` hits: `HIT_DAMAGE` less health for each, and
    /// nothing else changed.
    pub open spec fn after_hits(self, hits: nat) -> Tank
        recommends
            self.can_take(hits),
    {
        Tank { health: (self.health - HIT_DAMAGE * hits) as i8, ..self }
    }

    /// Whether the tank has health left.
    pub fn is_alive(self) -> (alive: bool)
        ensures
            alive == self.alive(),
            alive <==> self.health > 0,
    {
        self.health > 0
    }

    /// Whether the tank can be hit once more without its health leaving the
    /// range of its type.
    pub fn can_be_hit(self) -> (ok: bool)
        ensures
            ok == self.can_take(1),
    {
        self.health >= i8::MIN + HIT_DAMAGE
    }

    /// The tank after one hit. What hit it has no bearing on the damage.
    #[allow(unused_variables)]
    pub fn hit(self, incoming: Projectile) -> (damaged: Tank)
        requires
            self.can_take(1),
        ensures
            damaged == self.after_hits(1),
            damaged.health == self.health - HIT_DAMAGE,
            damaged.barrel_angle == self.barrel_angle,
            damaged.barrel_length == self.barrel_length,
            damaged.position == self.position,
    {
        Tank {
            health: self.health - HIT_DAMAGE,
            barrel_angle: self.barrel_angle,
            barrel_length: self.barrel_length,
            position: self.position,
        }
    }

    /// Whether the tank can take every hit that `near` marks.
    pub fn withstands(self, near: &Vec<bool>) -> (ok: bool)
        ensures
            ok == self.can_take(hits_among(near@)),
    {
        let mut room: i8 = self.health;
        let mut j: usize = 0;
        while j < near.len()
            invariant
                j <= near.len(),
                self.can_take(hits_among(near@.take(j as int))),
                room == self.health - HIT_DAMAGE * hits_among(near@.take(j as int)),
            decreases near.len() - j,
        {
            proof {
                hits_among_prefix(near@, j as int);
                hits_among_prefix(near@, j + 1);
            }
            if near[j] {
                if room < i8::MIN + HIT_DAMAGE {
                    return false;
                }
                room = room - HIT_DAMAGE;
            }
            j += 1;
        }
        proof {
            assert(near@.take(j as int) =~= near@);
        }
        true
    }

    /// The tank after one pass over the projectiles of a tick: in list order,
    /// every projectile that `near` marks hits it once.
    pub fn struck_by(self, projectiles: &Vec<Projectile>, near: &Vec<bool>) -> (after: Tank)
        requires
            near.len() == projectiles.len(),
            self.can_take(hits_among(near@)),
        ensures
            after == self.after_hits(hits_among(near@)),
    {
        let mut tank = self;
        let mut j: usize = 0;
        while j < projectiles.len()
            invariant
                j <= projectiles.len(),
                near.len() == projectiles.len(),
                self.can_take(hits_among(near@)),
                tank == self.after_hits(hits_among(near@.take(j as int))),
            decreases projectiles.len() - j,
        {
            proof {
                hits_among_prefix(near@, j as int);
                hits_among_prefix(near@, j + 1);
            }
            if near[j] {
                tank = tank.hit(projectiles[j]);
            }
            j += 1;
        }
        proof {
            assert(near@.take(j as int) =~= near@);
        }
        tank
    }
}

} // verus!
