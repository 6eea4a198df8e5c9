//! The world snapshot and the tick that replaces it.

use vstd::prelude::*;
use crate::projectile::Projectile;
use crate::tank::{hits_among, hits_among_none, Tank};

verus! {

/// Everything that exists at one instant. `wind` is carried from tick to
/// tick; no rule reads it yet.
#[derive(Debug, Clone, PartialEq, Eq)]
pub struct World {
    pub wind: i8,
    pub tanks: Vec<Tank>,
    pub projectiles: Vec<Projectile>,
}

/// A world as the rules see it: the wind and the two lists, in order.
pub struct Snapshot {
    pub wind: i8,
    pub tanks: Seq<Tank>,
    pub projectiles: Seq<Projectile>,
}

impl View for World {
    type V = Snapshot;

    open spec fn view(&self) -> Snapshot {
        Snapshot { wind: self.wind, tanks: self.tanks@, projectiles: self.projectiles@ }
    }
}

impl Snapshot {
    /// What a tick may be given.
    ///
    /// `near` has one row for each tank and in each row one entry for each
    /// projectile: `near[i][j]` says that projectile `j`, where it is before
    /// the tick moves it, lies within the hit radius of tank `i`. `moved`
    /// holds the projectiles after the tick has moved them, one for one. No
    /// tank is hit more often than its health can record.
    pub open spec fn admits(self, near: Seq<Seq<bool>>, moved: Seq<Projectile>) -> bool {
        &&& near.len() == self.tanks.len()
        &&& moved.len() == self.projectiles.len()
        &&& forall|i: int|
            0 <= i < self.tanks.len() ==> {
                &&& (#[trigger] near[i]).len() == self.projectiles.len()
                &&& self.tanks[i].can_take(hits_among(near[i]))
            }
    }

    /// The world one tick later: the same wind; the same tanks in the same
    /// order, each after the hits that its row of `near` marks; and the moved
    /// projectiles. Nothing leaves the world, neither a dead tank nor a
    /// projectile that hit.
    pub open spec fn tick(self, near: Seq<Seq<bool>>, moved: Seq<Projectile>) -> Snapshot {
        Snapshot {
            wind: self.wind,
            tanks: Seq::new(
                self.tanks.len(),
                |i: int| self.tanks[i].after_hits(hits_among(near[i])),
            ),
            projectiles: moved,
        }
    }
}

impl World {
    /// Whether `update` may be called with `near` and `moved`.
    pub fn accepts(&self, near: &Vec<Vec<bool>>, moved: &Vec<Projectile>) -> (ok: bool)
        ensures
            ok == self@.admits(near.deep_view(), moved@),
    {
        if near.len() != self.tanks.len() || moved.len() != self.projectiles.len() {
            return false;
        }
        let mut i: usize = 0;
        while i < self.tanks.len()
            invariant
                i <= self.tanks.len(),
                near.len() == self.tanks.len(),
                forall|k: int|
                    0 <= k < i ==> {
                        &&& (#[trigger] near.deep_view()[k]).len() == self.projectiles.len()
                        &&& self.tanks[k].can_take(hits_among(near.deep_view()[k]))
                    },
            decreases self.tanks.len() - i,
        {
            assert(near.deep_view()[i as int] =~= near[i as int]@);
            if near[i].len() != self.projectiles.len() || !self.tanks[i].withstands(&near[i]) {
                return false;
            }
            i += 1;
        }
        true
    }

    /// One tick of the world.
    ///
    /// Every tank takes one hit from each projectile that its row of `near`
    /// marks, in the order of the projectile list; the projectiles are
    /// replaced by `moved`; the wind stays.
    pub fn update(self, near: &Vec<Vec<bool>>, moved: Vec<Projectile>) -> (next: World)
        requires
            self@.admits(near.deep_view(), moved@),
        ensures
            next@ == self@.tick(near.deep_view(), moved@),
            next.wind == self.wind,
            next.tanks.len() == self.tanks.len(),
            next.projectiles@ == moved@,
    {
        let mut tanks: Vec<Tank> = Vec::with_capacity(self.tanks.len());
        let mut i: usize = 0;
        while i < self.tanks.len()
            invariant
                i <= self.tanks.len(),
                self@.admits(near.deep_view(), moved@),
                tanks.len() == i,
                forall|k: int|
                    0 <= k < i ==> tanks[k] == self.tanks[k].after_hits(
                        hits_among(#[trigger] near.deep_view()[k]),
                    ),
            decreases self.tanks.len() - i,
        {
            assert(near.deep_view()[i as int] =~= near[i as int]@);
            let after = self.tanks[i].struck_by(&self.projectiles, &near[i]);
            tanks.push(after);
            i += 1;
        }
        let next = World { wind: self.wind, tanks, projectiles: moved };
        assert(next@.tanks =~= self@.tick(near.deep_view(), moved@).tanks);
        next
    }
}

/// A tick is a function of what it is given, and of nothing else: two worlds
/// that hold the same wind, tanks and projectiles, ticked with the same `near`
/// and the same moved projectiles, come out the same, field for field.
pub proof fn update_is_deterministic(
    first: World,
    second: World,
    near: Vec<Vec<bool>>,
    moved: Vec<Projectile>,
    first_next: World,
    second_next: World,
)
    requires
        first@ == second@,
        first_next@ == first@.tick(near.deep_view(), moved@),
        second_next@ == second@.tick(near.deep_view(), moved@),
    ensures
        first_next@ == second_next@,
        first_next.wind == second_next.wind,
        first_next.tanks@ == second_next.tanks@,
        first_next.projectiles@ == second_next.projectiles@,
{
}

/// A tick neither adds nor removes nor reorders tanks, and changes nothing
/// of a tank but its health, which falls by `HIT_DAMAGE` for each projectile
/// near it.
pub proof fn tick_changes_health_only(
    world: Snapshot,
    near: Seq<Seq<bool>>,
    moved: Seq<Projectile>,
    i: int,
)
    requires
        world.admits(near, moved),
        0 <= i < world.tanks.len(),
    ensures
        world.tick(near, moved).tanks.len() == world.tanks.len(),
        world.tick(near, moved).tanks[i].health == world.tanks[i].health
            - crate::tank::HIT_DAMAGE * hits_among(near[i]),
        world.tick(near, moved).tanks[i].barrel_angle == world.tanks[i].barrel_angle,
        world.tick(near, moved).tanks[i].barrel_length == world.tanks[i].barrel_length,
        world.tick(near, moved).tanks[i].position == world.tanks[i].position,
{
}

/// A tank that no projectile is near comes out of the tick as it went in.
pub proof fn tick_spares_the_untouched(
    world: Snapshot,
    near: Seq<Seq<bool>>,
    moved: Seq<Projectile>,
    i: int,
)
    requires
        world.admits(near, moved),
        0 <= i < world.tanks.len(),
        forall|j: int| 0 <= j < near[i].len() ==> !near[i][j],
    ensures
        world.tick(near, moved).tanks[i] == world.tanks[i],
{
    hits_among_none(near[i]);
}

/// No tick brings a dead tank back: health never rises, and a tank that is
/// alive before a tick and dead after it was hit in that tick.
pub proof fn tick_never_heals(
    world: Snapshot,
    near: Seq<Seq<bool>>,
    moved: Seq<Projectile>,
    i: int,
)
    requires
        world.admits(near, moved),
        0 <= i < world.tanks.len(),
    ensures
        world.tick(near, moved).tanks[i].health <= world.tanks[i].health,
        !world.tanks[i].alive() ==> !world.tick(near, moved).tanks[i].alive(),
        world.tanks[i].alive() && !world.tick(near, moved).tanks[i].alive() ==> hits_among(
            near[i],
        ) > 0,
{
}

} // verus!
