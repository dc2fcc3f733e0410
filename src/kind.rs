use vstd::prelude::*;

verus! {

/// The four kinds of asteroid: two large ones, each with a small fragment kind.
#[derive(Clone, Copy, Debug, PartialEq, Eq, Structural)]
pub enum AsteroidKind {
    Basic,
    SmallBasic,
    Advanced,
    SmallAdvanced,
}

impl AsteroidKind {
    /// The large kinds are exactly `Basic` and `Advanced`.
    pub open spec fn is_large(self) -> bool {
        self == AsteroidKind::Basic || self == AsteroidKind::Advanced
    }

    pub open spec fn health_spec(self) -> u16 {
        match self {
            AsteroidKind::Basic | AsteroidKind::SmallBasic => 1,
            AsteroidKind::Advanced | AsteroidKind::SmallAdvanced => 3,
        }
    }

    pub open spec fn points_spec(self) -> u32 {
        match self {
            AsteroidKind::Basic | AsteroidKind::SmallBasic => 1,
            AsteroidKind::Advanced | AsteroidKind::SmallAdvanced => 5,
        }
    }

    pub open spec fn radius_spec(self) -> u32 {
        if self.is_large() {
            28
        } else {
            14
        }
    }

    pub open spec fn smaller_spec(self) -> AsteroidKind {
        match self {
            AsteroidKind::Basic | AsteroidKind::SmallBasic => AsteroidKind::SmallBasic,
            AsteroidKind::Advanced | AsteroidKind::SmallAdvanced => AsteroidKind::SmallAdvanced,
        }
    }

    pub open spec fn name_spec(self) -> Seq<char> {
        match self {
            AsteroidKind::Basic => "BasicAsteroid"@,
            AsteroidKind::SmallBasic => "SmallBasicAsteroid"@,
            AsteroidKind::Advanced => "AdvancedAsteroid"@,
            AsteroidKind::SmallAdvanced => "SmallAdvancedAsteroid"@,
        }
    }

    /// The name given to an asteroid of this kind in the world.
    pub fn get_name(&self) -> (r: String)
        ensures
            r@ == self.name_spec(),
    {
        let name = match self {
            AsteroidKind::Basic => "BasicAsteroid",
            AsteroidKind::SmallBasic => "SmallBasicAsteroid",
            AsteroidKind::Advanced => "AdvancedAsteroid",
            AsteroidKind::SmallAdvanced => "SmallAdvancedAsteroid",
        };
        String::from_str(name)
    }

    /// Full health of a fresh asteroid of this kind.
    pub fn get_health(&self) -> (r: u16)
        ensures
            r == self.health_spec(),
    {
        match self {
            AsteroidKind::Basic | AsteroidKind::SmallBasic => 1,
            AsteroidKind::Advanced | AsteroidKind::SmallAdvanced => 3,
        }
    }

    /// Points awarded when an asteroid of this kind is shot down.
    pub fn get_points(&self) -> (r: u32)
        ensures
            r == self.points_spec(),
    {
        match self {
            AsteroidKind::Basic | AsteroidKind::SmallBasic => 1,
            AsteroidKind::Advanced | AsteroidKind::SmallAdvanced => 5,
        }
    }

    /// Radius of the circle collider, in world units.
    pub fn get_collider_radius(&self) -> (r: u32)
        ensures
            r == self.radius_spec(),
    {
        match self {
            AsteroidKind::Basic | AsteroidKind::Advanced => 28,
            AsteroidKind::SmallBasic | AsteroidKind::SmallAdvanced => 14,
        }
    }

    /// Whether this is one of the small fragment kinds.
    pub fn is_smaller(&self) -> (r: bool)
        ensures
            r == !self.is_large(),
    {
        match self {
            AsteroidKind::Basic | AsteroidKind::Advanced => false,
            AsteroidKind::SmallBasic | AsteroidKind::SmallAdvanced => true,
        }
    }

    /// The kind of the fragments this kind splits into; small kinds map to themselves.
    pub fn get_smaller(&self) -> (r: AsteroidKind)
        ensures
            r == self.smaller_spec(),
            !r.is_large(),
            !self.is_large() ==> r == *self,
    {
        match self {
            AsteroidKind::Basic | AsteroidKind::SmallBasic => AsteroidKind::SmallBasic,
            AsteroidKind::Advanced | AsteroidKind::SmallAdvanced => AsteroidKind::SmallAdvanced,
        }
    }
}

} // verus!
