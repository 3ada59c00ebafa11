//! Compass directions: the four cardinal ones, and the eight ordinal ones
//! that combine two perpendicular cardinals into a diagonal.
use vstd::prelude::*;
use vstd::std_specs::convert::FromSpec;

verus! {

#[derive(Copy, Clone, Debug, PartialEq, Eq, Structural)]
pub enum Cardinal {
    North,
    South,
    East,
    West,
}

impl Cardinal {
    /// The unit step of this direction on screen axes, where north is up
    /// (negative y) and east is towards negative x.
    pub open spec fn offset(self) -> (int, int) {
        match self {
            Cardinal::North => (0, -1),
            Cardinal::South => (0, 1),
            Cardinal::East => (-1, 0),
            Cardinal::West => (1, 0),
        }
    }

    /// The unit step of this direction, in any type that a byte converts into.
    #[must_use]
    pub fn as_point<I: From<i8>>(&self) -> (r: (I, I))
        ensures
            I::obeys_from_spec() ==> r == (
                I::from_spec(self.offset().0 as i8),
                I::from_spec(self.offset().1 as i8),
            ),
    {
        let (x, y): (i8, i8) = match self {
            Cardinal::North => (0, -1),
            Cardinal::South => (0, 1),
            Cardinal::East => (-1, 0),
            Cardinal::West => (1, 0),
        };
        (I::from(x), I::from(y))
    }
}

#[derive(Copy, Clone, Debug, PartialEq, Eq, Structural)]
pub enum Ordinal {
    North,
    Northeast,
    Northwest,
    South,
    Southeast,
    Southwest,
    East,
    West,
}

impl Ordinal {
    /// The two cardinal directions that make up a diagonal.
    pub open spec fn parts(self) -> Option<(Ordinal, Ordinal)> {
        match self {
            Ordinal::Northeast => Some((Ordinal::North, Ordinal::East)),
            Ordinal::Northwest => Some((Ordinal::North, Ordinal::West)),
            Ordinal::Southeast => Some((Ordinal::South, Ordinal::East)),
            Ordinal::Southwest => Some((Ordinal::South, Ordinal::West)),
            _ => None,
        }
    }

    /// The diagonal between two perpendicular cardinals, in either order.
    pub open spec fn diagonal(a: Ordinal, b: Ordinal) -> Option<Ordinal> {
        if Ordinal::Northeast.parts() == Some((a, b)) || Ordinal::Northeast.parts() == Some((b, a)) {
            Some(Ordinal::Northeast)
        } else if Ordinal::Northwest.parts() == Some((a, b)) || Ordinal::Northwest.parts() == Some((b, a)) {
            Some(Ordinal::Northwest)
        } else if Ordinal::Southeast.parts() == Some((a, b)) || Ordinal::Southeast.parts() == Some((b, a)) {
            Some(Ordinal::Southeast)
        } else if Ordinal::Southwest.parts() == Some((a, b)) || Ordinal::Southwest.parts() == Some((b, a)) {
            Some(Ordinal::Southwest)
        } else {
            None
        }
    }

    /// Adds `other` to this direction: two perpendicular cardinals give the
    /// diagonal between them; anything else gives `other`.
    #[must_use]
    pub fn introduce(self, other: Self) -> (r: Self)
        ensures
            r == match Ordinal::diagonal(self, other) {
                Some(d) => d,
                None => other,
            },
    {
        match (self, other) {
            (Ordinal::North, Ordinal::East) | (Ordinal::East, Ordinal::North) => Ordinal::Northeast,
            (Ordinal::North, Ordinal::West) | (Ordinal::West, Ordinal::North) => Ordinal::Northwest,
            (Ordinal::South, Ordinal::East) | (Ordinal::East, Ordinal::South) => Ordinal::Southeast,
            (Ordinal::South, Ordinal::West) | (Ordinal::West, Ordinal::South) => Ordinal::Southwest,
            _ => other,
        }
    }

    /// Takes `other` out of this direction: `None` when the two are equal; the
    /// remaining cardinal when this is a diagonal that has `other` as a part;
    /// otherwise this direction unchanged.
    #[must_use]
    pub fn reduce(self, other: Self) -> (r: Option<Self>)
        ensures
            self == other ==> r is None,
            self != other ==> r == match self.parts() {
                Some((a, b)) => if other == a {
                    Some(b)
                } else if other == b {
                    Some(a)
                } else {
                    Some(self)
                },
                None => Some(self),
            },
    {
        if self == other {
            return None;
        }
        match (self, other) {
            (Ordinal::Northeast, Ordinal::North) => Some(Ordinal::East),
            (Ordinal::Northeast, Ordinal::East) => Some(Ordinal::North),
            (Ordinal::Northwest, Ordinal::North) => Some(Ordinal::West),
            (Ordinal::Northwest, Ordinal::West) => Some(Ordinal::North),
            (Ordinal::Southeast, Ordinal::South) => Some(Ordinal::East),
            (Ordinal::Southeast, Ordinal::East) => Some(Ordinal::South),
            (Ordinal::Southwest, Ordinal::South) => Some(Ordinal::West),
            (Ordinal::Southwest, Ordinal::West) => Some(Ordinal::South),
            _ => Some(self),
        }
    }

    /// The ordinal direction that a cardinal one names.
    pub open spec fn of_cardinal(dir: Cardinal) -> Ordinal {
        match dir {
            Cardinal::North => Ordinal::North,
            Cardinal::South => Ordinal::South,
            Cardinal::East => Ordinal::East,
            Cardinal::West => Ordinal::West,
        }
    }
}

impl From<Cardinal> for Ordinal {
    fn from(dir: Cardinal) -> (r: Ordinal) {
        match dir {
            Cardinal::North => Ordinal::North,
            Cardinal::South => Ordinal::South,
            Cardinal::East => Ordinal::East,
            Cardinal::West => Ordinal::West,
        }
    }
}

impl vstd::std_specs::convert::FromSpecImpl<Cardinal> for Ordinal {
    open spec fn obeys_from_spec() -> bool {
        true
    }

    open spec fn from_spec(dir: Cardinal) -> Ordinal {
        Ordinal::of_cardinal(dir)
    }
}

} // verus!
