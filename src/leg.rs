//! Leg and joint identities, used as addresses into per-leg data.
use vstd::prelude::*;

verus! {

/// One of the four legs. The left and right pairs are mirror images.
#[derive(Debug, Clone, Copy, PartialEq, Eq, Structural)]
pub enum Leg {
    FrontLeft,
    BottomLeft,
    FrontRight,
    BottomRight,
}

/// One of the three joints of a leg.
#[derive(Debug, Clone, Copy, PartialEq, Eq, Structural)]
pub enum Joint {
    Coxa,
    Tibia,
    Femur,
}

/// The leg with the given index; indices past the last leg name the last leg.
pub open spec fn leg_of_index(i: usize) -> Leg {
    if i == 0 {
        Leg::FrontLeft
    } else if i == 1 {
        Leg::BottomLeft
    } else if i == 2 {
        Leg::FrontRight
    } else {
        Leg::BottomRight
    }
}

impl Leg {
    /// Position of the leg in per-leg tables.
    pub open spec fn id(self) -> nat {
        match self {
            Leg::FrontLeft => 0,
            Leg::BottomLeft => 1,
            Leg::FrontRight => 2,
            Leg::BottomRight => 3,
        }
    }

    pub open spec fn label(self) -> Seq<char> {
        match self {
            Leg::FrontLeft => "Front left"@,
            Leg::BottomLeft => "Bottom left"@,
            Leg::FrontRight => "Front right"@,
            Leg::BottomRight => "Bottom right"@,
        }
    }

    pub fn index(self) -> (r: usize)
        ensures
            r == self.id(),
    {
        match self {
            Leg::FrontLeft => 0,
            Leg::BottomLeft => 1,
            Leg::FrontRight => 2,
            Leg::BottomRight => 3,
        }
    }

    /// Human-readable name of the leg.
    pub fn name(self) -> (r: &'static str)
        ensures
            r@ == self.label(),
    {
        match self {
            Leg::FrontLeft => "Front left",
            Leg::BottomLeft => "Bottom left",
            Leg::FrontRight => "Front right",
            Leg::BottomRight => "Bottom right",
        }
    }
}

impl From<usize> for Leg {
    fn from(value: usize) -> Leg {
        if value == 0 {
            Leg::FrontLeft
        } else if value == 1 {
            Leg::BottomLeft
        } else if value == 2 {
            Leg::FrontRight
        } else {
            Leg::BottomRight
        }
    }
}

impl vstd::std_specs::convert::FromSpecImpl<usize> for Leg {
    open spec fn obeys_from_spec() -> bool {
        true
    }

    open spec fn from_spec(v: usize) -> Leg {
        leg_of_index(v)
    }
}

impl Joint {
    /// Position of the joint in per-joint tables.
    pub open spec fn id(self) -> nat {
        match self {
            Joint::Coxa => 0,
            Joint::Tibia => 1,
            Joint::Femur => 2,
        }
    }

    pub open spec fn label(self) -> Seq<char> {
        match self {
            Joint::Coxa => "coxa"@,
            Joint::Tibia => "tibia"@,
            Joint::Femur => "femur"@,
        }
    }

    pub fn index(self) -> (r: usize)
        ensures
            r == self.id(),
    {
        match self {
            Joint::Coxa => 0,
            Joint::Tibia => 1,
            Joint::Femur => 2,
        }
    }

    /// The joint with the given index.
    pub fn from_index(value: usize) -> (r: Joint)
        requires
            value < 3,
        ensures
            r.id() == value,
    {
        if value == 0 {
            Joint::Coxa
        } else if value == 1 {
            Joint::Tibia
        } else {
            Joint::Femur
        }
    }

    /// Human-readable name of the joint.
    pub fn name(self) -> (r: &'static str)
        ensures
            r@ == self.label(),
    {
        match self {
            Joint::Coxa => "coxa",
            Joint::Tibia => "tibia",
            Joint::Femur => "femur",
        }
    }
}

} // verus!
