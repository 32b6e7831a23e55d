use vstd::prelude::*;

verus! {

/// The filter shape of one band.
#[derive(PartialEq, Eq, Structural, Debug, Clone, Copy)]
pub enum BandKind {
    Bell,
    LowPass,
    HighPass,
    LowShelf,
    HighShelf,
    Notch,
    BandPass,
    AllPass,
}

/// The order of the filter that a band runs.
#[derive(PartialEq, Eq, Structural, Debug, Clone, Copy)]
pub enum BandMode {
    FirstOrder,
    SecondOrder,
}

/// Decoding of a kind code; codes past the last kind fall back to a low pass.
pub open spec fn kind_of_code(value: u8) -> BandKind {
    if value == 0 {
        BandKind::Bell
    } else if value == 1 {
        BandKind::LowPass
    } else if value == 2 {
        BandKind::HighPass
    } else if value == 3 {
        BandKind::LowShelf
    } else if value == 4 {
        BandKind::HighShelf
    } else if value == 5 {
        BandKind::Notch
    } else if value == 6 {
        BandKind::BandPass
    } else if value == 7 {
        BandKind::AllPass
    } else {
        BandKind::LowPass
    }
}

/// Decoding of a mode code; every code but zero selects the second order.
pub open spec fn mode_of_code(value: u8) -> BandMode {
    if value == 0 {
        BandMode::FirstOrder
    } else {
        BandMode::SecondOrder
    }
}

/// The shapes that have a first-order design of their own.
pub open spec fn has_first_order_design(kind: BandKind) -> bool {
    match kind {
        BandKind::LowPass | BandKind::HighPass | BandKind::LowShelf | BandKind::HighShelf
        | BandKind::AllPass => true,
        _ => false,
    }
}

/// The text shown for a kind: the variant's own name.
pub open spec fn kind_name(kind: BandKind) -> Seq<char> {
    match kind {
        BandKind::Bell => "Bell"@,
        BandKind::LowPass => "LowPass"@,
        BandKind::HighPass => "HighPass"@,
        BandKind::LowShelf => "LowShelf"@,
        BandKind::HighShelf => "HighShelf"@,
        BandKind::Notch => "Notch"@,
        BandKind::BandPass => "BandPass"@,
        BandKind::AllPass => "AllPass"@,
    }
}

/// The text shown for a mode: the variant's own name.
pub open spec fn mode_name(mode: BandMode) -> Seq<char> {
    match mode {
        BandMode::FirstOrder => "FirstOrder"@,
        BandMode::SecondOrder => "SecondOrder"@,
    }
}

impl BandKind {
    /// Decode a kind code; out-of-range codes give `LowPass`.
    pub fn from_u8(value: u8) -> (r: BandKind)
        ensures
            r == kind_of_code(value),
    {
        match value {
            0 => BandKind::Bell,
            1 => BandKind::LowPass,
            2 => BandKind::HighPass,
            3 => BandKind::LowShelf,
            4 => BandKind::HighShelf,
            5 => BandKind::Notch,
            6 => BandKind::BandPass,
            7 => BandKind::AllPass,
            _ => BandKind::LowPass,
        }
    }

    /// The kind whose first-order design a band of this kind runs: the kind
    /// itself where one exists, an all pass otherwise.
    pub fn first_order_kind(&self) -> (r: BandKind)
        ensures
            r == (if has_first_order_design(*self) {
                *self
            } else {
                BandKind::AllPass
            }),
    {
        match self {
            BandKind::LowPass => BandKind::LowPass,
            BandKind::HighPass => BandKind::HighPass,
            BandKind::LowShelf => BandKind::LowShelf,
            BandKind::HighShelf => BandKind::HighShelf,
            _ => BandKind::AllPass,
        }
    }

    /// The variant's name, as shown to the user.
    pub fn name(&self) -> (r: String)
        ensures
            r@ == kind_name(*self),
    {
        let s: &str = match self {
            BandKind::Bell => "Bell",
            BandKind::LowPass => "LowPass",
            BandKind::HighPass => "HighPass",
            BandKind::LowShelf => "LowShelf",
            BandKind::HighShelf => "HighShelf",
            BandKind::Notch => "Notch",
            BandKind::BandPass => "BandPass",
            BandKind::AllPass => "AllPass",
        };
        s.to_string()
    }
}

impl BandMode {
    /// Decode a mode code; every code but zero gives `SecondOrder`.
    pub fn from_u8(value: u8) -> (r: BandMode)
        ensures
            r == mode_of_code(value),
    {
        match value {
            0 => BandMode::FirstOrder,
            1 => BandMode::SecondOrder,
            _ => BandMode::SecondOrder,
        }
    }

    /// The variant's name, as shown to the user.
    pub fn name(&self) -> (r: String)
        ensures
            r@ == mode_name(*self),
    {
        let s: &str = match self {
            BandMode::FirstOrder => "FirstOrder",
            BandMode::SecondOrder => "SecondOrder",
        };
        s.to_string()
    }
}

} // verus!
