//! The fixed, ordered set of parameters and their host-facing metadata.
use vstd::prelude::*;

verus! {

/// Number of parameters the plugin exposes; indices run from 0 to 3.
pub const PARAM_COUNT: i32 = 4;

/// Factor that turns the normalized size into the engine's size unit.
pub const SIZE_SCALE: u32 = 100;

/// Bit pattern of `0.4_f32`, the initial dry/wet mix.
pub const DEFAULT_DRY_WET_BITS: u32 = 0x3ECC_CCCD;
/// Bit pattern of `0.5_f32`, the initial absorption.
pub const DEFAULT_ABSORPTION_BITS: u32 = 0x3F00_0000;
/// Bit pattern of `0.5_f32`, the initial decay.
pub const DEFAULT_DECAY_BITS: u32 = 0x3F00_0000;
/// Bit pattern of `0.3_f32`, the initial size.
pub const DEFAULT_SIZE_BITS: u32 = 0x3E99_999A;

/// One of the four controls, in host index order.
#[derive(Clone, Copy, Debug, PartialEq, Eq, Structural)]
pub enum Param {
    DryWet,
    Absorption,
    Decay,
    Size,
}

/// How the host text of a parameter's value is rendered.
#[derive(Clone, Copy, Debug, PartialEq, Eq, Structural)]
pub enum TextFormat {
    /// The value times one hundred.
    Percent,
    /// The value as it is.
    Plain,
}

/// The parameter at a host index, if the index is one of 0..=3.
pub open spec fn param_at(index: int) -> Option<Param> {
    if index == 0 {
        Some(Param::DryWet)
    } else if index == 1 {
        Some(Param::Absorption)
    } else if index == 2 {
        Some(Param::Decay)
    } else if index == 3 {
        Some(Param::Size)
    } else {
        None
    }
}

/// Whether a host index names a parameter.
pub open spec fn in_range(index: int) -> bool {
    0 <= index < PARAM_COUNT
}

pub open spec fn name_spec(p: Param) -> Seq<char> {
    match p {
        Param::DryWet => "dry/wet"@,
        Param::Absorption => "absorbtion"@,
        Param::Decay => "decay"@,
        Param::Size => "size"@,
    }
}

pub open spec fn label_spec(p: Param) -> Seq<char> {
    match p {
        Param::DryWet => "%"@,
        Param::Absorption => ""@,
        Param::Decay => "s"@,
        Param::Size => "m"@,
    }
}

pub open spec fn text_format_spec(p: Param) -> TextFormat {
    match p {
        Param::DryWet => TextFormat::Percent,
        _ => TextFormat::Plain,
    }
}

impl Param {
    pub open spec fn index_spec(self) -> int {
        match self {
            Param::DryWet => 0,
            Param::Absorption => 1,
            Param::Decay => 2,
            Param::Size => 3,
        }
    }

    /// The parameter at a host index; `None` for any index outside 0..=3.
    pub fn from_index(index: i32) -> (r: Option<Param>)
        ensures
            r == param_at(index as int),
            r.is_some() <==> in_range(index as int),
            r.is_some() ==> r.unwrap().index_spec() == index as int,
    {
        match index {
            0 => Some(Param::DryWet),
            1 => Some(Param::Absorption),
            2 => Some(Param::Decay),
            3 => Some(Param::Size),
            _ => None,
        }
    }

    /// The host index of this parameter.
    pub fn index(self) -> (r: i32)
        ensures
            r as int == self.index_spec(),
            param_at(r as int) == Some(self),
    {
        match self {
            Param::DryWet => 0,
            Param::Absorption => 1,
            Param::Decay => 2,
            Param::Size => 3,
        }
    }

    /// Display name of this parameter.
    pub fn name(self) -> (r: String)
        ensures
            r@ == name_spec(self),
    {
        match self {
            Param::DryWet => "dry/wet".to_string(),
            Param::Absorption => "absorbtion".to_string(),
            Param::Decay => "decay".to_string(),
            Param::Size => "size".to_string(),
        }
    }

    /// Unit label of this parameter.
    pub fn label(self) -> (r: String)
        ensures
            r@ == label_spec(self),
    {
        match self {
            Param::DryWet => "%".to_string(),
            Param::Absorption => "".to_string(),
            Param::Decay => "s".to_string(),
            Param::Size => "m".to_string(),
        }
    }

    /// How the value of this parameter is rendered as text.
    pub fn text_format(self) -> (r: TextFormat)
        ensures
            r == text_format_spec(self),
    {
        match self {
            Param::DryWet => TextFormat::Percent,
            _ => TextFormat::Plain,
        }
    }
}

/// Display name at a host index; empty for an index outside 0..=3.
pub fn parameter_name(index: i32) -> (r: String)
    ensures
        match param_at(index as int) {
            Some(p) => r@ == name_spec(p),
            None => r@ == Seq::<char>::empty(),
        },
{
    match Param::from_index(index) {
        Some(p) => p.name(),
        None => String::new(),
    }
}

/// Unit label at a host index; empty for an index outside 0..=3.
pub fn parameter_label(index: i32) -> (r: String)
    ensures
        match param_at(index as int) {
            Some(p) => r@ == label_spec(p),
            None => r@ == Seq::<char>::empty(),
        },
{
    match Param::from_index(index) {
        Some(p) => p.label(),
        None => String::new(),
    }
}

/// Text format at a host index; `None` (empty text) for an index outside 0..=3.
pub fn parameter_text_format(index: i32) -> (r: Option<TextFormat>)
    ensures
        match param_at(index as int) {
            Some(p) => r == Some(text_format_spec(p)),
            None => r.is_none(),
        },
{
    match Param::from_index(index) {
        Some(p) => Some(p.text_format()),
        None => None,
    }
}

} // verus!
