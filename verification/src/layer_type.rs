//! The closed set of board layers a graphic element can live on, with the
//! fixed mapping to the KiCad layer-name strings.

use vstd::prelude::*;

verus! {

/// A front-side board layer.
#[derive(Clone, Copy, PartialEq, Eq, Structural, Debug)]
pub enum LayerType {
    /// F.SilkS - visible markings
    SilkScreen,
    /// F.CrtYd - component boundary
    Courtyard,
    /// F.Fab - manufacturing reference
    Fabrication,
    /// F.Cu - electrical layer
    Copper,
    /// F.Mask - solder mask
    Mask,
    /// F.Paste - solder paste
    Paste,
}

/// The KiCad layer-name string for `l`.  This mapping is part of the
/// external-format contract and never changes.
pub open spec fn layer_kicad_str(l: LayerType) -> Seq<char> {
    match l {
        LayerType::SilkScreen => "F.SilkS"@,
        LayerType::Courtyard => "F.CrtYd"@,
        LayerType::Fabrication => "F.Fab"@,
        LayerType::Copper => "F.Cu"@,
        LayerType::Mask => "F.Mask"@,
        LayerType::Paste => "F.Paste"@,
    }
}

impl LayerType {
    /// The KiCad layer-name string for this layer.
    pub fn to_kicad_string(&self) -> (r: &'static str)
        ensures
            r@ == layer_kicad_str(*self),
    {
        match self {
            LayerType::SilkScreen => "F.SilkS",
            LayerType::Courtyard => "F.CrtYd",
            LayerType::Fabrication => "F.Fab",
            LayerType::Copper => "F.Cu",
            LayerType::Mask => "F.Mask",
            LayerType::Paste => "F.Paste",
        }
    }
}

} // verus!
