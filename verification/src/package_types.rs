//! Physical package families of electronic components: surface mount,
//! through-hole, BGA and QFP, with their characteristic dimensions.

use crate::fixed::Fixed;
use vstd::prelude::*;

verus! {

/// The physical mounting form of a component.
#[derive(Clone, Copy, Debug)]
pub enum Package {
    /// A surface-mount body such as 0603 or 0805.
    SMT { size: (Fixed, Fixed), pitch: Option<Fixed> },
    /// A through-hole body with lead spacing and drill size.
    ThroughHole { spacing: Fixed, drill_size: Fixed },
    /// A ball-grid array with its ball pitch and array dimensions.
    BGA { pitch: Fixed, array_size: (u32, u32) },
    /// A quad flat package with its lead pitch and lead count.
    QFP { pitch: Fixed, pin_count: u32 },
}

/// Marker capability for types that describe a physical package family.
pub trait PackageType {

}

impl PackageType for Package {

}

} // verus!
