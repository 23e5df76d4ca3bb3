//! A library for describing placeable PCB components and serializing them as
//! KiCad footprint files.
//!
//! A component is described through the [`board_interface::BoardComposableObject`]
//! capability interface: classification predicates, identity, geometry, and
//! ordered collections of pads, text and graphics.  The serializer in
//! [`kicad_pcb_export`] walks such a descriptor and emits one self-contained
//! textual footprint document whose section order, field shapes and numeric
//! formatting are pinned down exactly by specification functions.
//!
//! Coordinates, sizes and angles are fixed-point millimetre values with six
//! decimal places (see [`fixed::Fixed`]), so the emitted decimal text is a
//! pure function of the stored value.

pub mod board_interface;
pub mod component;
pub mod courtyard;
pub mod fixed;
pub mod functional_types;
pub mod kicad_pcb_export;
pub mod layer_type;
pub mod package_types;
