//! A concrete component descriptor: one flat record holding everything the
//! capability interface exposes.  Any footprint can be described by filling
//! in its fields; the accessors hand back copies of the stored values, so
//! the descriptor state never varies within a serialization pass.

use crate::board_interface::{
    BoardComposableObject, BoardComposableObjectInfo, ComponentModel, FpText, GraphicElement,
    Model3D, PadDescriptor, Rectangle,
};
use crate::fixed::Fixed;
use crate::functional_types::FunctionalType;
use vstd::prelude::*;

verus! {

/// A component described directly by its data: classification flags,
/// identity, geometry, and the ordered pad, text and graphic collections.
#[derive(Debug)]
pub struct GenericComponent {
    pub is_smt: bool,
    pub is_electrical: bool,
    pub is_passive: bool,
    pub terminal_count: usize,
    pub functional_type: FunctionalType,
    pub footprint_name: String,
    pub library_name: String,
    pub bounding_box: Rectangle,
    pub pads: Vec<PadDescriptor>,
    pub description: Option<String>,
    pub tags: Option<String>,
    pub fp_texts: Vec<FpText>,
    pub graphics: Vec<GraphicElement>,
    pub model_3d: Option<Model3D>,
    pub courtyard_margin: Fixed,
}

impl BoardComposableObject for GenericComponent {
    open spec fn model(&self) -> ComponentModel {
        ComponentModel {
            is_smt: self.is_smt,
            is_electrical: self.is_electrical,
            is_passive: self.is_passive,
            terminal_count: self.terminal_count as int,
            functional_type: self.functional_type@,
            footprint_name: self.footprint_name@,
            library_name: self.library_name@,
            bounding_box: self.bounding_box@,
            pads: self.pads.deep_view(),
            description: self.description.deep_view(),
            tags: self.tags.deep_view(),
            texts: self.fp_texts.deep_view(),
            graphics: self.graphics.deep_view(),
            model_3d: self.model_3d.deep_view(),
            courtyard_margin: self.courtyard_margin@,
        }
    }

    fn is_smt(&self) -> bool {
        self.is_smt
    }

    fn is_electrical(&self) -> bool {
        self.is_electrical
    }

    fn is_passive(&self) -> bool {
        self.is_passive
    }

    fn terminal_count(&self) -> usize {
        self.terminal_count
    }

    fn functional_type(&self) -> FunctionalType {
        self.functional_type.duplicate()
    }

    fn footprint_name(&self) -> String {
        self.footprint_name.clone()
    }

    fn library_name(&self) -> String {
        self.library_name.clone()
    }

    fn bounding_box(&self) -> Rectangle {
        self.bounding_box
    }

    fn pad_descriptors(&self) -> (r: Vec<PadDescriptor>) {
        let mut r: Vec<PadDescriptor> = Vec::new();
        let mut i: usize = 0;
        while i < self.pads.len()
            invariant
                i <= self.pads@.len(),
                r@.len() == i,
                forall|k: int| 0 <= k < i ==> (#[trigger] r@[k])@ == self.pads@[k]@,
            decreases self.pads@.len() - i,
        {
            r.push(self.pads[i].duplicate());
            i = i + 1;
        }
        proof {
            assert(r.deep_view() =~= self.pads.deep_view());
        }
        r
    }

    fn description(&self) -> (r: Option<String>) {
        match &self.description {
            Some(s) => Some(s.clone()),
            None => None,
        }
    }

    fn tags(&self) -> (r: Option<String>) {
        match &self.tags {
            Some(s) => Some(s.clone()),
            None => None,
        }
    }

    fn fp_text_elements(&self) -> (r: Vec<FpText>) {
        let mut r: Vec<FpText> = Vec::new();
        let mut i: usize = 0;
        while i < self.fp_texts.len()
            invariant
                i <= self.fp_texts@.len(),
                r@.len() == i,
                forall|k: int| 0 <= k < i ==> (#[trigger] r@[k])@ == self.fp_texts@[k]@,
            decreases self.fp_texts@.len() - i,
        {
            r.push(self.fp_texts[i].duplicate());
            i = i + 1;
        }
        proof {
            assert(r.deep_view() =~= self.fp_texts.deep_view());
        }
        r
    }

    fn graphic_elements(&self) -> (r: Vec<GraphicElement>) {
        let mut r: Vec<GraphicElement> = Vec::new();
        let mut i: usize = 0;
        while i < self.graphics.len()
            invariant
                i <= self.graphics@.len(),
                r@.len() == i,
                forall|k: int| 0 <= k < i ==> (#[trigger] r@[k])@ == self.graphics@[k]@,
            decreases self.graphics@.len() - i,
        {
            r.push(self.graphics[i].duplicate());
            i = i + 1;
        }
        proof {
            assert(r.deep_view() =~= self.graphics.deep_view());
        }
        r
    }

    fn model_3d(&self) -> (r: Option<Model3D>) {
        match &self.model_3d {
            Some(m) => Some(m.duplicate()),
            None => None,
        }
    }

    fn courtyard_margin(&self) -> Fixed {
        self.courtyard_margin
    }
}

impl BoardComposableObjectInfo for GenericComponent {
    fn is_electrical(&self) -> bool {
        self.is_electrical
    }

    fn is_smt(&self) -> bool {
        self.is_smt
    }

    fn terminal_count(&self) -> usize {
        self.terminal_count
    }
}

} // verus!

