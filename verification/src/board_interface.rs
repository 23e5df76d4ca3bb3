//! The capability interface of a placeable board object and the value types
//! it exposes: pads, text elements, graphics, a 3-D model reference, plus
//! the classification and identity accessors.
//!
//! Every exec type here has a mathematical image (its *view*): strings become
//! character sequences and fixed-point values become unbounded integers.  A
//! component gathers those images in a [`ComponentModel`]; the accessors of
//! [`BoardComposableObject`] are each pinned to one field of that model, so a
//! descriptor presents one immutable state to a whole serialization pass.

use crate::courtyard::{courtyard_fits, expand_rect, Courtyard, CourtyardView};
use crate::fixed::Fixed;
use crate::functional_types::{FunctionalType, FunctionalTypeView};
use crate::layer_type::LayerType;
use std::collections::HashMap;
use vstd::prelude::*;

verus! {

/// An axis-aligned rectangle in component-local millimetre coordinates.
/// Well-formed geometry has `min_x <= max_x` and `min_y <= max_y`, but this
/// is the caller's responsibility: a rectangle with `min > max` is carried
/// and serialized as-is.
#[derive(Clone, Copy, PartialEq, Eq, Structural, Debug)]
pub struct Rectangle {
    pub min_x: Fixed,
    pub min_y: Fixed,
    pub max_x: Fixed,
    pub max_y: Fixed,
}

/// The mathematical image of a [`Rectangle`].
pub ghost struct RectView {
    pub min_x: int,
    pub min_y: int,
    pub max_x: int,
    pub max_y: int,
}

impl View for Rectangle {
    type V = RectView;

    open spec fn view(&self) -> RectView {
        RectView {
            min_x: self.min_x@,
            min_y: self.min_y@,
            max_x: self.max_x@,
            max_y: self.max_y@,
        }
    }
}

impl DeepView for Rectangle {
    type V = RectView;

    open spec fn deep_view(&self) -> RectView {
        self.view()
    }
}

/// How a pad connects to the board.
#[derive(Clone, Copy, PartialEq, Eq, Structural, Debug)]
pub enum PadType {
    SMD,
    ThroughHole,
    /// Non-plated through hole
    NPTH,
}

/// The copper shape of a pad.
#[derive(Clone, Copy, PartialEq, Eq, Structural, Debug)]
pub enum PadShape {
    Circle,
    Rect,
    Oval,
    RoundRect,
}

/// Whether solder mask covers a plated hole on one side.
#[derive(Clone, Copy, PartialEq, Eq, Structural, Debug)]
pub enum TentingType {
    /// The hole is left open.
    NotTented,
    Full,
    Partial,
}

/// Tenting choice for the front and back side of a pad.
#[derive(Clone, Copy, PartialEq, Eq, Structural, Debug)]
pub struct TentingSettings {
    pub front: TentingType,
    pub back: TentingType,
}

/// One pad of a footprint: its number, connection type, shape, geometry,
/// layer set and identity token.
#[derive(Debug)]
pub struct PadDescriptor {
    pub number: String,
    pub pad_type: PadType,
    pub shape: PadShape,
    pub position: (Fixed, Fixed),
    pub size: (Fixed, Fixed),
    pub drill_size: Option<Fixed>,
    pub layers: Vec<String>,
    /// Corner-radius fraction, present exactly for roundrect pads.
    pub roundrect_ratio: Option<Fixed>,
    pub tenting: TentingSettings,
    pub uuid: String,
}

/// The mathematical image of a [`PadDescriptor`].
pub ghost struct PadView {
    pub number: Seq<char>,
    pub pad_type: PadType,
    pub shape: PadShape,
    pub position: (int, int),
    pub size: (int, int),
    pub drill_size: Option<int>,
    pub layers: Seq<Seq<char>>,
    pub roundrect_ratio: Option<int>,
    pub tenting: TentingSettings,
    pub uuid: Seq<char>,
}

impl View for PadDescriptor {
    type V = PadView;

    open spec fn view(&self) -> PadView {
        PadView {
            number: self.number@,
            pad_type: self.pad_type,
            shape: self.shape,
            position: (self.position.0@, self.position.1@),
            size: (self.size.0@, self.size.1@),
            drill_size: self.drill_size.deep_view(),
            layers: self.layers.deep_view(),
            roundrect_ratio: self.roundrect_ratio.deep_view(),
            tenting: self.tenting,
            uuid: self.uuid@,
        }
    }
}

impl DeepView for PadDescriptor {
    type V = PadView;

    open spec fn deep_view(&self) -> PadView {
        self.view()
    }
}

/// The role of a text element within a footprint.
#[derive(Clone, Copy, PartialEq, Eq, Structural, Debug)]
pub enum FpTextType {
    Reference,
    Value,
    User,
}

/// Text size and stroke thickness of a footprint text element.
#[derive(Clone, Copy, Debug)]
pub struct FontSettings {
    pub size: (Fixed, Fixed),
    pub thickness: Fixed,
}

/// The mathematical image of a [`FontSettings`].
pub ghost struct FontView {
    pub size: (int, int),
    pub thickness: int,
}

impl View for FontSettings {
    type V = FontView;

    open spec fn view(&self) -> FontView {
        FontView { size: (self.size.0@, self.size.1@), thickness: self.thickness@ }
    }
}

impl DeepView for FontSettings {
    type V = FontView;

    open spec fn deep_view(&self) -> FontView {
        self.view()
    }
}

/// A text element of a footprint: reference, value or free text, with its
/// position, optional rotation, layer name, identity token and font.
#[derive(Debug)]
pub struct FpText {
    pub text_type: FpTextType,
    pub text: String,
    pub position: (Fixed, Fixed),
    pub rotation: Option<Fixed>,
    pub layer: String,
    pub uuid: String,
    pub font: FontSettings,
}

/// The mathematical image of an [`FpText`].
pub ghost struct TextView {
    pub text_type: FpTextType,
    pub text: Seq<char>,
    pub position: (int, int),
    pub rotation: Option<int>,
    pub layer: Seq<char>,
    pub uuid: Seq<char>,
    pub font: FontView,
}

impl View for FpText {
    type V = TextView;

    open spec fn view(&self) -> TextView {
        TextView {
            text_type: self.text_type,
            text: self.text@,
            position: (self.position.0@, self.position.1@),
            rotation: self.rotation.deep_view(),
            layer: self.layer@,
            uuid: self.uuid@,
            font: self.font@,
        }
    }
}

impl DeepView for FpText {
    type V = TextView;

    open spec fn deep_view(&self) -> TextView {
        self.view()
    }
}

/// A named property of a footprint, with its placement, visibility flags,
/// identity token and font.
#[derive(Debug)]
pub struct FootprintProperty {
    pub name: String,
    pub value: String,
    pub position: (Fixed, Fixed),
    pub rotation: Option<Fixed>,
    pub layer: String,
    pub hidden: bool,
    pub unlocked: bool,
    pub uuid: String,
    pub font: FontSettings,
}

/// The mathematical image of a [`FootprintProperty`].
pub ghost struct PropertyView {
    pub name: Seq<char>,
    pub value: Seq<char>,
    pub position: (int, int),
    pub rotation: Option<int>,
    pub layer: Seq<char>,
    pub hidden: bool,
    pub unlocked: bool,
    pub uuid: Seq<char>,
    pub font: FontView,
}

impl View for FootprintProperty {
    type V = PropertyView;

    open spec fn view(&self) -> PropertyView {
        PropertyView {
            name: self.name@,
            value: self.value@,
            position: (self.position.0@, self.position.1@),
            rotation: self.rotation.deep_view(),
            layer: self.layer@,
            hidden: self.hidden,
            unlocked: self.unlocked,
            uuid: self.uuid@,
            font: self.font@,
        }
    }
}

impl DeepView for FootprintProperty {
    type V = PropertyView;

    open spec fn deep_view(&self) -> PropertyView {
        self.view()
    }
}

/// How a stroked line is drawn.
#[derive(Clone, Copy, PartialEq, Eq, Structural, Debug)]
pub enum StrokeType {
    Solid,
    Dashed,
    Dotted,
}

/// Stroke width and pattern of a graphic element.
#[derive(Clone, Copy, PartialEq, Eq, Structural, Debug)]
pub struct Stroke {
    pub width: Fixed,
    pub stroke_type: StrokeType,
}

/// The mathematical image of a [`Stroke`].
pub ghost struct StrokeView {
    pub width: int,
    pub stroke_type: StrokeType,
}

impl View for Stroke {
    type V = StrokeView;

    open spec fn view(&self) -> StrokeView {
        StrokeView { width: self.width@, stroke_type: self.stroke_type }
    }
}

impl DeepView for Stroke {
    type V = StrokeView;

    open spec fn deep_view(&self) -> StrokeView {
        self.view()
    }
}

/// The geometry of a graphic element.  Only lines have a rendering rule;
/// rectangles and circles are carried but silently omitted from serialized
/// output.
#[derive(Clone, Copy, Debug)]
pub enum GraphicType {
    Line { start: (Fixed, Fixed), end: (Fixed, Fixed) },
    Rectangle { bounds: Rectangle },
    Circle { center: (Fixed, Fixed), radius: Fixed },
}

/// The mathematical image of a [`GraphicType`].
pub ghost enum GraphicTypeView {
    Line { start: (int, int), end: (int, int) },
    Rectangle { bounds: RectView },
    Circle { center: (int, int), radius: int },
}

impl View for GraphicType {
    type V = GraphicTypeView;

    open spec fn view(&self) -> GraphicTypeView {
        match self {
            GraphicType::Line { start, end } => GraphicTypeView::Line {
                start: (start.0@, start.1@),
                end: (end.0@, end.1@),
            },
            GraphicType::Rectangle { bounds } => GraphicTypeView::Rectangle { bounds: bounds@ },
            GraphicType::Circle { center, radius } => GraphicTypeView::Circle {
                center: (center.0@, center.1@),
                radius: radius@,
            },
        }
    }
}

impl DeepView for GraphicType {
    type V = GraphicTypeView;

    open spec fn deep_view(&self) -> GraphicTypeView {
        self.view()
    }
}

/// A drawn element of a footprint: its geometry, layer, stroke and identity
/// token.
#[derive(Clone, Debug)]
pub struct GraphicElement {
    pub element_type: GraphicType,
    pub layer: LayerType,
    pub stroke: Stroke,
    pub uuid: String,
}

/// The mathematical image of a [`GraphicElement`].
pub ghost struct GraphicView {
    pub element_type: GraphicTypeView,
    pub layer: LayerType,
    pub stroke: StrokeView,
    pub uuid: Seq<char>,
}

impl View for GraphicElement {
    type V = GraphicView;

    open spec fn view(&self) -> GraphicView {
        GraphicView {
            element_type: self.element_type@,
            layer: self.layer,
            stroke: self.stroke@,
            uuid: self.uuid@,
        }
    }
}

impl DeepView for GraphicElement {
    type V = GraphicView;

    open spec fn deep_view(&self) -> GraphicView {
        self.view()
    }
}

/// A reference to a 3-D model of the component, with placement transforms.
#[derive(Debug)]
pub struct Model3D {
    pub path: String,
    pub offset: (Fixed, Fixed, Fixed),
    pub scale: (Fixed, Fixed, Fixed),
    pub rotation: (Fixed, Fixed, Fixed),
}

/// The mathematical image of a [`Model3D`].
pub ghost struct ModelView {
    pub path: Seq<char>,
    pub offset: (int, int, int),
    pub scale: (int, int, int),
    pub rotation: (int, int, int),
}

impl View for Model3D {
    type V = ModelView;

    open spec fn view(&self) -> ModelView {
        ModelView {
            path: self.path@,
            offset: (self.offset.0@, self.offset.1@, self.offset.2@),
            scale: (self.scale.0@, self.scale.1@, self.scale.2@),
            rotation: (self.rotation.0@, self.rotation.1@, self.rotation.2@),
        }
    }
}

impl DeepView for Model3D {
    type V = ModelView;

    open spec fn deep_view(&self) -> ModelView {
        self.view()
    }
}

/// The graphic elements that belong to one copper layer.
#[derive(Clone, Debug)]
pub struct CopperLayer {
    pub layer_name: String,
    pub elements: Vec<GraphicElement>,
}

/// One element drawn on the silkscreen.
#[derive(Clone, Debug)]
pub struct SilkscreenElement {
    pub element: GraphicElement,
}

/// A rectangular opening in the solder mask.
#[derive(Clone, Copy, Debug)]
pub struct MaskOpening {
    pub bounds: Rectangle,
}

/// Identifier of a pin within a component.
pub type PinId = u32;

/// Identifier of an electrical net.
pub type NetId = u32;

/// The electrical role of a pin.
#[derive(Clone, Copy, PartialEq, Eq, Structural, Debug)]
pub enum ElectricalType {
    Input,
    Output,
    Bidirectional,
    Power,
    Ground,
    Passive,
}

/// One electrical terminal of a component.
#[derive(Debug)]
pub struct Pin {
    pub id: PinId,
    pub number: String,
    pub position: (Fixed, Fixed),
    pub electrical_type: ElectricalType,
}

/// The complete descriptor state of one component, as a mathematical value:
/// what every accessor of [`BoardComposableObject`] returns, in image form.
pub ghost struct ComponentModel {
    pub is_smt: bool,
    pub is_electrical: bool,
    pub is_passive: bool,
    pub terminal_count: int,
    pub functional_type: FunctionalTypeView,
    pub footprint_name: Seq<char>,
    pub library_name: Seq<char>,
    pub bounding_box: RectView,
    pub pads: Seq<PadView>,
    pub description: Option<Seq<char>>,
    pub tags: Option<Seq<char>>,
    pub texts: Seq<TextView>,
    pub graphics: Seq<GraphicView>,
    pub model_3d: Option<ModelView>,
    pub courtyard_margin: int,
}

/// The capability interface of a generic object that can be part of a
/// printed circuit board: a resistor, a capacitor, an IC, a mounting hole.
///
/// An implementer presents one fixed descriptor state, the [`ComponentModel`]
/// returned by [`Self::model`].  Every accessor is pinned to that state, so
/// the serializer may call any accessor any number of times and always sees
/// the same values.
pub trait BoardComposableObject {
    /// The descriptor state this component presents.
    spec fn model(&self) -> ComponentModel;

    /// Whether the component is surface-mounted.
    fn is_smt(&self) -> (r: bool)
        ensures
            r == self.model().is_smt,
    ;

    /// Whether the component takes part in the circuit electrically.
    fn is_electrical(&self) -> (r: bool)
        ensures
            r == self.model().is_electrical,
    ;

    /// Whether the component is a passive part.
    fn is_passive(&self) -> (r: bool)
        ensures
            r == self.model().is_passive,
    ;

    /// The number of electrical terminals.
    fn terminal_count(&self) -> (r: usize)
        ensures
            r as int == self.model().terminal_count,
    ;

    /// The electrical role of the component.
    fn functional_type(&self) -> (r: FunctionalType)
        ensures
            r@ == self.model().functional_type,
    ;

    /// The name of the footprint, used to tag the emitted document.
    fn footprint_name(&self) -> (r: String)
        ensures
            r@ == self.model().footprint_name,
    ;

    /// The name of the library the footprint belongs to.
    fn library_name(&self) -> (r: String)
        ensures
            r@ == self.model().library_name,
    ;

    /// The axis-aligned bounding box in component-local coordinates.
    fn bounding_box(&self) -> (r: Rectangle)
        ensures
            r@ == self.model().bounding_box,
    ;

    /// The pads, in emission order.
    fn pad_descriptors(&self) -> (r: Vec<PadDescriptor>)
        ensures
            r.deep_view() == self.model().pads,
    ;

    /// An optional free-text description.
    fn description(&self) -> (r: Option<String>)
        ensures
            r.deep_view() == self.model().description,
    ;

    /// Optional free-text search tags.
    fn tags(&self) -> (r: Option<String>)
        ensures
            r.deep_view() == self.model().tags,
    ;

    /// The text elements, in emission order.
    fn fp_text_elements(&self) -> (r: Vec<FpText>)
        ensures
            r.deep_view() == self.model().texts,
    ;

    /// The declared graphic elements, in emission order (the derived
    /// courtyard trace is appended after these by the serializer).
    fn graphic_elements(&self) -> (r: Vec<GraphicElement>)
        ensures
            r.deep_view() == self.model().graphics,
    ;

    /// An optional 3-D model reference.
    fn model_3d(&self) -> (r: Option<Model3D>)
        ensures
            r.deep_view() == self.model().model_3d,
    ;

    /// The courtyard margin; 0.25 mm is the conventional value.
    fn courtyard_margin(&self) -> (r: Fixed)
        ensures
            r@ == self.model().courtyard_margin,
    ;

    /// The derived courtyard: the bounding box expanded by the courtyard
    /// margin on all sides, on the courtyard layer.  This derivation is not
    /// independently overridable: its result is pinned to `bounding_box` and
    /// `courtyard_margin`.
    fn generate_courtyard(&self) -> (c: Courtyard)
        requires
            courtyard_fits(self.model().bounding_box, self.model().courtyard_margin),
        ensures
            c@ == (CourtyardView {
                bounds: expand_rect(self.model().bounding_box, self.model().courtyard_margin),
                margin: self.model().courtyard_margin,
                layer: LayerType::Courtyard,
            }),
    {
        Courtyard::new(self.bounding_box(), self.courtyard_margin())
    }
}

/// The basic classification queries alone, kept separate so that object-safe
/// uses need not mention the full capability interface.
pub trait BoardComposableObjectInfo {
    fn is_electrical(&self) -> bool;

    fn is_smt(&self) -> bool;

    fn terminal_count(&self) -> usize;
}

/// Capability of producing a KiCad `.kicad_mod` document.
pub trait KiCadExportable {
    fn to_kicad_footprint(&self) -> String;
}

/// Capability of reporting per-layer content.
pub trait LayerAware {
    fn copper_layers(&self) -> Vec<CopperLayer>;

    fn silkscreen_elements(&self) -> Vec<SilkscreenElement>;

    fn soldermask_openings(&self) -> Vec<MaskOpening>;
}

/// Capability of reporting pins and their net connections.
pub trait ElectricalComponent {
    fn pins(&self) -> Vec<Pin>;

    fn net_connections(&self) -> HashMap<PinId, NetId>;
}

/// A copy of a string list whose element views are kept.
fn clone_string_vec(v: &Vec<String>) -> (r: Vec<String>)
    ensures
        r.deep_view() == v.deep_view(),
{
    let mut r: Vec<String> = Vec::new();
    let mut i: usize = 0;
    while i < v.len()
        invariant
            i <= v@.len(),
            r@.len() == i,
            forall|k: int| 0 <= k < i ==> #[trigger] r@[k] == v@[k],
        decreases v@.len() - i,
    {
        r.push(v[i].clone());
        i = i + 1;
    }
    proof {
        assert(r.deep_view() =~= v.deep_view());
    }
    r
}

impl PadDescriptor {
    /// A copy of this pad whose view equals this one's.
    pub fn duplicate(&self) -> (r: PadDescriptor)
        ensures
            r@ == self@,
    {
        PadDescriptor {
            number: self.number.clone(),
            pad_type: self.pad_type,
            shape: self.shape,
            position: self.position,
            size: self.size,
            drill_size: self.drill_size,
            layers: clone_string_vec(&self.layers),
            roundrect_ratio: self.roundrect_ratio,
            tenting: self.tenting,
            uuid: self.uuid.clone(),
        }
    }
}

impl FpText {
    /// A copy of this text element whose view equals this one's.
    pub fn duplicate(&self) -> (r: FpText)
        ensures
            r@ == self@,
    {
        FpText {
            text_type: self.text_type,
            text: self.text.clone(),
            position: self.position,
            rotation: self.rotation,
            layer: self.layer.clone(),
            uuid: self.uuid.clone(),
            font: self.font,
        }
    }
}

impl GraphicElement {
    /// A copy of this graphic element whose view equals this one's.
    pub fn duplicate(&self) -> (r: GraphicElement)
        ensures
            r@ == self@,
    {
        GraphicElement {
            element_type: self.element_type,
            layer: self.layer,
            stroke: self.stroke,
            uuid: self.uuid.clone(),
        }
    }
}

impl Model3D {
    /// A copy of this model reference whose view equals this one's.
    pub fn duplicate(&self) -> (r: Model3D)
        ensures
            r@ == self@,
    {
        Model3D {
            path: self.path.clone(),
            offset: self.offset,
            scale: self.scale,
            rotation: self.rotation,
        }
    }
}

} // verus!
