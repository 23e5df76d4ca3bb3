//! Courtyard derivation: the margin-expanded outline that marks a
//! component's placement clearance boundary, rendered as four boundary line
//! segments on the courtyard layer.

use crate::board_interface::{
    GraphicElement, GraphicType, GraphicTypeView, GraphicView, RectView, Rectangle, Stroke,
    StrokeType, StrokeView,
};
use crate::fixed::Fixed;
use crate::layer_type::LayerType;
use vstd::prelude::*;

verus! {

/// `r` expanded by `margin` on all four sides.  A negative margin shrinks
/// the rectangle instead, and may produce a degenerate or inverted one;
/// that is accepted, not corrected.
pub open spec fn expand_rect(r: RectView, margin: int) -> RectView {
    RectView {
        min_x: r.min_x - margin,
        min_y: r.min_y - margin,
        max_x: r.max_x + margin,
        max_y: r.max_y + margin,
    }
}

/// Whether the expansion of `r` by `margin` stays within the fixed-point
/// machine range on all four sides.
pub open spec fn courtyard_fits(r: RectView, margin: int) -> bool {
    &&& i64::MIN <= r.min_x - margin <= i64::MAX
    &&& i64::MIN <= r.min_y - margin <= i64::MAX
    &&& i64::MIN <= r.max_x + margin <= i64::MAX
    &&& i64::MIN <= r.max_y + margin <= i64::MAX
}

/// A derived courtyard: the expanded bounds, the margin they were derived
/// with, and the layer the trace is drawn on.
#[derive(Clone, Copy, Debug)]
pub struct Courtyard {
    pub bounds: Rectangle,
    pub margin: Fixed,
    pub layer: LayerType,
}

/// The mathematical image of a [`Courtyard`].
pub ghost struct CourtyardView {
    pub bounds: RectView,
    pub margin: int,
    pub layer: LayerType,
}

impl View for Courtyard {
    type V = CourtyardView;

    open spec fn view(&self) -> CourtyardView {
        CourtyardView { bounds: self.bounds@, margin: self.margin@, layer: self.layer }
    }
}

impl DeepView for Courtyard {
    type V = CourtyardView;

    open spec fn deep_view(&self) -> CourtyardView {
        self.view()
    }
}

/// The stroke every courtyard boundary line is drawn with: solid, 0.05 mm.
pub open spec fn courtyard_stroke() -> StrokeView {
    StrokeView { width: 50000, stroke_type: StrokeType::Solid }
}

/// The four boundary lines of a courtyard with bounds `bounds` on layer
/// `layer`, with identity tokens `ids`: top edge left to right, right edge
/// top to bottom, bottom edge right to left, left edge bottom to top.
pub open spec fn spec_courtyard_elements(
    bounds: RectView,
    layer: LayerType,
    ids: Seq<Seq<char>>,
) -> Seq<GraphicView> {
    seq![
        GraphicView {
            element_type: GraphicTypeView::Line {
                start: (bounds.min_x, bounds.min_y),
                end: (bounds.max_x, bounds.min_y),
            },
            layer,
            stroke: courtyard_stroke(),
            uuid: ids[0],
        },
        GraphicView {
            element_type: GraphicTypeView::Line {
                start: (bounds.max_x, bounds.min_y),
                end: (bounds.max_x, bounds.max_y),
            },
            layer,
            stroke: courtyard_stroke(),
            uuid: ids[1],
        },
        GraphicView {
            element_type: GraphicTypeView::Line {
                start: (bounds.max_x, bounds.max_y),
                end: (bounds.min_x, bounds.max_y),
            },
            layer,
            stroke: courtyard_stroke(),
            uuid: ids[2],
        },
        GraphicView {
            element_type: GraphicTypeView::Line {
                start: (bounds.min_x, bounds.max_y),
                end: (bounds.min_x, bounds.min_y),
            },
            layer,
            stroke: courtyard_stroke(),
            uuid: ids[3],
        },
    ]
}

/// Relies on `uuid::Uuid::new_v4` and the `Display` rendering of a `Uuid`:
/// a fresh random version-4 UUID in hyphenated lowercase form, which is
/// always 36 characters.  The value itself is random, so nothing more is
/// promised of it.
#[verifier::external_body]
pub(crate) fn fresh_token() -> (r: String)
    ensures
        r@.len() == 36,
{
    uuid::Uuid::new_v4().to_string()
}

impl Courtyard {
    /// Derives the courtyard of a component: `bounds` expanded by `margin`
    /// on all sides, on the courtyard layer.  The margin is conventionally
    /// non-negative; a negative one silently yields a smaller or degenerate
    /// rectangle.
    pub fn new(bounds: Rectangle, margin: Fixed) -> (c: Courtyard)
        requires
            courtyard_fits(bounds@, margin@),
        ensures
            c@ == (CourtyardView {
                bounds: expand_rect(bounds@, margin@),
                margin: margin@,
                layer: LayerType::Courtyard,
            }),
    {
        Courtyard {
            bounds: Rectangle {
                min_x: Fixed { units: bounds.min_x.units - margin.units },
                min_y: Fixed { units: bounds.min_y.units - margin.units },
                max_x: Fixed { units: bounds.max_x.units + margin.units },
                max_y: Fixed { units: bounds.max_y.units + margin.units },
            },
            margin,
            layer: LayerType::Courtyard,
        }
    }

    /// The four boundary lines of this courtyard, with the given identity
    /// tokens, one per line in trace order.
    pub fn to_graphic_elements_with_tokens(&self, tokens: Vec<String>) -> (r: Vec<GraphicElement>)
        requires
            tokens@.len() == 4,
        ensures
            r.deep_view() == spec_courtyard_elements(self@.bounds, self@.layer, tokens.deep_view()),
    {
        let ghost ids: Seq<Seq<char>> = tokens.deep_view();
        let mut tokens = tokens;
        let t3 = tokens.pop().unwrap();
        let t2 = tokens.pop().unwrap();
        let t1 = tokens.pop().unwrap();
        let t0 = tokens.pop().unwrap();
        proof {
            assert(t0@ == ids[0] && t1@ == ids[1] && t2@ == ids[2] && t3@ == ids[3]);
        }
        let mut r: Vec<GraphicElement> = Vec::new();
        r.push(
            GraphicElement {
                element_type: GraphicType::Line {
                    start: (self.bounds.min_x, self.bounds.min_y),
                    end: (self.bounds.max_x, self.bounds.min_y),
                },
                layer: self.layer,
                stroke: Stroke { width: Fixed { units: 50000 }, stroke_type: StrokeType::Solid },
                uuid: t0,
            },
        );
        r.push(
            GraphicElement {
                element_type: GraphicType::Line {
                    start: (self.bounds.max_x, self.bounds.min_y),
                    end: (self.bounds.max_x, self.bounds.max_y),
                },
                layer: self.layer,
                stroke: Stroke { width: Fixed { units: 50000 }, stroke_type: StrokeType::Solid },
                uuid: t1,
            },
        );
        r.push(
            GraphicElement {
                element_type: GraphicType::Line {
                    start: (self.bounds.max_x, self.bounds.max_y),
                    end: (self.bounds.min_x, self.bounds.max_y),
                },
                layer: self.layer,
                stroke: Stroke { width: Fixed { units: 50000 }, stroke_type: StrokeType::Solid },
                uuid: t2,
            },
        );
        r.push(
            GraphicElement {
                element_type: GraphicType::Line {
                    start: (self.bounds.min_x, self.bounds.max_y),
                    end: (self.bounds.min_x, self.bounds.min_y),
                },
                layer: self.layer,
                stroke: Stroke { width: Fixed { units: 50000 }, stroke_type: StrokeType::Solid },
                uuid: t3,
            },
        );
        proof {
            assert(r.deep_view() =~= spec_courtyard_elements(self@.bounds, self@.layer, ids));
        }
        r
    }

    /// The four boundary lines of this courtyard, each with a fresh identity
    /// token.  Always exactly four line elements, whatever the rectangle,
    /// including a degenerate or inverted one.
    pub fn to_graphic_elements(&self) -> (r: Vec<GraphicElement>)
        ensures
            r@.len() == 4,
            exists|ids: Seq<Seq<char>>|
                #![auto]
                ids.len() == 4 && (forall|i: int| 0 <= i < 4 ==> ids[i].len() == 36)
                    && r.deep_view() == spec_courtyard_elements(self@.bounds, self@.layer, ids),
    {
        let t0 = fresh_token();
        let t1 = fresh_token();
        let t2 = fresh_token();
        let t3 = fresh_token();
        let ghost ids: Seq<Seq<char>> = seq![t0@, t1@, t2@, t3@];
        let mut tokens: Vec<String> = Vec::new();
        tokens.push(t0);
        tokens.push(t1);
        tokens.push(t2);
        tokens.push(t3);
        proof {
            assert(tokens.deep_view() =~= ids);
        }
        let r = self.to_graphic_elements_with_tokens(tokens);
        proof {
            assert(r.deep_view() == spec_courtyard_elements(self@.bounds, self@.layer, ids));
            assert(r@.len() == r.deep_view().len());
        }
        r
    }
}

/// A courtyard trace always consists of exactly four elements, and every
/// one of them is a line: this holds for every rectangle, a degenerate or
/// inverted one included.
pub proof fn lemma_courtyard_cardinality(bounds: RectView, layer: LayerType, ids: Seq<Seq<char>>)
    ensures
        spec_courtyard_elements(bounds, layer, ids).len() == 4,
        forall|i: int|
            0 <= i < 4 ==> (#[trigger] spec_courtyard_elements(bounds, layer, ids)[i]).element_type
                is Line,
{
}

} // verus!
