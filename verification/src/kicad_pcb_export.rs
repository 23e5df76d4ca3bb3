//! The KiCad footprint serializer.
//!
//! [`to_kicad_footprint`] walks a [`BoardComposableObject`] and renders one
//! self-contained `.kicad_mod` document.  Every byte of the output is pinned
//! down by the specification functions in this module: [`spec_footprint`]
//! gives the whole document as a function of the descriptor's
//! [`ComponentModel`] and the four courtyard identity tokens, and each
//! section has its own specification function mirroring the grammar the
//! downstream layout tool parses.
//!
//! The section order is a hard compatibility contract: header, optional
//! description and tags, the surface-mount attribute, the jumper directive,
//! all text elements, all graphic elements (declared ones first, then the
//! derived courtyard trace), all pads, the optional 3-D model block, and the
//! closing flags.

use crate::board_interface::{
    BoardComposableObject, ComponentModel, FootprintProperty, FpText, FpTextType, GraphicElement,
    GraphicType, GraphicTypeView, GraphicView, Model3D, ModelView, PadDescriptor, PadShape,
    PadType, PadView, PropertyView, TextView,
};
use crate::courtyard::{courtyard_fits, expand_rect, fresh_token, spec_courtyard_elements};
use crate::fixed::{append_fixed, fixed_str, lemma_seq_add_assoc, Fixed};
use crate::layer_type::{layer_kicad_str, LayerType};
use vstd::prelude::*;

verus! {

broadcast use lemma_seq_add_assoc;

/// The position field ` (at x y)`, with a third rotation value when one is
/// present.
pub open spec fn spec_at(pos: (int, int), rotation: Option<int>) -> Seq<char> {
    match rotation {
        Some(rot) => " (at "@ + fixed_str(pos.0) + " "@ + fixed_str(pos.1) + " "@ + fixed_str(rot)
            + ")"@,
        None => " (at "@ + fixed_str(pos.0) + " "@ + fixed_str(pos.1) + ")"@,
    }
}

/// The keyword of a text element's role.
pub open spec fn spec_text_type_str(t: FpTextType) -> Seq<char> {
    match t {
        FpTextType::Reference => "reference"@,
        FpTextType::Value => "value"@,
        FpTextType::User => "user"@,
    }
}

/// One `fp_text` block.
#[verifier::opaque]
pub open spec fn spec_fp_text(t: TextView) -> Seq<char> {
    "\t(fp_text "@ + spec_text_type_str(t.text_type) + " \""@ + t.text + "\""@ + spec_at(
        t.position,
        t.rotation,
    ) + " (layer \""@ + t.layer + "\")\n\t\t(effects (font (size "@ + fixed_str(t.font.size.0)
        + " "@ + fixed_str(t.font.size.1) + ") (thickness "@ + fixed_str(t.font.thickness)
        + ")))\n\t\t(tstamp \""@ + t.uuid + "\")\n\t)\n"@
}

/// One `property` block.
#[verifier::opaque]
pub open spec fn spec_property(p: PropertyView) -> Seq<char> {
    "\t(property \""@ + p.name + "\" \""@ + p.value + "\"\n\t\t(at "@ + fixed_str(p.position.0)
        + " "@ + fixed_str(p.position.1) + (match p.rotation {
        Some(rot) => " "@ + fixed_str(rot) + ")\n"@,
        None => " 0)\n"@,
    }) + (if p.unlocked {
        "\t\t(unlocked yes)\n"@
    } else {
        Seq::<char>::empty()
    }) + "\t\t(layer \""@ + p.layer + "\")\n"@ + (if p.hidden {
        "\t\t(hide yes)\n"@
    } else {
        Seq::<char>::empty()
    }) + "\t\t(uuid \""@ + p.uuid + "\")\n\t\t(effects\n\t\t\t(font\n\t\t\t\t(size "@ + fixed_str(
        p.font.size.0,
    ) + " "@ + fixed_str(p.font.size.1) + ")\n\t\t\t\t(thickness "@ + fixed_str(p.font.thickness)
        + ")\n\t\t\t)\n\t\t)\n\t)\n"@
}

/// One graphic element.  Only lines render; a rectangle or circle yields
/// nothing, preserving the serializer's silent-skip rule for those variants.
/// A line's stroke block always carries the keyword `solid`.
#[verifier::opaque]
pub open spec fn spec_graphic(g: GraphicView) -> Seq<char> {
    match g.element_type {
        GraphicTypeView::Line { start, end } => "\t(fp_line\n\t\t(start "@ + fixed_str(start.0)
            + " "@ + fixed_str(start.1) + ")\n\t\t(end "@ + fixed_str(end.0) + " "@ + fixed_str(
            end.1,
        ) + ")\n\t\t(stroke\n\t\t\t(width "@ + fixed_str(g.stroke.width)
            + ")\n\t\t\t(type solid)\n\t\t)\n\t\t(layer \""@ + layer_kicad_str(g.layer)
            + "\")\n\t\t(tstamp \""@ + g.uuid + "\")\n\t)\n"@,
        _ => Seq::<char>::empty(),
    }
}

/// The keyword of a pad's connection type.
pub open spec fn spec_pad_type_str(t: PadType) -> Seq<char> {
    match t {
        PadType::SMD => "smd"@,
        PadType::ThroughHole => "thru_hole"@,
        PadType::NPTH => "np_thru_hole"@,
    }
}

/// The keyword of a pad's shape.
pub open spec fn spec_pad_shape_str(s: PadShape) -> Seq<char> {
    match s {
        PadShape::RoundRect => "roundrect"@,
        PadShape::Rect => "rect"@,
        PadShape::Circle => "circle"@,
        PadShape::Oval => "oval"@,
    }
}

/// The quoted, space-separated layer-name list of a pad, in declared order.
pub open spec fn spec_layers_list(ls: Seq<Seq<char>>) -> Seq<char>
    decreases ls.len(),
{
    if ls.len() == 0 {
        Seq::<char>::empty()
    } else {
        spec_layers_list(ls.drop_last()) + " \""@ + ls.last() + "\""@
    }
}

/// One `pad` block.  The ratio field appears exactly when a roundrect ratio
/// is present.
#[verifier::opaque]
pub open spec fn spec_pad(p: PadView) -> Seq<char> {
    "\t(pad \""@ + p.number + "\" "@ + spec_pad_type_str(p.pad_type) + " "@ + spec_pad_shape_str(
        p.shape,
    ) + "\n\t\t(at "@ + fixed_str(p.position.0) + " "@ + fixed_str(p.position.1)
        + ")\n\t\t(size "@ + fixed_str(p.size.0) + " "@ + fixed_str(p.size.1)
        + ")\n\t\t(layers"@ + spec_layers_list(p.layers) + ")\n"@ + (match p.roundrect_ratio {
        Some(ratio) => "\t\t(roundrect_rratio "@ + fixed_str(ratio) + ")\n"@,
        None => Seq::<char>::empty(),
    }) + "\t\t(tstamp \""@ + p.uuid + "\")\n\t)\n"@
}

/// The `model` block of a 3-D model reference: path, then offset, scale and
/// rotation vectors, in that fixed order.
#[verifier::opaque]
pub open spec fn spec_model_block(m: ModelView) -> Seq<char> {
    "\t(model \""@ + m.path + "\"\n\t\t(offset\n\t\t\t(xyz "@ + fixed_str(m.offset.0) + " "@
        + fixed_str(m.offset.1) + " "@ + fixed_str(m.offset.2)
        + ")\n\t\t)\n\t\t(scale\n\t\t\t(xyz "@ + fixed_str(m.scale.0) + " "@ + fixed_str(m.scale.1)
        + " "@ + fixed_str(m.scale.2) + ")\n\t\t)\n\t\t(rotate\n\t\t\t(xyz "@ + fixed_str(
        m.rotation.0,
    ) + " "@ + fixed_str(m.rotation.1) + " "@ + fixed_str(m.rotation.2) + ")\n\t\t)\n\t)\n"@
}

/// The opening section: footprint name, format version, generator identity
/// and the default board layer.
pub open spec fn spec_header(name: Seq<char>) -> Seq<char> {
    "(footprint \""@ + name
        + "\"\n\t(version 20250401)\n\t(generator \"custom_pcb_tool\")\n\t(generator_version \"1.0\")\n\t(layer \"F.Cu\")\n"@
}

/// The description line, present exactly when a description is.
pub open spec fn spec_descr_section(d: Option<Seq<char>>) -> Seq<char> {
    match d {
        Some(s) => "\t(descr \""@ + s + "\")\n"@,
        None => Seq::<char>::empty(),
    }
}

/// The tags line, present exactly when tags are.
pub open spec fn spec_tags_section(t: Option<Seq<char>>) -> Seq<char> {
    match t {
        Some(s) => "\t(tags \""@ + s + "\")\n"@,
        None => Seq::<char>::empty(),
    }
}

/// Whether at least one pad is surface-mounted.
pub open spec fn has_smd(pads: Seq<PadView>) -> bool {
    exists|i: int| 0 <= i < pads.len() && (#[trigger] pads[i]).pad_type is SMD
}

/// The surface-mount attribute line, present exactly when some pad is an
/// SMD pad.
pub open spec fn spec_attr_section(pads: Seq<PadView>) -> Seq<char> {
    if has_smd(pads) {
        "\t(attr smd)\n"@
    } else {
        Seq::<char>::empty()
    }
}

/// The fixed directive disabling duplicate-pad-numbers-are-jumpers
/// semantics.
pub open spec fn spec_jumpers_line() -> Seq<char> {
    "\t(duplicate_pad_numbers_are_jumpers no)\n"@
}

/// All text blocks, in descriptor order.
pub open spec fn spec_texts_section(ts: Seq<TextView>) -> Seq<char>
    decreases ts.len(),
{
    if ts.len() == 0 {
        Seq::<char>::empty()
    } else {
        spec_texts_section(ts.drop_last()) + spec_fp_text(ts.last())
    }
}

/// All graphic blocks, in order.
pub open spec fn spec_graphics_section(gs: Seq<GraphicView>) -> Seq<char>
    decreases gs.len(),
{
    if gs.len() == 0 {
        Seq::<char>::empty()
    } else {
        spec_graphics_section(gs.drop_last()) + spec_graphic(gs.last())
    }
}

/// All pad blocks, in descriptor order.
pub open spec fn spec_pads_section(ps: Seq<PadView>) -> Seq<char>
    decreases ps.len(),
{
    if ps.len() == 0 {
        Seq::<char>::empty()
    } else {
        spec_pads_section(ps.drop_last()) + spec_pad(ps.last())
    }
}

/// The model section: the model block when a reference is present, nothing
/// otherwise.
pub open spec fn spec_model_section(m: Option<ModelView>) -> Seq<char> {
    match m {
        Some(mv) => spec_model_block(mv),
        None => Seq::<char>::empty(),
    }
}

/// The closing flags: the embedded-fonts marker and the closing token of
/// the header expression.
pub open spec fn spec_footer() -> Seq<char> {
    "\t(embedded_fonts no)\n)\n"@
}

/// The whole footprint document of a descriptor state `m`, with
/// `courtyard_ids` as the identity tokens of the four derived courtyard
/// lines.  The graphics section holds the descriptor-declared elements
/// first and the courtyard trace after them.
#[verifier::opaque]
pub open spec fn spec_footprint(m: ComponentModel, courtyard_ids: Seq<Seq<char>>) -> Seq<char> {
    spec_header(m.footprint_name) + spec_descr_section(m.description) + spec_tags_section(m.tags)
        + spec_attr_section(m.pads) + spec_jumpers_line() + spec_texts_section(m.texts)
        + spec_graphics_section(
        m.graphics + spec_courtyard_elements(
            expand_rect(m.bounding_box, m.courtyard_margin),
            LayerType::Courtyard,
            courtyard_ids,
        ),
    ) + spec_pads_section(m.pads) + spec_model_section(m.model_3d) + spec_footer()
}

/// Appends the position field of a text or property element.
fn write_at(output: &mut String, pos: (Fixed, Fixed), rotation: Option<Fixed>)
    ensures
        final(output)@ == old(output)@ + spec_at((pos.0@, pos.1@), rotation.deep_view()),
{
    output.append(" (at ");
    append_fixed(output, pos.0);
    output.append(" ");
    append_fixed(output, pos.1);
    match rotation {
        Some(rot) => {
            output.append(" ");
            append_fixed(output, rot);
            output.append(")");
        },
        None => {
            output.append(")");
        },
    }
}

/// Appends one `fp_text` block for `fp_text`.
pub fn write_fp_text(output: &mut String, fp_text: &FpText)
    ensures
        final(output)@ == old(output)@ + spec_fp_text(fp_text@),
{
    output.append("\t(fp_text ");
    match fp_text.text_type {
        FpTextType::Reference => output.append("reference"),
        FpTextType::Value => output.append("value"),
        FpTextType::User => output.append("user"),
    }
    output.append(" \"");
    output.append(fp_text.text.as_str());
    output.append("\"");
    write_at(output, fp_text.position, fp_text.rotation);
    output.append(" (layer \"");
    output.append(fp_text.layer.as_str());
    output.append("\")\n\t\t(effects (font (size ");
    append_fixed(output, fp_text.font.size.0);
    output.append(" ");
    append_fixed(output, fp_text.font.size.1);
    output.append(") (thickness ");
    append_fixed(output, fp_text.font.thickness);
    output.append(")))\n\t\t(tstamp \"");
    output.append(fp_text.uuid.as_str());
    output.append("\")\n\t)\n");
    proof {
        reveal(spec_fp_text);
        assert(output@ == old(output)@ + spec_fp_text(fp_text@));
    }
}

/// Appends one `property` block for `prop`.
#[verifier::rlimit(100)]
pub fn write_property(output: &mut String, prop: &FootprintProperty)
    ensures
        final(output)@ == old(output)@ + spec_property(prop@),
{
    proof {
        reveal(spec_property);
    }
    output.append("\t(property \"");
    output.append(prop.name.as_str());
    output.append("\" \"");
    output.append(prop.value.as_str());
    output.append("\"\n\t\t(at ");
    append_fixed(output, prop.position.0);
    output.append(" ");
    append_fixed(output, prop.position.1);
    match prop.rotation {
        Some(rot) => {
            output.append(" ");
            append_fixed(output, rot);
            output.append(")\n");
        },
        None => {
            output.append(" 0)\n");
        },
    }
    if prop.unlocked {
        output.append("\t\t(unlocked yes)\n");
    }
    output.append("\t\t(layer \"");
    output.append(prop.layer.as_str());
    output.append("\")\n");
    if prop.hidden {
        output.append("\t\t(hide yes)\n");
    }
    output.append("\t\t(uuid \"");
    output.append(prop.uuid.as_str());
    output.append("\")\n\t\t(effects\n\t\t\t(font\n\t\t\t\t(size ");
    append_fixed(output, prop.font.size.0);
    output.append(" ");
    append_fixed(output, prop.font.size.1);
    output.append(")\n\t\t\t\t(thickness ");
    append_fixed(output, prop.font.thickness);
    output.append(")\n\t\t\t)\n\t\t)\n\t)\n");
    proof {
        assert(output@ == old(output)@ + spec_property(prop@));
    }
}

/// Appends the rendering of one graphic element: an `fp_line` block for a
/// line, nothing for a rectangle or circle.
pub fn write_graphic_element(output: &mut String, element: &GraphicElement)
    ensures
        final(output)@ == old(output)@ + spec_graphic(element@),
{
    proof {
        reveal(spec_graphic);
    }
    match &element.element_type {
        GraphicType::Line { start, end } => {
            output.append("\t(fp_line\n\t\t(start ");
            append_fixed(output, start.0);
            output.append(" ");
            append_fixed(output, start.1);
            output.append(")\n\t\t(end ");
            append_fixed(output, end.0);
            output.append(" ");
            append_fixed(output, end.1);
            output.append(")\n\t\t(stroke\n\t\t\t(width ");
            append_fixed(output, element.stroke.width);
            output.append(")\n\t\t\t(type solid)\n\t\t)\n\t\t(layer \"");
            output.append(element.layer.to_kicad_string());
            output.append("\")\n\t\t(tstamp \"");
            output.append(element.uuid.as_str());
            output.append("\")\n\t)\n");
            proof {
                assert(output@ == old(output)@ + spec_graphic(element@));
            }
        },
        _ => {
            proof {
                assert(output@ =~= output@ + spec_graphic(element@));
            }
        },
    }
}

/// The keyword of a pad's connection type.
fn pad_type_keyword(t: PadType) -> (r: &'static str)
    ensures
        r@ == spec_pad_type_str(t),
{
    match t {
        PadType::SMD => "smd",
        PadType::ThroughHole => "thru_hole",
        PadType::NPTH => "np_thru_hole",
    }
}

/// The keyword of a pad's shape.
fn pad_shape_keyword(sh: PadShape) -> (r: &'static str)
    ensures
        r@ == spec_pad_shape_str(sh),
{
    match sh {
        PadShape::RoundRect => "roundrect",
        PadShape::Rect => "rect",
        PadShape::Circle => "circle",
        PadShape::Oval => "oval",
    }
}

proof fn lemma_layers_take_step(ls: Seq<Seq<char>>, i: int)
    requires
        0 <= i < ls.len(),
    ensures
        spec_layers_list(ls.take(i + 1)) == spec_layers_list(ls.take(i)) + " \""@ + ls[i] + "\""@,
{
    assert(ls.take(i + 1).drop_last() =~= ls.take(i));
    assert(ls.take(i + 1).last() == ls[i]);
}

/// Appends the quoted layer-name list of a pad.
fn write_layers_list(output: &mut String, layers: &Vec<String>)
    ensures
        final(output)@ == old(output)@ + spec_layers_list(layers.deep_view()),
{
    let ghost base: Seq<char> = output@;
    let mut i: usize = 0;
    while i < layers.len()
        invariant
            i <= layers@.len(),
            output@ == base + spec_layers_list(layers.deep_view().take(i as int)),
        decreases layers@.len() - i,
    {
        output.append(" \"");
        output.append(layers[i].as_str());
        output.append("\"");
        proof {
            lemma_layers_take_step(layers.deep_view(), i as int);
            assert(layers.deep_view()[i as int] == layers@[i as int]@);
        }
        i = i + 1;
    }
    proof {
        assert(layers.deep_view().take(layers@.len() as int) =~= layers.deep_view());
    }
}

/// Appends one `pad` block for `pad`.
#[verifier::rlimit(50)]
pub fn write_detailed_pad(output: &mut String, pad: &PadDescriptor)
    ensures
        final(output)@ == old(output)@ + spec_pad(pad@),
{
    proof {
        reveal(spec_pad);
    }
    output.append("\t(pad \"");
    output.append(pad.number.as_str());
    output.append("\" ");
    output.append(pad_type_keyword(pad.pad_type));
    output.append(" ");
    output.append(pad_shape_keyword(pad.shape));
    output.append("\n\t\t(at ");
    append_fixed(output, pad.position.0);
    output.append(" ");
    append_fixed(output, pad.position.1);
    output.append(")\n\t\t(size ");
    append_fixed(output, pad.size.0);
    output.append(" ");
    append_fixed(output, pad.size.1);
    output.append(")\n\t\t(layers");
    write_layers_list(output, &pad.layers);
    output.append(")\n");
    match pad.roundrect_ratio {
        Some(ratio) => {
            output.append("\t\t(roundrect_rratio ");
            append_fixed(output, ratio);
            output.append(")\n");
        },
        None => {},
    }
    output.append("\t\t(tstamp \"");
    output.append(pad.uuid.as_str());
    output.append("\")\n\t)\n");
    proof {
        assert(output@ == old(output)@ + spec_pad(pad@));
    }
}

/// Appends the `model` block for `model`.
fn write_model3d(output: &mut String, model: &Model3D)
    ensures
        final(output)@ == old(output)@ + spec_model_block(model@),
{
    proof {
        reveal(spec_model_block);
    }
    output.append("\t(model \"");
    output.append(model.path.as_str());
    output.append("\"\n\t\t(offset\n\t\t\t(xyz ");
    append_fixed(output, model.offset.0);
    output.append(" ");
    append_fixed(output, model.offset.1);
    output.append(" ");
    append_fixed(output, model.offset.2);
    output.append(")\n\t\t)\n\t\t(scale\n\t\t\t(xyz ");
    append_fixed(output, model.scale.0);
    output.append(" ");
    append_fixed(output, model.scale.1);
    output.append(" ");
    append_fixed(output, model.scale.2);
    output.append(")\n\t\t)\n\t\t(rotate\n\t\t\t(xyz ");
    append_fixed(output, model.rotation.0);
    output.append(" ");
    append_fixed(output, model.rotation.1);
    output.append(" ");
    append_fixed(output, model.rotation.2);
    output.append(")\n\t\t)\n\t)\n");
    proof {
        assert(output@ == old(output)@ + spec_model_block(model@));
    }
}

proof fn lemma_texts_take_step(ts: Seq<TextView>, i: int)
    requires
        0 <= i < ts.len(),
    ensures
        spec_texts_section(ts.take(i + 1)) == spec_texts_section(ts.take(i)) + spec_fp_text(ts[i]),
{
    assert(ts.take(i + 1).drop_last() =~= ts.take(i));
    assert(ts.take(i + 1).last() == ts[i]);
}

proof fn lemma_graphics_take_step(gs: Seq<GraphicView>, i: int)
    requires
        0 <= i < gs.len(),
    ensures
        spec_graphics_section(gs.take(i + 1)) == spec_graphics_section(gs.take(i)) + spec_graphic(
            gs[i],
        ),
{
    assert(gs.take(i + 1).drop_last() =~= gs.take(i));
    assert(gs.take(i + 1).last() == gs[i]);
}

proof fn lemma_pads_take_step(ps: Seq<PadView>, i: int)
    requires
        0 <= i < ps.len(),
    ensures
        spec_pads_section(ps.take(i + 1)) == spec_pads_section(ps.take(i)) + spec_pad(ps[i]),
{
    assert(ps.take(i + 1).drop_last() =~= ps.take(i));
    assert(ps.take(i + 1).last() == ps[i]);
}

/// Appends the description line, when a description is present.
fn write_descr_section(output: &mut String, d: &Option<String>)
    ensures
        final(output)@ == old(output)@ + spec_descr_section(d.deep_view()),
{
    match d {
        Some(desc) => {
            output.append("\t(descr \"");
            output.append(desc.as_str());
            output.append("\")\n");
        },
        None => {},
    }
}

/// Appends the tags line, when tags are present.
fn write_tags_section(output: &mut String, t: &Option<String>)
    ensures
        final(output)@ == old(output)@ + spec_tags_section(t.deep_view()),
{
    match t {
        Some(tags) => {
            output.append("\t(tags \"");
            output.append(tags.as_str());
            output.append("\")\n");
        },
        None => {},
    }
}

/// Appends the surface-mount attribute line, when some pad is an SMD pad.
fn write_attr_section(output: &mut String, pads: &Vec<PadDescriptor>)
    ensures
        final(output)@ == old(output)@ + spec_attr_section(pads.deep_view()),
{
    if any_smd_pad(pads) {
        output.append("\t(attr smd)\n");
    }
}

/// Appends all text blocks, in order.
fn write_texts_section(output: &mut String, texts: &Vec<FpText>)
    ensures
        final(output)@ == old(output)@ + spec_texts_section(texts.deep_view()),
{
    let ghost base: Seq<char> = output@;
    let mut i: usize = 0;
    while i < texts.len()
        invariant
            i <= texts@.len(),
            output@ == base + spec_texts_section(texts.deep_view().take(i as int)),
        decreases texts@.len() - i,
    {
        write_fp_text(output, &texts[i]);
        proof {
            lemma_texts_take_step(texts.deep_view(), i as int);
            assert(texts.deep_view()[i as int] == texts@[i as int]@);
        }
        i = i + 1;
    }
    proof {
        assert(texts.deep_view().take(texts@.len() as int) =~= texts.deep_view());
    }
}

/// Appends all graphic blocks, in order.
fn write_graphics_section(output: &mut String, graphics: &Vec<GraphicElement>)
    ensures
        final(output)@ == old(output)@ + spec_graphics_section(graphics.deep_view()),
{
    let ghost base: Seq<char> = output@;
    let mut i: usize = 0;
    while i < graphics.len()
        invariant
            i <= graphics@.len(),
            output@ == base + spec_graphics_section(graphics.deep_view().take(i as int)),
        decreases graphics@.len() - i,
    {
        write_graphic_element(output, &graphics[i]);
        proof {
            lemma_graphics_take_step(graphics.deep_view(), i as int);
            assert(graphics.deep_view()[i as int] == graphics@[i as int]@);
        }
        i = i + 1;
    }
    proof {
        assert(graphics.deep_view().take(graphics@.len() as int) =~= graphics.deep_view());
    }
}

/// Appends all pad blocks, in order.
fn write_pads_section(output: &mut String, pads: &Vec<PadDescriptor>)
    ensures
        final(output)@ == old(output)@ + spec_pads_section(pads.deep_view()),
{
    let ghost base: Seq<char> = output@;
    let mut i: usize = 0;
    while i < pads.len()
        invariant
            i <= pads@.len(),
            output@ == base + spec_pads_section(pads.deep_view().take(i as int)),
        decreases pads@.len() - i,
    {
        write_detailed_pad(output, &pads[i]);
        proof {
            lemma_pads_take_step(pads.deep_view(), i as int);
            assert(pads.deep_view()[i as int] == pads@[i as int]@);
        }
        i = i + 1;
    }
    proof {
        assert(pads.deep_view().take(pads@.len() as int) =~= pads.deep_view());
    }
}

/// Appends the model block, when a 3-D model reference is present.
fn write_model_section(output: &mut String, m: &Option<Model3D>)
    ensures
        final(output)@ == old(output)@ + spec_model_section(m.deep_view()),
{
    match m {
        Some(model) => {
            write_model3d(output, model);
        },
        None => {},
    }
}

/// Whether `pads` holds at least one surface-mount pad.
fn any_smd_pad(pads: &Vec<PadDescriptor>) -> (r: bool)
    ensures
        r == has_smd(pads.deep_view()),
{
    let mut found = false;
    let mut i: usize = 0;
    while i < pads.len()
        invariant
            i <= pads@.len(),
            found == has_smd(pads.deep_view().take(i as int)),
        decreases pads@.len() - i,
    {
        let is_smd = match pads[i].pad_type {
            PadType::SMD => true,
            _ => false,
        };
        proof {
            assert(pads.deep_view().take(i as int + 1).drop_last() =~= pads.deep_view().take(
                i as int,
            ));
            if is_smd {
                assert(pads.deep_view().take(i as int + 1)[i as int].pad_type is SMD);
            } else {
                if has_smd(pads.deep_view().take(i as int + 1)) && !has_smd(
                    pads.deep_view().take(i as int),
                ) {
                    let k = choose|k: int|
                        0 <= k < i + 1 && (#[trigger] pads.deep_view().take(
                            i as int + 1,
                        )[k]).pad_type is SMD;
                    assert(k == i);
                    assert(false);
                }
            }
        }
        if is_smd {
            found = true;
        }
        i = i + 1;
    }
    proof {
        assert(pads.deep_view().take(pads@.len() as int) =~= pads.deep_view());
    }
    found
}

/// Serializes `component` as one KiCad footprint document, using the four
/// strings of `courtyard_tokens` as the identity tokens of the derived
/// courtyard lines.  The output is a pure function of the descriptor state
/// and those tokens: equal inputs give byte-identical text.
pub fn to_kicad_footprint_with_tokens<T: BoardComposableObject>(
    component: &T,
    courtyard_tokens: Vec<String>,
) -> (r: String)
    requires
        courtyard_tokens@.len() == 4,
        courtyard_fits(component.model().bounding_box, component.model().courtyard_margin),
    ensures
        r@ == spec_footprint(component.model(), courtyard_tokens.deep_view()),
{
    let ghost m: ComponentModel = component.model();
    let ghost ids: Seq<Seq<char>> = courtyard_tokens.deep_view();
    let mut output = String::new();

    // Header
    output.append("(footprint \"");
    let name = component.footprint_name();
    output.append(name.as_str());
    output.append(
        "\"\n\t(version 20250401)\n\t(generator \"custom_pcb_tool\")\n\t(generator_version \"1.0\")\n\t(layer \"F.Cu\")\n",
    );

    // Description and tags
    let descr = component.description();
    write_descr_section(&mut output, &descr);
    let tags = component.tags();
    write_tags_section(&mut output, &tags);

    // Attributes
    let pads = component.pad_descriptors();
    write_attr_section(&mut output, &pads);
    output.append("\t(duplicate_pad_numbers_are_jumpers no)\n");

    // fp_text elements
    let texts = component.fp_text_elements();
    write_texts_section(&mut output, &texts);

    // Graphic elements: declared ones first, then the derived courtyard
    let mut all_graphics = component.graphic_elements();
    let courtyard = component.generate_courtyard();
    let mut courtyard_graphics = courtyard.to_graphic_elements_with_tokens(courtyard_tokens);
    all_graphics.append(&mut courtyard_graphics);
    proof {
        assert(all_graphics.deep_view() =~= m.graphics + spec_courtyard_elements(
            expand_rect(m.bounding_box, m.courtyard_margin),
            LayerType::Courtyard,
            ids,
        ));
    }
    write_graphics_section(&mut output, &all_graphics);

    // Pads
    write_pads_section(&mut output, &pads);

    // 3D model reference
    let model = component.model_3d();
    write_model_section(&mut output, &model);

    // Closing flags
    output.append("\t(embedded_fonts no)\n)\n");
    proof {
        reveal(spec_footprint);
        assert(output@ == spec_footprint(m, ids));
    }
    output
}

/// Serializes `component` as one KiCad footprint document, drawing a fresh
/// identity token for each of the four derived courtyard lines.  Everything
/// but those four tokens is pinned to the descriptor state.
pub fn to_kicad_footprint<T: BoardComposableObject>(component: &T) -> (r: String)
    requires
        courtyard_fits(component.model().bounding_box, component.model().courtyard_margin),
    ensures
        exists|ids: Seq<Seq<char>>|
            #![auto]
            ids.len() == 4 && (forall|i: int| 0 <= i < 4 ==> ids[i].len() == 36) && r@
                == spec_footprint(component.model(), ids),
{
    let t0 = fresh_token();
    let t1 = fresh_token();
    let t2 = fresh_token();
    let t3 = fresh_token();
    let ghost ids: Seq<Seq<char>> = seq![t0@, t1@, t2@, t3@];
    let mut tokens: Vec<String> = Vec::new();
    tokens.push(t0);
    tokens.push(t1);
    tokens.push(t2);
    tokens.push(t3);
    proof {
        assert(tokens.deep_view() =~= ids);
    }
    let r = to_kicad_footprint_with_tokens(component, tokens);
    proof {
        assert(r@ == spec_footprint(component.model(), ids));
    }
    r
}

/// Serialization is deterministic: one descriptor state and one choice of
/// courtyard identity tokens yield exactly one output text.  Together with
/// the contract of [`to_kicad_footprint_with_tokens`], two calls on equal
/// inputs return byte-identical strings, on every call and every host.
pub proof fn lemma_serialization_deterministic(
    m1: ComponentModel,
    m2: ComponentModel,
    ids1: Seq<Seq<char>>,
    ids2: Seq<Seq<char>>,
)
    requires
        m1 == m2,
        ids1 == ids2,
    ensures
        spec_footprint(m1, ids1) == spec_footprint(m2, ids2),
{
}

/// The surface-mount attribute line stands in the attribute section if and
/// only if at least one pad is surface-mounted; otherwise that section is
/// empty, not a placeholder.
pub proof fn lemma_smd_attr_gating(pads: Seq<PadView>)
    ensures
        has_smd(pads) ==> spec_attr_section(pads) == "\t(attr smd)\n"@,
        !has_smd(pads) ==> spec_attr_section(pads) == Seq::<char>::empty(),
        has_smd(pads) <==> spec_attr_section(pads).len() != 0,
{
    reveal_strlit("\t(attr smd)\n");
}

/// The sections of any output stand in one fixed order: the header first,
/// then the description and tags lines, the attribute and jumper lines, all
/// text blocks, all graphic blocks (declared elements before the courtyard
/// trace), all pad blocks, the model block, and the closing flags last.
pub proof fn lemma_section_order(m: ComponentModel, ids: Seq<Seq<char>>)
    ensures
        spec_footprint(m, ids) == spec_header(m.footprint_name) + spec_descr_section(m.description)
            + spec_tags_section(m.tags) + spec_attr_section(m.pads) + spec_jumpers_line()
            + spec_texts_section(m.texts) + spec_graphics_section(
            m.graphics + spec_courtyard_elements(
                expand_rect(m.bounding_box, m.courtyard_margin),
                LayerType::Courtyard,
                ids,
            ),
        ) + spec_pads_section(m.pads) + spec_model_section(m.model_3d) + spec_footer(),
{
    reveal(spec_footprint);
}

/// A descriptor with no description and no tags yields a document in which
/// neither line appears at all: the document is the same concatenation with
/// those two sections gone.
pub proof fn lemma_optional_field_omission(m: ComponentModel, ids: Seq<Seq<char>>)
    requires
        m.description is None,
        m.tags is None,
    ensures
        spec_descr_section(m.description) == Seq::<char>::empty(),
        spec_tags_section(m.tags) == Seq::<char>::empty(),
        spec_footprint(m, ids) == spec_header(m.footprint_name) + spec_attr_section(m.pads)
            + spec_jumpers_line() + spec_texts_section(m.texts) + spec_graphics_section(
            m.graphics + spec_courtyard_elements(
                expand_rect(m.bounding_box, m.courtyard_margin),
                LayerType::Courtyard,
                ids,
            ),
        ) + spec_pads_section(m.pads) + spec_model_section(m.model_3d) + spec_footer(),
{
    reveal(spec_footprint);
    assert(spec_footprint(m, ids) =~= spec_header(m.footprint_name) + spec_attr_section(m.pads)
        + spec_jumpers_line() + spec_texts_section(m.texts) + spec_graphics_section(
        m.graphics + spec_courtyard_elements(
            expand_rect(m.bounding_box, m.courtyard_margin),
            LayerType::Courtyard,
            ids,
        ),
    ) + spec_pads_section(m.pads) + spec_model_section(m.model_3d) + spec_footer());
}

} // verus!
