use copper_substrate::board_interface::{
    FontSettings, FootprintProperty, FpText, FpTextType, GraphicElement, GraphicType,
    PadDescriptor, PadShape, PadType, Rectangle, Stroke, StrokeType, TentingSettings, TentingType,
};
use copper_substrate::component::GenericComponent;
use copper_substrate::fixed::Fixed;
use copper_substrate::functional_types::FunctionalType;
use copper_substrate::kicad_pcb_export::{
    to_kicad_footprint, to_kicad_footprint_with_tokens, write_detailed_pad, write_fp_text,
    write_graphic_element, write_property,
};
use copper_substrate::layer_type::LayerType;

fn fx(units: i64) -> Fixed {
    Fixed::new(units)
}

fn tokens() -> Vec<String> {
    vec![
        "t0".to_string(),
        "t1".to_string(),
        "t2".to_string(),
        "t3".to_string(),
    ]
}

fn no_tenting() -> TentingSettings {
    TentingSettings {
        front: TentingType::NotTented,
        back: TentingType::NotTented,
    }
}

fn smd_pad(number: &str, x_units: i64, uuid: &str) -> PadDescriptor {
    PadDescriptor {
        number: number.to_string(),
        pad_type: PadType::SMD,
        shape: PadShape::RoundRect,
        position: (fx(x_units), fx(0)),
        size: (fx(1000000), fx(1450000)),
        drill_size: None,
        layers: vec![
            "F.Cu".to_string(),
            "F.Mask".to_string(),
            "F.Paste".to_string(),
        ],
        roundrect_ratio: Some(fx(250000)),
        tenting: no_tenting(),
        uuid: uuid.to_string(),
    }
}

fn tht_pad(number: &str, x_units: i64, uuid: &str) -> PadDescriptor {
    PadDescriptor {
        number: number.to_string(),
        pad_type: PadType::ThroughHole,
        shape: PadShape::Circle,
        position: (fx(x_units), fx(0)),
        size: (fx(1600000), fx(1600000)),
        drill_size: Some(fx(800000)),
        layers: vec!["F.Cu".to_string()],
        roundrect_ratio: None,
        tenting: no_tenting(),
        uuid: uuid.to_string(),
    }
}

fn ref_text(uuid: &str) -> FpText {
    FpText {
        text_type: FpTextType::Reference,
        text: "REF**".to_string(),
        position: (fx(0), fx(-1160000)),
        rotation: None,
        layer: "F.SilkS".to_string(),
        uuid: uuid.to_string(),
        font: FontSettings {
            size: (fx(1000000), fx(1000000)),
            thickness: fx(150000),
        },
    }
}

fn resistor(pads: Vec<PadDescriptor>) -> GenericComponent {
    GenericComponent {
        is_smt: true,
        is_electrical: true,
        is_passive: true,
        terminal_count: 2,
        functional_type: FunctionalType::Resistor("10k".to_string()),
        footprint_name: "R_0805_2012Metric".to_string(),
        library_name: "Resistor_SMD".to_string(),
        bounding_box: Rectangle {
            min_x: fx(-1000000),
            min_y: fx(-625000),
            max_x: fx(1000000),
            max_y: fx(625000),
        },
        pads,
        description: Some("Resistor SMD 0805".to_string()),
        tags: Some("resistor 0805".to_string()),
        fp_texts: vec![ref_text("u-text")],
        graphics: vec![],
        model_3d: None,
        courtyard_margin: fx(250000),
    }
}

#[test]
fn determinism_byte_identical() {
    let c = resistor(vec![smd_pad("1", -950000, "u-p1"), smd_pad("2", 950000, "u-p2")]);
    let a = to_kicad_footprint_with_tokens(&c, tokens());
    let b = to_kicad_footprint_with_tokens(&c, tokens());
    assert_eq!(a, b);
}

#[test]
fn smd_attribute_present_iff_an_smd_pad_exists() {
    let with_smd = resistor(vec![tht_pad("1", -950000, "u-p1"), smd_pad("2", 950000, "u-p2")]);
    let out = to_kicad_footprint_with_tokens(&with_smd, tokens());
    assert!(out.contains("\t(attr smd)\n"));

    let without_smd = resistor(vec![tht_pad("1", -950000, "u-p1"), tht_pad("2", 950000, "u-p2")]);
    let out = to_kicad_footprint_with_tokens(&without_smd, tokens());
    assert!(!out.contains("(attr smd)"));

    let no_pads = resistor(vec![]);
    let out = to_kicad_footprint_with_tokens(&no_pads, tokens());
    assert!(!out.contains("(attr smd)"));
}

#[test]
fn section_order_is_fixed() {
    let mut c = resistor(vec![smd_pad("1", -950000, "u-p1"), smd_pad("2", 950000, "u-p2")]);
    c.model_3d = Some(copper_substrate::board_interface::Model3D {
        path: "module.wrl".to_string(),
        offset: (fx(0), fx(0), fx(0)),
        scale: (fx(1000000), fx(1000000), fx(1000000)),
        rotation: (fx(0), fx(0), fx(0)),
    });
    let out = to_kicad_footprint_with_tokens(&c, tokens());
    let marks = [
        "(footprint \"",
        "\t(descr \"",
        "\t(tags \"",
        "\t(attr smd)",
        "\t(duplicate_pad_numbers_are_jumpers no)",
        "\t(fp_text ",
        "\t(fp_line",
        "\t(pad \"",
        "\t(model \"",
        "\t(embedded_fonts no)",
    ];
    let mut last: usize = 0;
    for mark in marks {
        let at = out.find(mark).unwrap_or_else(|| panic!("missing section {:?}", mark));
        assert!(at >= last, "section {:?} out of order", mark);
        last = at;
    }
}

#[test]
fn end_to_end_two_pad_resistor() {
    let c = resistor(vec![smd_pad("1", -950000, "u-p1"), smd_pad("2", 950000, "u-p2")]);
    let out = to_kicad_footprint_with_tokens(&c, tokens());
    assert!(out.starts_with("(footprint \"R_0805_2012Metric\"\n"));
    assert!(out.contains("\t(attr smd)\n"));
    assert_eq!(out.matches("\t(pad \"").count(), 2);
    assert!(out.contains("\t(pad \"1\" smd roundrect\n"));
    assert!(out.contains("\t(pad \"2\" smd roundrect\n"));
    // Courtyard trace: bounding box (-1, -0.625, 1, 0.625) plus margin 0.25.
    assert_eq!(out.matches("\t(fp_line\n").count(), 4);
    assert!(out.contains("\t\t(start -1.25 -0.875)\n\t\t(end 1.25 -0.875)\n"));
    assert!(out.contains("\t\t(start 1.25 -0.875)\n\t\t(end 1.25 0.875)\n"));
    assert!(out.contains("\t\t(start 1.25 0.875)\n\t\t(end -1.25 0.875)\n"));
    assert!(out.contains("\t\t(start -1.25 0.875)\n\t\t(end -1.25 -0.875)\n"));
    assert!(out.contains("\t\t(layer \"F.CrtYd\")\n"));
    assert!(out.ends_with("\t(embedded_fonts no)\n)\n"));
}

#[test]
fn optional_fields_omitted_entirely() {
    let mut c = resistor(vec![smd_pad("1", -950000, "u-p1")]);
    c.description = None;
    c.tags = None;
    let out = to_kicad_footprint_with_tokens(&c, tokens());
    assert!(!out.contains("(descr"));
    assert!(!out.contains("(tags"));
}

#[test]
fn golden_document() {
    let mut c = resistor(vec![smd_pad("1", -950000, "u-p1")]);
    c.footprint_name = "R_TEST".to_string();
    c.description = Some("desc".to_string());
    c.tags = Some("tag".to_string());
    c.model_3d = Some(copper_substrate::board_interface::Model3D {
        path: "p.wrl".to_string(),
        offset: (fx(0), fx(0), fx(0)),
        scale: (fx(1000000), fx(1000000), fx(1000000)),
        rotation: (fx(0), fx(0), fx(0)),
    });
    let out = to_kicad_footprint_with_tokens(&c, tokens());
    let mut e = String::new();
    e.push_str("(footprint \"R_TEST\"\n");
    e.push_str("\t(version 20250401)\n");
    e.push_str("\t(generator \"custom_pcb_tool\")\n");
    e.push_str("\t(generator_version \"1.0\")\n");
    e.push_str("\t(layer \"F.Cu\")\n");
    e.push_str("\t(descr \"desc\")\n");
    e.push_str("\t(tags \"tag\")\n");
    e.push_str("\t(attr smd)\n");
    e.push_str("\t(duplicate_pad_numbers_are_jumpers no)\n");
    e.push_str("\t(fp_text reference \"REF**\" (at 0 -1.16) (layer \"F.SilkS\")\n");
    e.push_str("\t\t(effects (font (size 1 1) (thickness 0.15)))\n");
    e.push_str("\t\t(tstamp \"u-text\")\n");
    e.push_str("\t)\n");
    let courtyard = [
        (("-1.25", "-0.875"), ("1.25", "-0.875"), "t0"),
        (("1.25", "-0.875"), ("1.25", "0.875"), "t1"),
        (("1.25", "0.875"), ("-1.25", "0.875"), "t2"),
        (("-1.25", "0.875"), ("-1.25", "-0.875"), "t3"),
    ];
    for (start, end, token) in courtyard {
        e.push_str("\t(fp_line\n");
        e.push_str(&format!("\t\t(start {} {})\n", start.0, start.1));
        e.push_str(&format!("\t\t(end {} {})\n", end.0, end.1));
        e.push_str("\t\t(stroke\n");
        e.push_str("\t\t\t(width 0.05)\n");
        e.push_str("\t\t\t(type solid)\n");
        e.push_str("\t\t)\n");
        e.push_str("\t\t(layer \"F.CrtYd\")\n");
        e.push_str(&format!("\t\t(tstamp \"{}\")\n", token));
        e.push_str("\t)\n");
    }
    e.push_str("\t(pad \"1\" smd roundrect\n");
    e.push_str("\t\t(at -0.95 0)\n");
    e.push_str("\t\t(size 1 1.45)\n");
    e.push_str("\t\t(layers \"F.Cu\" \"F.Mask\" \"F.Paste\")\n");
    e.push_str("\t\t(roundrect_rratio 0.25)\n");
    e.push_str("\t\t(tstamp \"u-p1\")\n");
    e.push_str("\t)\n");
    e.push_str("\t(model \"p.wrl\"\n");
    e.push_str("\t\t(offset\n\t\t\t(xyz 0 0 0)\n\t\t)\n");
    e.push_str("\t\t(scale\n\t\t\t(xyz 1 1 1)\n\t\t)\n");
    e.push_str("\t\t(rotate\n\t\t\t(xyz 0 0 0)\n\t\t)\n");
    e.push_str("\t)\n");
    e.push_str("\t(embedded_fonts no)\n");
    e.push_str(")\n");
    assert_eq!(out, e);
}

#[test]
fn fresh_token_serialization_draws_uuid_tokens() {
    let c = resistor(vec![smd_pad("1", -950000, "u-p1")]);
    let a = to_kicad_footprint(&c);
    let b = to_kicad_footprint(&c);
    // The four courtyard tokens are hyphenated UUIDs, 36 characters each, so
    // both outputs have the same length; the token values themselves are
    // fresh on every call.
    assert_eq!(a.len(), b.len());
    assert_ne!(a, b);
    assert_eq!(a.matches("\t(fp_line\n").count(), 4);
}

#[test]
fn write_fp_text_without_rotation() {
    let mut out = String::new();
    write_fp_text(&mut out, &ref_text("u-1"));
    let mut e = String::new();
    e.push_str("\t(fp_text reference \"REF**\" (at 0 -1.16) (layer \"F.SilkS\")\n");
    e.push_str("\t\t(effects (font (size 1 1) (thickness 0.15)))\n");
    e.push_str("\t\t(tstamp \"u-1\")\n");
    e.push_str("\t)\n");
    assert_eq!(out, e);
}

#[test]
fn write_fp_text_with_rotation() {
    let mut t = ref_text("u-2");
    t.text_type = FpTextType::User;
    t.rotation = Some(fx(90000000));
    let mut out = String::new();
    write_fp_text(&mut out, &t);
    assert!(out.starts_with("\t(fp_text user \"REF**\" (at 0 -1.16 90) (layer \"F.SilkS\")\n"));
}

#[test]
fn write_property_plain() {
    let p = FootprintProperty {
        name: "Reference".to_string(),
        value: "R1".to_string(),
        position: (fx(0), fx(500000)),
        rotation: None,
        layer: "F.SilkS".to_string(),
        hidden: false,
        unlocked: false,
        uuid: "u-prop".to_string(),
        font: FontSettings {
            size: (fx(1000000), fx(1000000)),
            thickness: fx(150000),
        },
    };
    let mut out = String::new();
    write_property(&mut out, &p);
    let mut e = String::new();
    e.push_str("\t(property \"Reference\" \"R1\"\n");
    e.push_str("\t\t(at 0 0.5 0)\n");
    e.push_str("\t\t(layer \"F.SilkS\")\n");
    e.push_str("\t\t(uuid \"u-prop\")\n");
    e.push_str("\t\t(effects\n");
    e.push_str("\t\t\t(font\n");
    e.push_str("\t\t\t\t(size 1 1)\n");
    e.push_str("\t\t\t\t(thickness 0.15)\n");
    e.push_str("\t\t\t)\n");
    e.push_str("\t\t)\n");
    e.push_str("\t)\n");
    assert_eq!(out, e);
}

#[test]
fn write_property_with_flags_and_rotation() {
    let p = FootprintProperty {
        name: "Value".to_string(),
        value: "10k".to_string(),
        position: (fx(250000), fx(-500000)),
        rotation: Some(fx(45000000)),
        layer: "F.Fab".to_string(),
        hidden: true,
        unlocked: true,
        uuid: "u-prop2".to_string(),
        font: FontSettings {
            size: (fx(500000), fx(500000)),
            thickness: fx(100000),
        },
    };
    let mut out = String::new();
    write_property(&mut out, &p);
    assert!(out.starts_with("\t(property \"Value\" \"10k\"\n\t\t(at 0.25 -0.5 45)\n"));
    assert!(out.contains("\t\t(unlocked yes)\n"));
    assert!(out.contains("\t\t(hide yes)\n"));
}

#[test]
fn write_graphic_element_line() {
    let g = GraphicElement {
        element_type: GraphicType::Line {
            start: (fx(-1000000), fx(0)),
            end: (fx(1000000), fx(0)),
        },
        layer: LayerType::SilkScreen,
        stroke: Stroke {
            width: fx(120000),
            stroke_type: StrokeType::Solid,
        },
        uuid: "u-line".to_string(),
    };
    let mut out = String::new();
    write_graphic_element(&mut out, &g);
    let mut e = String::new();
    e.push_str("\t(fp_line\n");
    e.push_str("\t\t(start -1 0)\n");
    e.push_str("\t\t(end 1 0)\n");
    e.push_str("\t\t(stroke\n");
    e.push_str("\t\t\t(width 0.12)\n");
    e.push_str("\t\t\t(type solid)\n");
    e.push_str("\t\t)\n");
    e.push_str("\t\t(layer \"F.SilkS\")\n");
    e.push_str("\t\t(tstamp \"u-line\")\n");
    e.push_str("\t)\n");
    assert_eq!(out, e);
}

#[test]
fn write_graphic_element_skips_rectangle_and_circle() {
    let r = GraphicElement {
        element_type: GraphicType::Rectangle {
            bounds: Rectangle {
                min_x: fx(0),
                min_y: fx(0),
                max_x: fx(1000000),
                max_y: fx(1000000),
            },
        },
        layer: LayerType::SilkScreen,
        stroke: Stroke {
            width: fx(120000),
            stroke_type: StrokeType::Solid,
        },
        uuid: "u-rect".to_string(),
    };
    let c = GraphicElement {
        element_type: GraphicType::Circle {
            center: (fx(0), fx(0)),
            radius: fx(500000),
        },
        layer: LayerType::SilkScreen,
        stroke: Stroke {
            width: fx(120000),
            stroke_type: StrokeType::Dashed,
        },
        uuid: "u-circle".to_string(),
    };
    let mut out = String::new();
    write_graphic_element(&mut out, &r);
    write_graphic_element(&mut out, &c);
    assert_eq!(out, "");
}

#[test]
fn write_detailed_pad_through_hole_has_no_ratio_line() {
    let mut out = String::new();
    write_detailed_pad(&mut out, &tht_pad("3", 0, "u-p3"));
    let mut e = String::new();
    e.push_str("\t(pad \"3\" thru_hole circle\n");
    e.push_str("\t\t(at 0 0)\n");
    e.push_str("\t\t(size 1.6 1.6)\n");
    e.push_str("\t\t(layers \"F.Cu\")\n");
    e.push_str("\t\t(tstamp \"u-p3\")\n");
    e.push_str("\t)\n");
    assert_eq!(out, e);
    assert!(!out.contains("roundrect_rratio"));
}

#[test]
fn write_detailed_pad_roundrect_has_ratio_line() {
    let mut out = String::new();
    write_detailed_pad(&mut out, &smd_pad("1", -950000, "u-p1"));
    assert!(out.contains("\t\t(roundrect_rratio 0.25)\n"));
}

#[test]
fn drill_and_tenting_do_not_change_the_pad_block() {
    let a = tht_pad("5", 0, "u-p5");
    let mut b = tht_pad("5", 0, "u-p5");
    b.drill_size = None;
    b.tenting = TentingSettings {
        front: TentingType::Full,
        back: TentingType::Partial,
    };
    let mut out_a = String::new();
    write_detailed_pad(&mut out_a, &a);
    let mut out_b = String::new();
    write_detailed_pad(&mut out_b, &b);
    assert_eq!(out_a, out_b);
}
