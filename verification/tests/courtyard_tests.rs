use copper_substrate::board_interface::{GraphicType, Rectangle, StrokeType};
use copper_substrate::courtyard::Courtyard;
use copper_substrate::fixed::Fixed;
use copper_substrate::layer_type::LayerType;

fn rect(min_x: i64, min_y: i64, max_x: i64, max_y: i64) -> Rectangle {
    Rectangle {
        min_x: Fixed::new(min_x),
        min_y: Fixed::new(min_y),
        max_x: Fixed::new(max_x),
        max_y: Fixed::new(max_y),
    }
}

fn four_tokens() -> Vec<String> {
    vec![
        "t0".to_string(),
        "t1".to_string(),
        "t2".to_string(),
        "t3".to_string(),
    ]
}

#[test]
fn courtyard_arithmetic() {
    // Rectangle (-0.5, -0.25, 0.5, 0.25) expanded by 0.41 on all sides.
    let c = Courtyard::new(rect(-500000, -250000, 500000, 250000), Fixed::new(410000));
    assert_eq!(c.bounds.min_x.units, -910000);
    assert_eq!(c.bounds.min_y.units, -660000);
    assert_eq!(c.bounds.max_x.units, 910000);
    assert_eq!(c.bounds.max_y.units, 660000);
    assert!(matches!(c.layer, LayerType::Courtyard));
    assert_eq!(c.margin.units, 410000);
}

#[test]
fn courtyard_negative_margin_degenerates_silently() {
    let c = Courtyard::new(rect(-100000, -100000, 100000, 100000), Fixed::new(-500000));
    assert_eq!(c.bounds.min_x.units, 400000);
    assert_eq!(c.bounds.max_x.units, -400000);
    assert_eq!(c.to_graphic_elements().len(), 4);
}

#[test]
fn courtyard_cardinality_always_four_lines() {
    let normal = Courtyard::new(rect(-1000000, -625000, 1000000, 625000), Fixed::new(250000));
    let degenerate = Courtyard::new(rect(0, 0, 0, 0), Fixed::new(0));
    for c in [normal, degenerate] {
        let elements = c.to_graphic_elements();
        assert_eq!(elements.len(), 4);
        for e in &elements {
            assert!(matches!(e.element_type, GraphicType::Line { .. }));
        }
    }
}

#[test]
fn courtyard_trace_order_and_stroke() {
    let c = Courtyard::new(rect(-1000000, -625000, 1000000, 625000), Fixed::new(250000));
    let elements = c.to_graphic_elements_with_tokens(four_tokens());
    assert_eq!(elements.len(), 4);
    let expected = [
        ((-1250000, -875000), (1250000, -875000)),
        ((1250000, -875000), (1250000, 875000)),
        ((1250000, 875000), (-1250000, 875000)),
        ((-1250000, 875000), (-1250000, -875000)),
    ];
    for (i, e) in elements.iter().enumerate() {
        match e.element_type {
            GraphicType::Line { start, end } => {
                assert_eq!((start.0.units, start.1.units), expected[i].0);
                assert_eq!((end.0.units, end.1.units), expected[i].1);
            }
            _ => panic!("courtyard element {} is not a line", i),
        }
        assert!(matches!(e.layer, LayerType::Courtyard));
        assert_eq!(e.stroke.width.units, 50000);
        assert!(matches!(e.stroke.stroke_type, StrokeType::Solid));
        assert_eq!(e.uuid, format!("t{}", i));
    }
}

#[test]
fn courtyard_fresh_tokens_are_uuid_shaped_and_distinct() {
    let c = Courtyard::new(rect(0, 0, 1000000, 1000000), Fixed::new(250000));
    let elements = c.to_graphic_elements();
    assert_eq!(elements.len(), 4);
    for e in &elements {
        assert_eq!(e.uuid.len(), 36);
    }
    for i in 0..4 {
        for j in 0..i {
            assert_ne!(elements[i].uuid, elements[j].uuid);
        }
    }
}
