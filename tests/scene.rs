use piet::{
    is_balanced, matching_restore, star, test_picture, DrawOp, FillRule, PathEl, Point, PolarPathEl, Rotation,
};

fn kind(op: &DrawOp) -> &'static str {
    match op {
        DrawOp::Clear { .. } => "clear",
        DrawOp::SolidBrush { .. } => "brush",
        DrawOp::StrokeLine { .. } => "stroke-line",
        DrawOp::StrokePath { .. } => "stroke-path",
        DrawOp::FillPath { .. } => "fill-path",
        DrawOp::NewFont { .. } => "font",
        DrawOp::NewTextLayout { .. } => "layout",
        DrawOp::DrawText { .. } => "text",
        DrawOp::StrokeUnderline { .. } => "underline",
        DrawOp::Save => "save",
        DrawOp::Rotate { .. } => "rotate",
        DrawOp::Restore => "restore",
        DrawOp::Clip { .. } => "clip",
    }
}

#[test]
fn scene_zero_issues_operations_in_order() {
    let ops = test_picture(0).expect("scene 0 exists");
    let drawing: Vec<&str> = ops.iter().map(kind).filter(|k| *k != "brush").collect();
    assert_eq!(
        drawing,
        vec![
            "clear",
            "stroke-line",
            "stroke-path",
            "fill-path",
            "font",
            "layout",
            "text",
            "underline",
            "save",
            "rotate",
            "text",
            "restore",
            "clip",
            "layout",
            "text",
        ]
    );
}

#[test]
fn scene_zero_values() {
    let ops = test_picture(0).expect("scene 0 exists");
    assert_eq!(ops.len(), 19);
    assert_eq!(ops[0], DrawOp::Clear { rgb: 0xFF_FF_FF });
    assert_eq!(ops[1], DrawOp::SolidBrush { rgba: 0x00_00_80_FF });
    assert_eq!(
        ops[2],
        DrawOp::StrokeLine { p0: Point { x: 10, y: 10 }, p1: Point { x: 100, y: 50 }, width: 1 }
    );
    assert_eq!(
        ops[4],
        DrawOp::StrokePath {
            path: vec![
                PathEl::MoveTo(Point { x: 50, y: 10 }),
                PathEl::QuadTo(Point { x: 60, y: 50 }, Point { x: 100, y: 90 }),
            ],
            width: 1,
        }
    );
    assert_eq!(ops[5], DrawOp::SolidBrush { rgba: 0x00_00_80_C0 });
    assert_eq!(
        ops[6],
        DrawOp::FillPath {
            path: vec![
                PathEl::MoveTo(Point { x: 10, y: 20 }),
                PathEl::CurveTo(
                    Point { x: 10, y: 80 },
                    Point { x: 100, y: 80 },
                    Point { x: 100, y: 60 }
                ),
            ],
            rule: FillRule::NonZero,
        }
    );
    assert_eq!(ops[7], DrawOp::NewFont { name: "Segoe UI", size: 12 });
    assert_eq!(ops[8], DrawOp::NewTextLayout { text: "Hello piet!" });
    assert_eq!(ops[11], DrawOp::StrokeUnderline { start: Point { x: 80, y: 12 }, width: 1 });
    assert_eq!(ops[13], DrawOp::Rotate { rotation: Rotation { num: 1, den: 10 } });
    assert_eq!(
        ops[16],
        DrawOp::Clip { outline: star(Point { x: 90, y: 45 }, 10, 30, 24), rule: FillRule::NonZero }
    );
    assert_eq!(ops[17], DrawOp::NewTextLayout { text: "Clipped text" });
    assert_eq!(ops[18], DrawOp::DrawText { origin: Point { x: 80, y: 50 } });
    match &ops[16] {
        DrawOp::Clip { outline, .. } => {
            assert_eq!(outline.len(), 49);
            assert_eq!(outline[48], PolarPathEl::ClosePath);
        }
        _ => panic!("expected a clip"),
    }
}

#[test]
fn other_scenes_do_not_exist() {
    assert!(test_picture(1).is_none());
    assert!(test_picture(7).is_none());
    assert!(test_picture(usize::MAX).is_none());
}

#[test]
fn scene_zero_scopes_are_balanced() {
    let ops = test_picture(0).expect("scene 0 exists");
    assert!(is_balanced(&ops));
}

#[test]
fn scope_balance() {
    let rotate = DrawOp::Rotate { rotation: Rotation { num: 1, den: 2 } };
    assert!(is_balanced(&vec![]));
    assert!(is_balanced(&vec![DrawOp::Save, rotate.clone(), DrawOp::Restore]));
    assert!(is_balanced(&vec![
        DrawOp::Save,
        DrawOp::Save,
        DrawOp::Restore,
        rotate.clone(),
        DrawOp::Restore,
    ]));
    assert!(!is_balanced(&vec![DrawOp::Restore, DrawOp::Save]));
    assert!(!is_balanced(&vec![DrawOp::Save, rotate.clone()]));
    assert!(!is_balanced(&vec![DrawOp::Save, DrawOp::Restore, DrawOp::Restore]));
}

#[test]
fn fill_rules_differ() {
    assert_eq!(FillRule::NonZero, FillRule::NonZero);
    assert_ne!(FillRule::NonZero, FillRule::EvenOdd);
}

#[test]
fn scope_end_in_scene_zero() {
    let ops = test_picture(0).expect("scene 0 exists");
    assert_eq!(ops[12], DrawOp::Save);
    assert_eq!(matching_restore(&ops, 12), Some(15));
}

#[test]
fn scope_end_skips_inner_scopes() {
    let rotate = DrawOp::Rotate { rotation: Rotation { num: 1, den: 2 } };
    let ops = vec![
        rotate.clone(),
        DrawOp::Save,
        DrawOp::Save,
        rotate.clone(),
        DrawOp::Restore,
        DrawOp::Restore,
        DrawOp::Restore,
    ];
    assert_eq!(matching_restore(&ops, 1), Some(5));
    assert_eq!(matching_restore(&ops, 2), Some(4));
}

#[test]
fn scope_end_missing() {
    let ops = vec![DrawOp::Save, DrawOp::Save, DrawOp::Restore];
    assert_eq!(matching_restore(&ops, 0), None);
    assert_eq!(matching_restore(&vec![DrawOp::Save], 0), None);
}
