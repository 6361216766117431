use panel_menu::cursor::{full_redraw, repaint_ops, sync, DrawOp};
use panel_menu::geometry::{Point, INDICATOR_DX, INDICATOR_DY, INDICATOR_RADIUS};
use panel_menu::menu::{MenuItem, MenuModel};

fn item(id: u8, x: i32, y: i32) -> MenuItem {
    MenuItem { id, anchor: Point { x, y } }
}

fn three_items() -> Vec<MenuItem> {
    vec![item(1, 80, 90), item(2, 80, 120), item(3, 80, 150)]
}

fn menu_of(n: u8) -> MenuModel {
    let items: Vec<MenuItem> = (0..n).map(|i| item(i, 80, 30 * i32::from(i))).collect();
    MenuModel::new(items).unwrap()
}

#[test]
fn indicator_geometry_constants() {
    assert_eq!(INDICATOR_RADIUS, 10);
    assert_eq!(INDICATOR_DX, -15);
    assert_eq!(INDICATOR_DY, -10);
}

#[test]
fn indicator_center_has_fixed_offset_from_anchor() {
    let anchor = Point { x: 80, y: 90 };
    assert!(anchor.can_hold_indicator());
    assert_eq!(anchor.center_of_indicator(), Point { x: 65, y: 80 });
    assert_eq!(anchor.origin_of_indicator_box(), Point { x: 55, y: 70 });
}

#[test]
fn indicator_fits_down_to_the_edge_of_the_range() {
    assert!(Point { x: i32::MIN + 25, y: i32::MIN + 20 }.can_hold_indicator());
    assert!(!Point { x: i32::MIN + 24, y: i32::MIN + 20 }.can_hold_indicator());
    assert!(!Point { x: i32::MIN + 25, y: i32::MIN + 19 }.can_hold_indicator());
    assert!(Point { x: i32::MAX, y: i32::MAX }.can_hold_indicator());
    assert_eq!(
        Point { x: i32::MIN + 25, y: i32::MIN + 20 }.origin_of_indicator_box(),
        Point { x: i32::MIN, y: i32::MIN }
    );
}

#[test]
fn empty_menu_is_refused() {
    assert!(MenuModel::new(Vec::new()).is_none());
}

#[test]
fn anchor_out_of_range_is_refused() {
    assert!(MenuModel::new(vec![item(1, 80, 90), item(2, i32::MIN, 0)]).is_none());
    assert!(MenuModel::new(vec![item(1, 0, i32::MIN + 19)]).is_none());
}

#[test]
fn new_menu_selects_the_first_item() {
    let menu = MenuModel::new(three_items()).unwrap();
    assert_eq!(menu.len(), 3);
    assert_eq!(menu.current_index(), 0);
    assert_eq!(menu.previous_index(), 0);
    assert_eq!(menu.item(2), item(3, 80, 150));
}

#[test]
fn three_items_wrap_past_the_last() {
    let mut menu = MenuModel::new(three_items()).unwrap();
    assert!(menu.move_next());
    assert_eq!(menu.current_index(), 1);
    assert!(menu.move_next());
    assert_eq!(menu.current_index(), 2);
    assert!(menu.move_next());
    assert_eq!(menu.current_index(), 0);
}

#[test]
fn move_previous_wraps_before_the_first() {
    let mut menu = MenuModel::new(three_items()).unwrap();
    assert!(menu.move_previous());
    assert_eq!(menu.current_index(), 2);
    assert!(menu.move_previous());
    assert_eq!(menu.current_index(), 1);
}

#[test]
fn next_returns_after_exactly_n_moves() {
    for n in 2..=9u8 {
        let mut menu = menu_of(n);
        for k in 1..n {
            menu.move_next();
            assert_eq!(menu.current_index(), usize::from(k));
        }
        menu.move_next();
        assert_eq!(menu.current_index(), 0);
    }
}

#[test]
fn previous_is_the_inverse_of_next() {
    for n in 1..=6u8 {
        let mut menu = menu_of(n);
        for _ in 0..n {
            let start = menu.current_index();
            menu.move_next();
            menu.move_previous();
            assert_eq!(menu.current_index(), start);
            menu.move_previous();
            menu.move_next();
            assert_eq!(menu.current_index(), start);
            menu.move_next();
        }
    }
}

#[test]
fn single_item_never_moves() {
    let mut menu = menu_of(1);
    assert!(!menu.move_next());
    assert_eq!(menu.current_index(), 0);
    assert!(!menu.move_previous());
    assert_eq!(menu.current_index(), 0);
    assert!(sync(&mut menu).is_empty());
}

#[test]
fn moves_leave_the_drawn_index_alone() {
    let mut menu = MenuModel::new(three_items()).unwrap();
    menu.move_next();
    menu.move_next();
    assert_eq!(menu.previous_index(), 0);
    menu.move_previous();
    assert_eq!(menu.previous_index(), 0);
    menu.select_first();
    assert_eq!(menu.current_index(), 0);
    assert_eq!(menu.previous_index(), 0);
}

#[test]
fn sync_erases_then_draws() {
    let mut menu = MenuModel::new(three_items()).unwrap();
    menu.move_next();
    let ops = sync(&mut menu);
    assert_eq!(
        ops,
        vec![
            DrawOp::EraseRect { origin: Point { x: 55, y: 70 }, width: 21, height: 21 },
            DrawOp::Indicator { center: Point { x: 65, y: 110 }, radius: 10 },
        ]
    );
    assert_eq!(menu.previous_index(), 1);
    assert_eq!(menu.current_index(), 1);
}

#[test]
fn sync_twice_is_a_no_op_the_second_time() {
    let mut menu = MenuModel::new(three_items()).unwrap();
    menu.move_previous();
    assert_eq!(sync(&mut menu).len(), 2);
    assert_eq!(menu.previous_index(), menu.current_index());
    assert!(sync(&mut menu).is_empty());
    assert_eq!(menu.current_index(), 2);
    assert_eq!(menu.previous_index(), 2);
}

#[test]
fn sync_tolerates_coalesced_moves() {
    let mut menu = MenuModel::new(three_items()).unwrap();
    menu.move_next();
    menu.move_next();
    let ops = sync(&mut menu);
    assert_eq!(
        ops,
        vec![
            DrawOp::EraseRect { origin: Point { x: 55, y: 70 }, width: 21, height: 21 },
            DrawOp::Indicator { center: Point { x: 65, y: 140 }, radius: 10 },
        ]
    );
    menu.move_next();
    menu.move_previous();
    assert!(sync(&mut menu).is_empty());
}

#[test]
fn full_redraw_paints_everything() {
    let mut menu = MenuModel::new(three_items()).unwrap();
    menu.move_next();
    let ops = full_redraw(&mut menu);
    assert_eq!(
        ops,
        vec![
            DrawOp::Clear,
            DrawOp::Label { id: 1, at: Point { x: 80, y: 90 } },
            DrawOp::Label { id: 2, at: Point { x: 80, y: 120 } },
            DrawOp::Label { id: 3, at: Point { x: 80, y: 150 } },
            DrawOp::Indicator { center: Point { x: 65, y: 110 }, radius: 10 },
        ]
    );
    assert_eq!(menu.previous_index(), 1);
    assert!(sync(&mut menu).is_empty());
}

#[test]
fn repaint_ops_leave_the_model_alone() {
    let mut menu = MenuModel::new(three_items()).unwrap();
    menu.move_previous();
    let ops = repaint_ops(&menu);
    assert_eq!(ops.len(), 5);
    assert_eq!(ops[0], DrawOp::Clear);
    assert_eq!(ops[4], DrawOp::Indicator { center: Point { x: 65, y: 140 }, radius: 10 });
    assert_eq!(menu.current_index(), 2);
    assert_eq!(menu.previous_index(), 0);
    assert_eq!(sync(&mut menu).len(), 2);
}
