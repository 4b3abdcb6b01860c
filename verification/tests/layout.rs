use perfwindow::layout::{card_list, core_tag, pack_rows, plan_cells, Card, CellBudget, CellPlan};

const CELL_W: f32 = 44.0;
const CELL_H: f32 = 28.0;
const COMPACT_CELL_W: f32 = 32.0;
const COMPACT_CELL_H: f32 = 18.0;
const CELL_GAP: f32 = 4.0;

/// The whole-cell budget the heat-map painter derives from its pixel
/// budget.
fn budget(avail_w: f32, max_h: f32) -> CellBudget {
    let cols = |w: f32| ((avail_w + CELL_GAP) / (w + CELL_GAP)).floor() as usize;
    let rows = |h: f32| ((max_h + CELL_GAP) / (h + CELL_GAP)).floor() as usize;
    CellBudget {
        cols_default: cols(CELL_W),
        rows_default: rows(CELL_H),
        cols_compact: cols(COMPACT_CELL_W),
        rows_compact: rows(COMPACT_CELL_H),
    }
}

fn plan_grid(n: usize, avail_w: f32, max_h: f32) -> CellPlan {
    plan_cells(n, budget(avail_w, max_h))
}

fn total_height(plan: &CellPlan) -> f32 {
    let cell_h = if plan.compact { COMPACT_CELL_H } else { CELL_H };
    plan.rows as f32 * cell_h + (plan.rows as f32 - 1.0).max(0.0) * CELL_GAP
}

#[test]
fn small_grids_keep_default_cells_and_show_everything() {
    let plan = plan_grid(24, 270.0, 400.0);
    assert!(!plan.compact);
    assert_eq!(plan.shown, 24);
    assert_eq!(plan.hidden, 0);
    assert!(total_height(&plan) <= 400.0);
}

#[test]
fn tight_height_drops_to_compact_cells() {
    let plan = plan_grid(24, 270.0, 110.0);
    assert!(plan.compact);
    assert_eq!(plan.shown, 24);
    assert_eq!(plan.hidden, 0);
    assert!(total_height(&plan) <= 110.0);
}

#[test]
fn overflow_caps_cells_and_reports_hidden_count() {
    let plan = plan_grid(256, 270.0, 110.0);
    assert!(plan.compact);
    assert!(plan.hidden > 0);
    assert_eq!(plan.shown + plan.hidden, 256);
    assert!(plan.shown < plan.cols * plan.rows);
    assert!(total_height(&plan) <= 110.0);
}

#[test]
fn grid_height_never_exceeds_the_budget_beyond_one_minimum_row() {
    for n in [1usize, 2, 8, 16, 64, 128, 512] {
        for w in [50.0f32, 120.0, 270.0, 800.0] {
            for h in [10.0f32, 40.0, 110.0, 600.0] {
                let plan = plan_grid(n, w, h);
                assert_eq!(plan.shown + plan.hidden, n, "n={n} w={w} h={h}");
                let floor = COMPACT_CELL_H.max(h);
                assert!(
                    total_height(&plan) <= floor,
                    "n={n} w={w} h={h} height={}",
                    total_height(&plan)
                );
            }
        }
    }
}

#[test]
fn degenerate_budget_still_plans_one_row() {
    let plan = plan_grid(8, 100.0, f32::NAN);
    assert!(plan.rows >= 1);
    let plan = plan_grid(8, 100.0, 0.0);
    assert_eq!(plan.rows, 1);
}

#[test]
fn overflow_reserves_exactly_one_cell_for_the_marker() {
    let plan = plan_cells(
        100,
        CellBudget { cols_default: 4, rows_default: 2, cols_compact: 5, rows_compact: 3 },
    );
    assert_eq!(plan, CellPlan { cols: 5, rows: 3, compact: true, shown: 14, hidden: 86 });
}

#[test]
fn core_tags_follow_the_hybrid_split() {
    assert_eq!(core_tag(0, None), "C0");
    assert_eq!(core_tag(3, None), "C3");
    assert_eq!(core_tag(0, Some(2)), "P1");
    assert_eq!(core_tag(1, Some(2)), "P2");
    assert_eq!(core_tag(2, Some(2)), "E1");
    assert_eq!(core_tag(5, Some(2)), "E4");
    assert_eq!(core_tag(usize::MAX, None), format!("C{}", usize::MAX));
    assert_eq!(core_tag(usize::MAX, Some(1)), format!("E{}", usize::MAX));
}

#[test]
fn card_list_orders_sections() {
    assert_eq!(
        card_list(true, 2, true, true),
        vec![
            Card::Cpu,
            Card::Gpu(0),
            Card::Gpu(1),
            Card::Ram,
            Card::Storage,
            Card::Sensors,
            Card::Network
        ]
    );
    assert_eq!(card_list(false, 0, false, false), vec![Card::Sensors, Card::Network]);
}

#[test]
fn rows_fill_greedily_and_storage_spans_two() {
    let cards = card_list(true, 1, true, true);
    let rows = pack_rows(&cards, 4);
    assert_eq!(
        rows,
        vec![
            vec![Card::Cpu, Card::Gpu(0), Card::Ram],
            vec![Card::Storage, Card::Sensors, Card::Network],
        ]
    );
    let rows = pack_rows(&cards, 2);
    assert_eq!(rows.len(), 4);
    assert_eq!(rows[2], vec![Card::Storage]);
    let rows = pack_rows(&cards, 1);
    assert_eq!(rows.len(), cards.len());
    assert_eq!(Card::Storage.span(), 2);
    assert_eq!(Card::Gpu(3).span(), 1);
}

#[test]
fn packing_keeps_every_card_in_order() {
    let cards = card_list(true, 3, true, true);
    for cols in 0..6usize {
        let rows = pack_rows(&cards, cols);
        let flat: Vec<Card> = rows.iter().flatten().copied().collect();
        assert_eq!(flat, cards);
        assert!(rows.iter().all(|r| !r.is_empty()));
    }
}
