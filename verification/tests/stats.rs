use perfwindow::stats::{select, Capacity, StatCandidate};

fn cand(priority: u8, label: &'static str) -> StatCandidate {
    StatCandidate {
        priority,
        label,
        value: "x".into(),
        color: None,
        tooltip_key: label,
    }
}

#[test]
fn select_returns_top_n_by_priority() {
    let cands = vec![cand(2, "B"), cand(0, "A"), cand(3, "D"), cand(1, "C")];
    let out = select(&cands, Capacity { rows: 2, columns: 2 });
    assert_eq!(out.len(), 2);
    assert_eq!(out[0].label, "A");
    assert_eq!(out[1].label, "C");
}

#[test]
fn select_caps_at_candidate_count() {
    let cands = vec![cand(0, "A")];
    let out = select(&cands, Capacity { rows: 6, columns: 2 });
    assert_eq!(out.len(), 1);
}

#[test]
fn select_stable_among_equal_priorities() {
    let cands = vec![cand(0, "A"), cand(0, "B"), cand(0, "C")];
    let out = select(&cands, Capacity { rows: 3, columns: 2 });
    assert_eq!(out.iter().map(|c| c.label).collect::<Vec<_>>(), vec!["A", "B", "C"]);
}

#[test]
fn select_returns_empty_when_capacity_zero() {
    let cands = vec![cand(0, "A"), cand(1, "B")];
    let out = select(&cands, Capacity { rows: 0, columns: 1 });
    assert!(out.is_empty());
}

#[test]
fn select_orders_by_priority_then_position() {
    let cands = vec![cand(5, "E"), cand(1, "B1"), cand(255, "Z"), cand(1, "B2"), cand(0, "A")];
    let out = select(&cands, Capacity { rows: 11, columns: 2 });
    assert_eq!(
        out.iter().map(|c| c.label).collect::<Vec<_>>(),
        vec!["A", "B1", "B2", "E", "Z"]
    );
}

#[test]
fn left_column_takes_the_extra_row() {
    assert_eq!(perfwindow::stats::left_column_len(5), 3);
    assert_eq!(perfwindow::stats::left_column_len(4), 2);
    assert_eq!(perfwindow::stats::left_column_len(0), 0);
}
