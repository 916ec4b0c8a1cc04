use upbit_trading_bot::history::BoundedHistory;

#[test]
fn history_keeps_most_recent_items_in_order() {
    let mut h = BoundedHistory::new(3);
    for i in 1..=5 {
        h.push(i);
    }
    assert_eq!(h.items().iter().copied().collect::<Vec<_>>(), vec![3, 4, 5]);
    assert_eq!(h.len(), 3);
    assert_eq!(h.capacity(), 3);
    assert_eq!(*h.get(0), 3);
}

#[test]
fn history_below_capacity_keeps_everything() {
    let mut h = BoundedHistory::new(10);
    h.push("a");
    h.push("b");
    assert_eq!(h.items().iter().copied().collect::<Vec<_>>(), vec!["a", "b"]);
}

#[test]
fn recent_start_selects_the_newest() {
    let mut h = BoundedHistory::new(10);
    for i in 0..7 {
        h.push(i);
    }
    assert_eq!(h.recent_start(3), 4);
    assert_eq!(h.items().range(h.recent_start(3)..).copied().collect::<Vec<_>>(), vec![4, 5, 6]);
    assert_eq!(h.recent_start(25), 0);
    assert_eq!(h.recent_start(0), 7);
}

#[test]
fn zero_capacity_history_stays_empty() {
    let mut h = BoundedHistory::new(0);
    h.push(1);
    assert_eq!(h.len(), 0);
}
