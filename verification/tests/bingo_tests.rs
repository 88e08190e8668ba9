use ebb::bingo::BingoState;

#[test]
fn fresh_draw_returns_each_number_once() {
    let mut b = BingoState::new();
    let mut seen = [false; 76];
    for _ in 0..75 {
        let n = b.next().expect("a fresh session yields 75 draws");
        assert!(1 <= n && n <= 75, "draw out of range: {}", n);
        assert!(!seen[n as usize], "draw repeated: {}", n);
        seen[n as usize] = true;
    }
    for v in 1..=75 {
        assert!(seen[v], "number never drawn: {}", v);
    }
}

#[test]
fn seventy_sixth_draw_reports_exhaustion() {
    let mut b = BingoState::new();
    for _ in 0..75 {
        assert!(b.next().is_some());
    }
    assert_eq!(b.next(), None);
    assert_eq!(b.next(), None);
}

#[test]
fn current_peeks_without_drawing() {
    let mut b = BingoState::new();
    let peek = b.current();
    let drawn = b.next();
    assert_eq!(peek, drawn);
    for _ in 0..74 {
        b.next();
    }
    assert_eq!(b.current(), None);
}

#[test]
fn shuffle_keeps_full_range() {
    let b = BingoState::new();
    assert_eq!(b.numbers.len(), 75);
    let mut sorted = b.numbers.clone();
    sorted.sort();
    let expected: Vec<u8> = (1..=75).collect();
    assert_eq!(sorted, expected);
}
