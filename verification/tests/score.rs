use coinfall::score::Score;
use coinfall::text::score_text;

#[test]
fn a_new_score_is_zero_and_has_no_digit() {
    let s = Score::new();
    assert!(s.digits.is_empty());
    assert_eq!(s, Score::from_usize(0));
}

#[test]
fn digits_stand_least_significant_first() {
    assert_eq!(Score::from_usize(7).digits, vec![7]);
    assert_eq!(Score::from_usize(10).digits, vec![0, 1]);
    assert_eq!(Score::from_usize(1234).digits, vec![4, 3, 2, 1]);
    assert_eq!(Score::from_usize(90_050).digits, vec![0, 5, 0, 0, 9]);
}

#[test]
fn counting_carries() {
    let mut s = Score::from_usize(999);
    s.increase(1);
    assert_eq!(s.digits, vec![0, 0, 0, 1]);
    s.increase(0);
    assert_eq!(s.digits, vec![0, 0, 0, 1]);
    s.increase(8_999);
    assert_eq!(s.digits, vec![9, 9, 9, 9]);
    s.increase(123_456);
    assert_eq!(s, Score::from_usize(133_455));
    let mut zero = Score::new();
    zero.increase(0);
    assert!(zero.digits.is_empty());
}

#[test]
fn counting_agrees_with_addition() {
    for a in [0usize, 1, 9, 10, 95, 999, 12_345] {
        for b in [0usize, 1, 5, 9, 10, 11, 905, 99_999] {
            let mut s = Score::from_usize(a);
            s.increase(b);
            assert_eq!(s, Score::from_usize(a + b));
        }
    }
}

#[test]
fn a_score_has_no_greatest_value() {
    let mut s = Score::from_usize(usize::MAX);
    s.increase(usize::MAX);
    assert_eq!(score_text(&s), format!("Score {}", 2 * (usize::MAX as u128)));
    s.increase(1);
    assert_eq!(score_text(&s), format!("Score {}", 2 * (usize::MAX as u128) + 1));
    for d in &s.digits {
        assert!(*d < 10);
    }
    assert_ne!(*s.digits.last().unwrap(), 0);
}
