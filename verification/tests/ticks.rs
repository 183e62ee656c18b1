use starsight::ticks::{gcd, pi_fraction_label, radian_tick_labels};

fn radian_labels(n: usize) -> Vec<String> {
    radian_tick_labels(n)
}

#[test]
fn radian_labels_match_single_label_formatting() {
    let labels = radian_tick_labels(12);
    assert_eq!(labels.len(), 12);
    for (i, l) in labels.iter().enumerate() {
        assert_eq!(*l, pi_fraction_label(i, 12));
    }
    assert!(radian_tick_labels(0).is_empty());
}

#[test]
fn radian_quad_labels_are_pi_fractions() {
    assert_eq!(radian_labels(4), vec!["0", "π/2", "π", "3π/2"]);
}

#[test]
fn radian_eighths_labels_reduce_to_lowest_terms() {
    assert_eq!(
        radian_labels(8),
        vec!["0", "π/4", "π/2", "3π/4", "π", "5π/4", "3π/2", "7π/4"]
    );
}

#[test]
fn radian_labels_of_whole_multiples_drop_the_denominator() {
    assert_eq!(pi_fraction_label(1, 1), "2π");
    assert_eq!(pi_fraction_label(3, 2), "3π");
    assert_eq!(pi_fraction_label(5, 12), "5π/6");
    assert_eq!(pi_fraction_label(1, 12), "π/6");
    assert_eq!(pi_fraction_label(7, 24), "7π/12");
    assert_eq!(pi_fraction_label(6, 0), "π/0");
}

#[test]
fn gcd_is_at_least_one() {
    assert_eq!(gcd(0, 0), 1);
    assert_eq!(gcd(12, 18), 6);
    assert_eq!(gcd(7, 0), 7);
    assert_eq!(gcd(0, 9), 9);
    assert_eq!(gcd(17, 5), 1);
}
