use ternary_types::Ternary::{Negative, Neutral, Positive};
use ternary_types::Ternary;

/// Values of sums and products follow integer arithmetic modulo 3.
#[test]
fn values_follow_integers_mod_three() {
    let all = [Negative, Neutral, Positive];
    for a in all {
        for b in all {
            let s = (a.to_i8() as i32 + b.to_i8() as i32).rem_euclid(3);
            let balanced = if s == 2 { -1 } else { s };
            assert_eq!((a + b).to_i32(), balanced);
            assert_eq!((a * b).to_i8(), a.to_i8() * b.to_i8());
            assert_eq!((-a).to_i8(), -a.to_i8());
        }
    }
    let _: Ternary = Neutral;
}
