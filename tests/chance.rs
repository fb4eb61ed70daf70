use cetkaik_moves::ciurl::Ciurl;

#[test]
fn count_of_given_outcomes() {
    assert_eq!(Ciurl::from_outcomes(false, false, false, false, false).count(), 0);
    assert_eq!(Ciurl::from_outcomes(true, false, true, true, false).count(), 3);
    assert_eq!(Ciurl::from_outcomes(true, true, true, true, true).count(), 5);
}

#[test]
fn outcomes_keep_their_order() {
    let c = Ciurl::from_outcomes(true, false, false, true, false);
    assert_eq!(c.to_outcomes(), [true, false, false, true, false]);
}

#[test]
fn thrown_sticks_are_roughly_fair() {
    let mut rng = rand::thread_rng();
    let n = 4000;
    let mut ups = [0usize; 5];
    for _ in 0..n {
        let c = Ciurl::new(&mut rng);
        assert!(c.count() <= 5);
        for (i, b) in c.to_outcomes().iter().enumerate() {
            if *b {
                ups[i] += 1;
            }
        }
    }
    for u in ups {
        assert!(u > n * 2 / 5 && u < n * 3 / 5, "{} of {}", u, n);
    }
}
