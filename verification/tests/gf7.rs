use galois7::algebra::{Conjugate, Zero};
use galois7::galois::{Galois, GF7};

fn gf(v: i8) -> GF7 {
    Galois::from(v)
}

fn rep(x: GF7) -> i8 {
    Galois::into(x)
}

#[test]
fn closure_all_pairs() {
    for a in 0i8..7 {
        for b in 0i8..7 {
            let s: i8 = rep(gf(a).add(gf(b)));
            assert!(0 <= s && s < 7);
            let d: i8 = rep(gf(a).sub(gf(b)));
            assert!(0 <= d && d < 7);
            let p: i8 = rep(gf(a).mul(gf(b)));
            assert!(0 <= p && p < 7);
        }
    }
}

#[test]
fn add_commutative_all_pairs() {
    for a in 0i8..7 {
        for b in 0i8..7 {
            assert_eq!(gf(a).add(gf(b)), gf(b).add(gf(a)));
        }
    }
}

#[test]
fn mul_commutative_all_pairs() {
    for a in 0i8..7 {
        for b in 0i8..7 {
            assert_eq!(gf(a).mul(gf(b)), gf(b).mul(gf(a)));
        }
    }
}

#[test]
fn add_associative_all_triples() {
    for a in 0i8..7 {
        for b in 0i8..7 {
            for c in 0i8..7 {
                assert_eq!(gf(a).add(gf(b)).add(gf(c)), gf(a).add(gf(b).add(gf(c))));
            }
        }
    }
}

#[test]
fn mul_associative_all_triples() {
    for a in 0i8..7 {
        for b in 0i8..7 {
            for c in 0i8..7 {
                assert_eq!(gf(a).mul(gf(b)).mul(gf(c)), gf(a).mul(gf(b).mul(gf(c))));
            }
        }
    }
}

#[test]
fn additive_identity() {
    for a in 0i8..7 {
        assert_eq!(gf(a).add(GF7::zero()), gf(a));
    }
}

#[test]
fn additive_inverse() {
    for a in 0i8..7 {
        assert_eq!(gf(a).add(gf(a).neg()), GF7::zero());
    }
}

#[test]
fn multiplicative_inverse_nonzero() {
    for a in 1i8..7 {
        assert_eq!(rep(gf(a).mul(gf(a).inv())), 1);
    }
}

#[test]
fn division_consistency() {
    for a in 0i8..7 {
        for b in 1i8..7 {
            assert_eq!(gf(a).div(gf(b)), gf(a).mul(gf(b).inv()));
        }
    }
}

#[test]
fn inverse_table_pairs() {
    let pairs: [(i8, i8); 6] = [(1, 1), (2, 4), (3, 5), (4, 2), (5, 3), (6, 6)];
    for (a, b) in pairs {
        assert_eq!(rep(gf(a).inv()), b);
        assert_eq!(rep(gf(b).inv()), a);
        assert_eq!(rep(gf(a).mul(gf(b))), 1);
    }
}

#[test]
fn canonicalization_wraps_at_and_beyond_modulus() {
    assert_eq!(gf(7), gf(0));
    assert_eq!(gf(8), gf(1));
    assert_eq!(gf(13), gf(6));
    for v in 0i8..7 {
        assert_eq!(rep(gf(v)), v);
    }
}

#[test]
fn negative_input_is_normalized() {
    // The constructor normalizes every raw representative to the least
    // nonnegative residue, so a raw -1 becomes the representative 6.
    assert_eq!(rep(gf(-1)), 6);
    assert_eq!(gf(-1), gf(6));
    assert_eq!(rep(gf(-7)), 0);
    assert_eq!(rep(gf(i8::MIN)), 5);
    assert_eq!(rep(gf(i8::MAX)), 1);
}

#[test]
fn conjugate_is_identity() {
    for a in 0i8..7 {
        assert_eq!(gf(a).conjugate(), gf(a));
    }
}

#[test]
fn zero_element_representative() {
    assert_eq!(rep(GF7::zero()), 0);
    assert_eq!(GF7::zero(), gf(0));
}

#[test]
fn end_to_end_example() {
    assert_eq!(gf(3).mul(gf(5)), gf(1));
    assert_eq!(gf(1).div(gf(3)), gf(5));
}

#[test]
fn negation_table() {
    let expected: [i8; 7] = [0, 6, 5, 4, 3, 2, 1];
    for a in 0i8..7 {
        assert_eq!(rep(gf(a).neg()), expected[a as usize]);
    }
}

#[test]
fn into_returns_stored_representative() {
    for v in 0i8..7 {
        let x = gf(v);
        assert_eq!(rep(x), v);
        assert_eq!(rep(x.clone()), v);
    }
}

#[test]
fn operators_delegate_to_field_methods() {
    for a in 0i8..7 {
        for b in 0i8..7 {
            assert_eq!(gf(a) + gf(b), gf(a).add(gf(b)));
            assert_eq!(gf(a) - gf(b), gf(a).sub(gf(b)));
            assert_eq!(gf(a) * gf(b), gf(a).mul(gf(b)));
        }
        assert_eq!(-gf(a), gf(a).neg());
        assert_eq!(gf(a) + (-gf(a)), GF7::zero());
    }
}

#[test]
fn debug_renders_the_element() {
    let text: String = format!("{:?}", gf(3));
    assert!(text.contains('3'));
}
