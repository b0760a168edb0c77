use uefi::guid::Guid;

fn sample() -> Guid {
    Guid::new(
        0x964e5b21,
        0x6459,
        0x11d2,
        [0x8e, 0x39, 0x00, 0xa0, 0xc9, 0x69, 0x72, 0x3b],
    )
}

#[test]
fn equality_is_reflexive() {
    let g = sample();
    assert_eq!(g, g);
    assert_eq!(g, sample());
}

#[test]
fn equality_is_symmetric() {
    let g1 = sample();
    let g2 = sample();
    assert_eq!(g1 == g2, g2 == g1);
    let mut g3 = sample();
    g3.b = 0x6458;
    assert_eq!(g1 == g3, g3 == g1);
}

#[test]
fn one_differing_byte_in_a_field_makes_guids_unequal() {
    let g = sample();
    let mut h = g;
    h.a ^= 0x0000_0100;
    assert_ne!(g, h);
    let mut h = g;
    h.b ^= 0x01;
    assert_ne!(g, h);
    let mut h = g;
    h.c ^= 0x80;
    assert_ne!(g, h);
}

#[test]
fn one_differing_trailing_byte_makes_guids_unequal() {
    let g = sample();
    for i in 0..8 {
        let mut h = g;
        h.d[i] ^= 1;
        assert_ne!(g, h, "byte {}", i);
    }
}

#[test]
fn field_for_field_construction_is_equal() {
    let g = sample();
    let h = Guid {
        a: g.a,
        b: g.b,
        c: g.c,
        d: g.d,
    };
    assert_eq!(g, h);
}
