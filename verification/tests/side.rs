use sidepair::{InvalidOrdinal, Side};

#[test]
fn side_swap() {
    assert_eq!(Side::L.swap(), Side::R);
    assert_eq!(Side::R.swap(), Side::L);
}

#[test]
fn as_usize() {
    assert_eq!(Side::L as usize, 0usize);
    assert_eq!(Side::R as usize, 1usize);
}

#[test]
fn from_into_usize() {
    assert_eq!(Side::from(0), Side::L);
    assert_eq!(Side::from(1), Side::R);

    assert!(Side::try_from(2).is_err());

    let left: usize = Side::L.into();
    assert_eq!(left, 0);

    let right: usize = Side::R.into();
    assert_eq!(right, 1);
}

#[test]
fn swap_twice_is_identity() {
    for side in [Side::L, Side::R] {
        assert_eq!(side.swap().swap(), side);
        assert_ne!(side.swap(), side);
    }
}

#[test]
fn ordinal_round_trip() {
    for side in [Side::L, Side::R] {
        let ordinal: usize = side.into();
        assert_eq!(Side::from(ordinal), side);
        assert_eq!(Side::try_from(ordinal), Ok(side));
        assert_eq!(side as usize, ordinal);
    }
}

#[test]
fn try_from_accepts_zero_and_one() {
    assert_eq!(Side::try_from(0), Ok(Side::L));
    assert_eq!(Side::try_from(1), Ok(Side::R));
}

#[test]
fn try_from_rejects_other_integers() {
    assert_eq!(Side::try_from(2), Err(InvalidOrdinal { value: 2 }));
    assert_eq!(Side::try_from(3), Err(InvalidOrdinal { value: 3 }));
    assert_eq!(Side::try_from(255), Err(InvalidOrdinal { value: 255 }));
    assert_eq!(
        Side::try_from(usize::MAX),
        Err(InvalidOrdinal { value: usize::MAX })
    );
}

#[test]
fn try_into_from_an_integer() {
    let side: Result<Side, InvalidOrdinal> = 1usize.try_into();
    assert_eq!(side, Ok(Side::R));
    let none: Result<Side, InvalidOrdinal> = 7usize.try_into();
    assert_eq!(none, Err(InvalidOrdinal { value: 7 }));
}
