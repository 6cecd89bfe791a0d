use sidepair::{Case, Pair, Side};

#[test]
fn pair_none() {
    let avail: Case<()> = [None, None].into();
    assert_eq!(avail, Case::Neither);
}

fn round_trip(slots: [Option<i32>; 2], expected: Case<i32>) {
    let case: Case<i32> = slots.into();
    assert_eq!(case, expected);
    let back: [Option<i32>; 2] = case.into();
    assert_eq!(back, slots);

    let pair = Pair::from(slots);
    let case: Case<i32> = pair.into();
    assert_eq!(case, expected);
    let back: Pair<Option<i32>> = case.into();
    assert_eq!(back, pair);

    let again: Case<i32> = back.into();
    assert_eq!(again, expected);
}

#[test]
fn both_present() {
    round_trip([Some(5), Some(7)], Case::Both(Pair::new(5, 7)));
}

#[test]
fn only_left_present() {
    round_trip([Some(5), None], Case::One(Side::L, 5));
}

#[test]
fn only_right_present() {
    round_trip([None, Some(7)], Case::One(Side::R, 7));
}

#[test]
fn neither_present() {
    round_trip([None, None], Case::Neither);
}

#[test]
fn case_to_slots() {
    let both: [Option<char>; 2] = Case::Both(Pair::new('a', 'b')).into();
    assert_eq!(both, [Some('a'), Some('b')]);
    let left: [Option<char>; 2] = Case::One(Side::L, 'a').into();
    assert_eq!(left, [Some('a'), None]);
    let right: [Option<char>; 2] = Case::One(Side::R, 'b').into();
    assert_eq!(right, [None, Some('b')]);
    let neither: [Option<char>; 2] = Case::Neither.into();
    assert_eq!(neither, [None, None]);
}

#[test]
fn case_keeps_the_order_of_both() {
    let case: Case<&str> = [Some("left"), Some("right")].into();
    assert_eq!(case, Case::Both(Pair::new("left", "right")));
    assert_ne!(case, Case::Both(Pair::new("right", "left")));
}

#[test]
fn case_of_values_that_are_not_copied() {
    let slots = [Some(String::from("only")), None];
    let case: Case<String> = slots.clone().into();
    assert_eq!(case, Case::One(Side::L, String::from("only")));
    assert_eq!(case.clone(), case);
    let pair: Pair<Option<String>> = case.into();
    assert!(pair.one());
    assert_eq!(pair, Pair::from(slots));
}

#[test]
fn cases_differ_by_variant_side_and_value() {
    assert_ne!(Case::One(Side::L, 1), Case::One(Side::R, 1));
    assert_ne!(Case::One(Side::L, 1), Case::One(Side::L, 2));
    assert_ne!(Case::One(Side::L, 1), Case::Neither);
    assert_ne!(Case::Both(Pair::new(1, 1)), Case::One(Side::L, 1));
    assert_eq!(Case::<i32>::Neither, Case::Neither);
}
