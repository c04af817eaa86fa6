use trustfall_core::candidates::{CandidateValue, RangeBoundKind, RangeEndpoint};
use trustfall_core::value::FieldValue;

fn whole(n: i64) -> FieldValue {
    FieldValue::Int64(n)
}

fn wholes(ns: &[i64]) -> Vec<FieldValue> {
    ns.iter().map(|n| FieldValue::Int64(*n)).collect()
}

fn merged(a: CandidateValue, b: CandidateValue) -> CandidateValue {
    let mut a = a;
    a.merge(b);
    a
}

fn at_least(n: i64) -> RangeBoundKind {
    RangeBoundKind::Lower(RangeEndpoint::Inclusive(whole(n)))
}

fn below(n: i64) -> RangeBoundKind {
    RangeBoundKind::Upper(RangeEndpoint::Exclusive(whole(n)))
}

fn holds(c: &CandidateValue, ns: &[i64]) -> Vec<bool> {
    ns.iter().map(|n| c.contains(&whole(*n))).collect()
}

#[test]
fn nothing_survives_impossible() {
    assert!(matches!(merged(CandidateValue::Impossible, CandidateValue::All), CandidateValue::Impossible));
    assert!(matches!(merged(CandidateValue::Impossible, CandidateValue::Single(whole(1))), CandidateValue::Impossible));
    assert!(matches!(merged(CandidateValue::All, CandidateValue::Impossible), CandidateValue::Impossible));
    assert!(matches!(merged(CandidateValue::Single(whole(1)), CandidateValue::Impossible), CandidateValue::Impossible));
    assert!(matches!(merged(CandidateValue::Multiple(wholes(&[1, 2])), CandidateValue::Impossible), CandidateValue::Impossible));
    assert!(matches!(merged(CandidateValue::Range(at_least(1)), CandidateValue::Impossible), CandidateValue::Impossible));
}

#[test]
fn all_gives_way() {
    match merged(CandidateValue::All, CandidateValue::Single(whole(3))) {
        CandidateValue::Single(v) => assert_eq!(v, whole(3)),
        other => panic!("unexpected {other:?}"),
    }
    match merged(CandidateValue::Multiple(wholes(&[1, 2])), CandidateValue::All) {
        CandidateValue::Multiple(vs) => assert_eq!(vs, wholes(&[1, 2])),
        other => panic!("unexpected {other:?}"),
    }
    assert!(matches!(merged(CandidateValue::All, CandidateValue::All), CandidateValue::All));
}

#[test]
fn single_values_must_agree() {
    match merged(CandidateValue::Single(whole(3)), CandidateValue::Single(whole(3))) {
        CandidateValue::Single(v) => assert_eq!(v, whole(3)),
        other => panic!("unexpected {other:?}"),
    }
    assert!(matches!(
        merged(CandidateValue::Single(whole(3)), CandidateValue::Single(whole(4))),
        CandidateValue::Impossible
    ));
    assert!(matches!(
        merged(CandidateValue::Single(whole(3)), CandidateValue::Single(FieldValue::Uint64(3))),
        CandidateValue::Impossible
    ));
    match merged(CandidateValue::Single(whole(3)), CandidateValue::Multiple(wholes(&[1, 3]))) {
        CandidateValue::Single(v) => assert_eq!(v, whole(3)),
        other => panic!("unexpected {other:?}"),
    }
    assert!(matches!(
        merged(CandidateValue::Single(whole(3)), CandidateValue::Multiple(wholes(&[1, 2]))),
        CandidateValue::Impossible
    ));
}

#[test]
fn lists_keep_what_the_other_side_holds() {
    match merged(CandidateValue::Multiple(wholes(&[1, 2, 3, 4])), CandidateValue::Multiple(wholes(&[4, 2, 9]))) {
        CandidateValue::Multiple(vs) => assert_eq!(vs, wholes(&[2, 4])),
        other => panic!("unexpected {other:?}"),
    }
    match merged(CandidateValue::Multiple(wholes(&[1, 2, 3])), CandidateValue::Multiple(wholes(&[3]))) {
        CandidateValue::Single(v) => assert_eq!(v, whole(3)),
        other => panic!("unexpected {other:?}"),
    }
    assert!(matches!(
        merged(CandidateValue::Multiple(wholes(&[1, 2])), CandidateValue::Multiple(wholes(&[3]))),
        CandidateValue::Impossible
    ));
    match merged(CandidateValue::Multiple(wholes(&[1, 2, 3])), CandidateValue::Single(whole(2))) {
        CandidateValue::Single(v) => assert_eq!(v, whole(2)),
        other => panic!("unexpected {other:?}"),
    }
    match merged(CandidateValue::Multiple(wholes(&[1, 5, 7, 2])), CandidateValue::Range(at_least(5))) {
        CandidateValue::Multiple(vs) => assert_eq!(vs, wholes(&[5, 7])),
        other => panic!("unexpected {other:?}"),
    }
}

#[test]
fn ranges_keep_the_tighter_bounds() {
    let c = merged(CandidateValue::Range(at_least(2)), CandidateValue::Range(below(5)));
    assert_eq!(holds(&c, &[1, 2, 3, 4, 5]), vec![false, true, true, true, false]);
    match &c {
        CandidateValue::Range(RangeBoundKind::LowerAndUpper(RangeEndpoint::Inclusive(l), RangeEndpoint::Exclusive(u))) => {
            assert_eq!(*l, whole(2));
            assert_eq!(*u, whole(5));
        }
        other => panic!("unexpected {other:?}"),
    }
    let tighter = merged(c, CandidateValue::Range(RangeBoundKind::Lower(RangeEndpoint::Exclusive(whole(2)))));
    assert_eq!(holds(&tighter, &[2, 3, 4, 5]), vec![false, true, true, false]);
    let same = merged(CandidateValue::Range(at_least(3)), CandidateValue::Range(at_least(1)));
    assert_eq!(holds(&same, &[0, 1, 2, 3, 4]), vec![false, false, false, true, true]);
}

#[test]
fn ranges_that_do_not_meet_leave_nothing() {
    assert!(matches!(
        merged(CandidateValue::Range(at_least(5)), CandidateValue::Range(below(5))),
        CandidateValue::Impossible
    ));
    assert!(matches!(
        merged(CandidateValue::Range(at_least(6)), CandidateValue::Range(below(2))),
        CandidateValue::Impossible
    ));
    let point = merged(
        CandidateValue::Range(at_least(5)),
        CandidateValue::Range(RangeBoundKind::Upper(RangeEndpoint::Inclusive(whole(5)))),
    );
    assert_eq!(holds(&point, &[4, 5, 6]), vec![false, true, false]);
}

#[test]
fn ranges_narrow_single_values_and_lists() {
    match merged(CandidateValue::Range(at_least(2)), CandidateValue::Single(whole(3))) {
        CandidateValue::Single(v) => assert_eq!(v, whole(3)),
        other => panic!("unexpected {other:?}"),
    }
    assert!(matches!(
        merged(CandidateValue::Range(at_least(2)), CandidateValue::Single(whole(1))),
        CandidateValue::Impossible
    ));
    match merged(CandidateValue::Range(below(3)), CandidateValue::Multiple(wholes(&[5, 1, 2, 3]))) {
        CandidateValue::Multiple(vs) => assert_eq!(vs, wholes(&[1, 2])),
        other => panic!("unexpected {other:?}"),
    }
    assert!(matches!(
        merged(CandidateValue::Single(whole(1)), CandidateValue::Range(at_least(2))),
        CandidateValue::Impossible
    ));
}

#[test]
fn merged_candidates_hold_what_both_sides_hold() {
    let sides = vec![
        CandidateValue::Impossible,
        CandidateValue::All,
        CandidateValue::Single(whole(2)),
        CandidateValue::Single(whole(7)),
        CandidateValue::Multiple(wholes(&[1, 2, 3])),
        CandidateValue::Multiple(wholes(&[3, 7])),
        CandidateValue::Range(at_least(2)),
        CandidateValue::Range(below(3)),
        CandidateValue::Range(RangeBoundKind::LowerAndUpper(
            RangeEndpoint::Exclusive(whole(1)),
            RangeEndpoint::Inclusive(whole(7)),
        )),
    ];
    for a in &sides {
        for b in &sides {
            let m = merged(a.clone(), b.clone());
            for n in -1..10 {
                let x = whole(n);
                assert_eq!(
                    m.contains(&x),
                    a.contains(&x) && b.contains(&x),
                    "{a:?} merged with {b:?} at {n}"
                );
            }
        }
    }
}

#[test]
fn candidates_hold_their_values() {
    assert!(!CandidateValue::Impossible.contains(&whole(1)));
    assert!(CandidateValue::All.contains(&FieldValue::Null));
    assert!(CandidateValue::Single(FieldValue::Null).contains(&FieldValue::Null));
    assert!(!CandidateValue::Single(whole(1)).contains(&FieldValue::Uint64(1)));
    assert!(CandidateValue::Multiple(wholes(&[1, 2])).contains(&whole(2)));
    assert!(!CandidateValue::Multiple(vec![]).contains(&whole(2)));
    assert!(CandidateValue::Range(at_least(2)).contains(&FieldValue::Uint64(2)));
    assert!(!CandidateValue::Range(at_least(2)).contains(&FieldValue::String("z".to_string())));
    let text = RangeBoundKind::Lower(RangeEndpoint::Inclusive(FieldValue::String("a".to_string())));
    assert!(!text.contains(&whole(1)));
}

#[test]
fn from_list_picks_the_narrowest_form() {
    assert!(matches!(CandidateValue::from_list(vec![]), CandidateValue::Impossible));
    match CandidateValue::from_list(wholes(&[4])) {
        CandidateValue::Single(v) => assert_eq!(v, whole(4)),
        other => panic!("unexpected {other:?}"),
    }
    match CandidateValue::from_list(wholes(&[4, 5])) {
        CandidateValue::Multiple(vs) => assert_eq!(vs, wholes(&[4, 5])),
        other => panic!("unexpected {other:?}"),
    }
}

#[test]
fn range_endpoints_admit_by_number() {
    let inclusive = RangeEndpoint::Inclusive(whole(3));
    let exclusive = RangeEndpoint::Exclusive(whole(3));
    assert!(inclusive.admits_above(&whole(3)));
    assert!(!exclusive.admits_above(&whole(3)));
    assert!(exclusive.admits_above(&whole(4)));
    assert!(inclusive.admits_below(&whole(3)));
    assert!(!exclusive.admits_below(&whole(3)));
    assert!(exclusive.admits_below(&whole(2)));
    assert!(inclusive.is_inclusive());
    assert!(!exclusive.is_inclusive());
    assert_eq!(*exclusive.value(), whole(3));
}
