use fate::aabb::{partial_max, partial_min};

/// A pair ordered by its first component only.
#[derive(Debug, PartialEq)]
struct Key(i32, char);

impl PartialOrd for Key {
    fn partial_cmp(&self, other: &Self) -> Option<std::cmp::Ordering> {
        self.0.partial_cmp(&other.0)
    }
}

#[test]
fn partial_min_of_empty_is_none() {
    assert_eq!(partial_min::<i64>(vec![]), None);
    assert_eq!(partial_max::<i64>(vec![]), None);
}

#[test]
fn partial_min_and_max_of_integers() {
    assert_eq!(partial_min(vec![5i64, -2, 7, -2, 3]), Some(-2));
    assert_eq!(partial_max(vec![5i64, -2, 7, -2, 3]), Some(7));
    assert_eq!(partial_min(vec![4u32]), Some(4));
    assert_eq!(partial_max(vec![4u32]), Some(4));
}

#[test]
fn partial_min_keeps_first_and_max_keeps_last_of_equals() {
    let items = vec![Key(1, 'a'), Key(0, 'b'), Key(0, 'c'), Key(3, 'd'), Key(3, 'e')];
    assert_eq!(partial_min(items), Some(Key(0, 'b')));
    let items = vec![Key(1, 'a'), Key(0, 'b'), Key(0, 'c'), Key(3, 'd'), Key(3, 'e')];
    assert_eq!(partial_max(items), Some(Key(3, 'e')));
}

#[test]
fn partial_min_treats_nan_as_equal() {
    // A NaN accumulator is never "greater", so it is kept for the minimum.
    let r = partial_min(vec![f32::NAN, 1.0, -1.0]);
    assert!(r.unwrap().is_nan());
    // Against NaN the later element is taken for the maximum.
    assert_eq!(partial_max(vec![2.0f32, f32::NAN, 1.0]), Some(1.0));
    assert_eq!(partial_min(vec![2.0f32, -3.5, 1.0]), Some(-3.5));
    assert_eq!(partial_max(vec![2.0f32, -3.5, 1.0]), Some(2.0));
}
