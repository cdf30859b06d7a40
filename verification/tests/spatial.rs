use vector_processor::{Vector, VectorError};

fn parts(frame: (Vector, Vector, Vector)) -> (Vec<i64>, Vec<i64>, Vec<i64>) {
    (frame.0.components().clone(), frame.1.components().clone(), frame.2.components().clone())
}

#[test]
fn cross() {
    let v1 = Vector::new(vec![1, 2, 3]);
    let v2 = Vector::new(vec![3, 2, 1]);
    assert_eq!(*v1.cross(&v2).unwrap().components(), vec![-4, 8, -4]);
}

#[test]
fn cross_unequal() {
    let v1 = Vector::new(vec![1, 2, 3]);
    let v2 = Vector::new(vec![3, 2]);
    assert_eq!(*v1.cross(&v2).unwrap().components(), vec![-6, 9, -4]);
}

#[test]
fn cross_of_unit_vectors() {
    let x = Vector::new(vec![1, 0, 0]);
    let y = Vector::new(vec![0, 1, 0]);
    let z = Vector::new(vec![0, 0, 1]);
    assert_eq!(*x.cross(&y).unwrap().components(), vec![0, 0, 1]);
    assert_eq!(*y.cross(&z).unwrap().components(), vec![1, 0, 0]);
    assert_eq!(*z.cross(&x).unwrap().components(), vec![0, 1, 0]);
}

#[test]
fn cross_pads_short_operands_with_zeros() {
    let empty = Vector::new(vec![]);
    let v = Vector::new(vec![1, 2, 3]);
    assert_eq!(*empty.cross(&v).unwrap().components(), vec![0, 0, 0]);
    assert_eq!(*empty.cross(&empty).unwrap().components(), vec![0, 0, 0]);
    let a = Vector::new(vec![2]);
    let b = Vector::new(vec![0, 5]);
    assert_eq!(*a.cross(&b).unwrap().components(), vec![0, 0, 10]);
}

#[test]
fn cross_of_a_vector_with_itself_is_zero() {
    let v = Vector::new(vec![7, -8, 9]);
    assert_eq!(*v.cross(&v).unwrap().components(), vec![0, 0, 0]);
}

#[test]
fn cross_overflows_only_beyond_the_range() {
    let a = Vector::new(vec![0, i64::MAX, 0]);
    assert_eq!(*a.cross(&Vector::new(vec![0, 0, 1])).unwrap().components(), vec![i64::MAX, 0, 0]);
    assert_eq!(a.cross(&Vector::new(vec![0, 0, 2])), Err(VectorError::Overflow));
    // Both products are beyond the range, their difference is not.
    let b = Vector::new(vec![0, i64::MAX, i64::MAX]);
    let c = Vector::new(vec![0, i64::MAX, i64::MAX - 1]);
    assert_eq!(*b.cross(&c).unwrap().components(), vec![-i64::MAX, 0, 0]);
    let least = Vector::new(vec![0, i64::MIN, i64::MIN]);
    let mixed = Vector::new(vec![0, i64::MAX, i64::MIN]);
    assert_eq!(least.cross(&mixed), Err(VectorError::Overflow));
}

#[test]
fn cross_changes_sign_when_the_operands_change_places() {
    let a = Vector::new(vec![1, 2, 3]);
    let b = Vector::new(vec![3, 2]);
    let swapped = b.cross(&a).unwrap().scalar_mul(-1).unwrap();
    assert_eq!(a.cross(&b).unwrap(), swapped);
    assert_eq!(*swapped.components(), vec![-6, 9, -4]);
}

#[test]
fn basis_with_one_gives_the_three_directions() {
    let v = Vector::new(vec![1, 0, 0]);
    let frame = parts(Vector::find_basis_with_one(&v).unwrap());
    assert_eq!(frame, (vec![1, 0, 0], vec![0, -1, 1], vec![0, 1, 1]));
    let w = Vector::new(vec![1, 2, 3]);
    let frame = parts(Vector::find_basis_with_one(&w).unwrap());
    // temp = (2, 3, 4), b = w x temp, c = b x w
    assert_eq!(frame, (vec![1, 2, 3], vec![-1, 2, -1], vec![8, 2, -4]));
}

#[test]
fn basis_with_one_of_a_short_vector() {
    let v = Vector::new(vec![1, 2]);
    let frame = parts(Vector::find_basis_with_one(&v).unwrap());
    // temp = (2, 3, 1), b = (1, 2, 0) x temp, c = b x (1, 2, 0)
    assert_eq!(frame, (vec![1, 2], vec![2, -1, -1], vec![2, -1, 5]));
}

#[test]
fn basis_with_one_is_orthogonal() {
    let v = Vector::new(vec![3, -5, 7]);
    let (e1, e2, e3) = Vector::find_basis_with_one(&v).unwrap();
    assert_eq!(e1.dot(&e2), Ok(0));
    assert_eq!(e1.dot(&e3), Ok(0));
    assert_eq!(e2.dot(&e3), Ok(0));
}

#[test]
fn basis_with_one_is_degenerate_for_the_zero_vector() {
    let zero = Vector::new(vec![0, 0, 0]);
    assert_eq!(Vector::find_basis_with_one(&zero), Err(VectorError::DegenerateVector));
    let empty = Vector::new(vec![]);
    assert_eq!(Vector::find_basis_with_one(&empty), Err(VectorError::DegenerateVector));
}

#[test]
fn basis_with_one_is_degenerate_along_the_diagonal() {
    let v = Vector::new(vec![2, 2, 2]);
    assert_eq!(Vector::find_basis_with_one(&v), Err(VectorError::DegenerateVector));
    let w = Vector::new(vec![-1, -1, -1]);
    assert_eq!(Vector::find_basis_with_one(&w), Err(VectorError::DegenerateVector));
}

#[test]
fn basis_with_one_overflows_for_huge_components() {
    let v = Vector::new(vec![i64::MAX, 0, 0]);
    assert_eq!(Vector::find_basis_with_one(&v), Err(VectorError::Overflow));
    let w = Vector::new(vec![1 << 40, 1, 0]);
    assert_eq!(Vector::find_basis_with_one(&w), Err(VectorError::Overflow));
}

#[test]
fn basis_with_two_gives_the_three_directions() {
    let v1 = Vector::new(vec![1, 0, 0]);
    let v2 = Vector::new(vec![0, 1, 0]);
    let frame = parts(Vector::find_basis_with_two(&v1, &v2).unwrap());
    // a = v1 x v2, b = v1 x a
    assert_eq!(frame, (vec![1, 0, 0], vec![0, 0, 1], vec![0, -1, 0]));
    let w1 = Vector::new(vec![1, 2, 3]);
    let w2 = Vector::new(vec![3, 2, 1]);
    let frame = parts(Vector::find_basis_with_two(&w1, &w2).unwrap());
    assert_eq!(frame, (vec![1, 2, 3], vec![-4, 8, -4], vec![-32, -8, 16]));
}

#[test]
fn basis_with_two_is_orthogonal() {
    let v1 = Vector::new(vec![2, -1, 4]);
    let v2 = Vector::new(vec![0, 3, 5]);
    let (e1, e2, e3) = Vector::find_basis_with_two(&v1, &v2).unwrap();
    assert_eq!(e1.dot(&e2), Ok(0));
    assert_eq!(e1.dot(&e3), Ok(0));
    assert_eq!(e2.dot(&e3), Ok(0));
}

#[test]
fn basis_with_two_takes_a_dot_product_of_one_for_parallel() {
    let v1 = Vector::new(vec![1, 0, 0]);
    let v2 = Vector::new(vec![1, 5, 7]);
    assert_eq!(v1.dot(&v2), Ok(1));
    let frame = Vector::find_basis_with_two(&v1, &v2);
    assert_eq!(frame, Vector::find_basis_with_one(&v1));
    assert_eq!(parts(frame.unwrap()), (vec![1, 0, 0], vec![0, -1, 1], vec![0, 1, 1]));
    // The second vector may then be of any dimension.
    let long = Vector::new(vec![1, 5, 7, 9, 11]);
    assert_eq!(Vector::find_basis_with_two(&v1, &long), Vector::find_basis_with_one(&v1));
}

#[test]
fn basis_with_two_is_degenerate_for_parallel_vectors() {
    let v1 = Vector::new(vec![1, 2, 3]);
    let v2 = Vector::new(vec![2, 4, 6]);
    assert_eq!(Vector::find_basis_with_two(&v1, &v2), Err(VectorError::DegenerateVector));
    let zero = Vector::new(vec![0, 0, 0]);
    assert_eq!(Vector::find_basis_with_two(&zero, &v1), Err(VectorError::DegenerateVector));
    assert_eq!(Vector::find_basis_with_two(&v1, &zero), Err(VectorError::DegenerateVector));
}

#[test]
fn basis_with_two_overflows_for_huge_components() {
    let v1 = Vector::new(vec![i64::MAX, 0, 0]);
    let v2 = Vector::new(vec![2, 0, 0]);
    assert_eq!(Vector::find_basis_with_two(&v1, &v2), Err(VectorError::Overflow));
    let w1 = Vector::new(vec![1 << 40, 0, 0]);
    let w2 = Vector::new(vec![0, 1 << 40, 0]);
    assert_eq!(Vector::find_basis_with_two(&w1, &w2), Err(VectorError::Overflow));
}

fn unit(v: &Vector) -> Vec<f64> {
    let length = (v.norm_squared().unwrap() as f64).sqrt();
    v.components().iter().map(|x| *x as f64 / length).collect()
}

fn length(v: &[f64]) -> f64 {
    v.iter().map(|x| x * x).sum::<f64>().sqrt()
}

#[test]
fn frames_can_be_scaled_to_unit_length() {
    let v = Vector::new(vec![1, 2, 3]);
    let (e1, e2, e3) = Vector::find_basis_with_one(&v).unwrap();
    for e in [&e1, &e2, &e3] {
        assert!((length(&unit(e)) - 1.0).abs() < 1e-5);
    }
    let w = Vector::new(vec![3, 2, 1]);
    let (f1, f2, f3) = Vector::find_basis_with_two(&v, &w).unwrap();
    for f in [&f1, &f2, &f3] {
        assert!((length(&unit(f)) - 1.0).abs() < 1e-5);
    }
}
