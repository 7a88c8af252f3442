use tensor::Tensor;

#[test]
fn add_then_sub_restores_the_tensor() {
    let a = Tensor::from_vec(vec![2, 3], vec![1, -2, 3, -4, 5, -6]);
    let b = Tensor::from_vec(vec![2, 3], vec![10, 20, 30, 40, 50, 60]);
    let restored = a.add(&b).sub(&b);
    assert_eq!(restored, a);
}

#[test]
fn neg_twice_restores_the_tensor() {
    let a = Tensor::from_vec(vec![2, 2], vec![1, -2, 3, -4]);
    let restored = a.neg().neg();
    assert_eq!(restored, a);
}

#[test]
fn mutating_add_matches_allocating_add() {
    let a = Tensor::from_vec(vec![2, 2], vec![1, 2, 3, 4]);
    let b = Tensor::from_vec(vec![2, 2], vec![5, 6, 7, 8]);
    let allocated = a.add(&b);
    let mut mutated = a.copy();
    mutated.add_mutate(&b);
    assert_eq!(allocated, mutated);
}

#[test]
fn mutating_sub_matches_allocating_sub() {
    let a = Tensor::from_vec(vec![2, 2], vec![9, 8, 7, 6]);
    let b = Tensor::from_vec(vec![2, 2], vec![1, 2, 3, 4]);
    let allocated = a.sub(&b);
    let mut mutated = a.copy();
    mutated.sub_mutate(&b);
    assert_eq!(allocated, mutated);
}

#[test]
fn mutating_mul_matches_allocating_mul() {
    let a = Tensor::from_vec(vec![2, 2], vec![1, 2, 3, 4]);
    let b = Tensor::from_vec(vec![2, 2], vec![5, 6, 7, 8]);
    let allocated = a.mul(&b);
    let mut mutated = a.copy();
    mutated.mul_mutate(&b);
    assert_eq!(allocated, mutated);
}

#[test]
fn mutating_div_matches_allocating_div() {
    let a = Tensor::from_vec(vec![2, 2], vec![10, 21, 33, 48]);
    let b = Tensor::from_vec(vec![2, 2], vec![2, 3, 4, 6]);
    let allocated = a.div(&b);
    let mut mutated = a.copy();
    mutated.div_mutate(&b);
    assert_eq!(allocated, mutated);
}

#[test]
fn mutating_neg_matches_allocating_neg() {
    let a = Tensor::from_vec(vec![2, 2], vec![1, -2, 3, -4]);
    let allocated = a.neg();
    let mut mutated = a.copy();
    mutated.neg_mutate();
    assert_eq!(allocated, mutated);
}

#[test]
fn size_stays_the_product_of_the_shape() {
    // The shape invariant after construction, mutation, reshape and
    // rank change.
    let mut t = Tensor::new_set(vec![2, 3], 1);
    assert_eq!(t.size(), t.shape().iter().product());
    t.add_mutate(&Tensor::new_set(vec![2, 3], 2));
    assert_eq!(t.size(), t.shape().iter().product());
    t.set(&[1, 1], 9);
    assert_eq!(t.size(), t.shape().iter().product());
    t.reshape(&[6]);
    assert_eq!(t.size(), t.shape().iter().product());
    let t = t.change_rank(&[3, 2, 1]);
    assert_eq!(t.size(), t.shape().iter().product());
}

#[test]
fn elementwise_add_scenario() {
    // Shape [2, 3] filled with 1 plus shape [2, 3] filled with 2 gives
    // all elements 3.
    let tensor1 = Tensor::new_set(vec![2, 3], 1);
    let tensor2 = Tensor::new_set(vec![2, 3], 2);
    let result = tensor1.add(&tensor2);
    assert_eq!(result.as_slice(), &[3, 3, 3, 3, 3, 3]);
}
