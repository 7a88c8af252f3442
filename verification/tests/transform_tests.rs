use tensor::Tensor;

#[test]
fn transform_test_tensor_reshape() {
    let mut tensor = Tensor::from_slice(vec![2, 3], &[1, 2, 3, 4, 5, 6]);

    tensor.reshape(&[3, 2]);

    assert_eq!(tensor.shape(), &[3, 2]);

    assert_eq!(tensor.get(&[0, 0]), &1);
    assert_eq!(tensor.get(&[0, 1]), &2);
    assert_eq!(tensor.get(&[1, 0]), &3);
    assert_eq!(tensor.get(&[1, 1]), &4);
    assert_eq!(tensor.get(&[2, 0]), &5);
    assert_eq!(tensor.get(&[2, 1]), &6);
}

#[test]
fn tests_test_tensor_reshape() {
    let mut tensor = Tensor::new_set(vec![2, 3], 0);
    tensor.set(&[0, 0], 1);
    tensor.set(&[0, 1], 2);
    tensor.set(&[0, 2], 3);
    tensor.set(&[1, 0], 4);
    tensor.set(&[1, 1], 5);
    tensor.set(&[1, 2], 6);

    tensor.reshape(&[3, 2]);
    assert_eq!(tensor.shape(), &[3, 2]);

    assert_eq!(tensor.get(&[0, 0]), &1);
    assert_eq!(tensor.get(&[0, 1]), &2);
    assert_eq!(tensor.get(&[1, 0]), &3);
    assert_eq!(tensor.get(&[1, 1]), &4);
    assert_eq!(tensor.get(&[2, 0]), &5);
    assert_eq!(tensor.get(&[2, 1]), &6);
}

#[test]
fn test_change_rank_upgrade() {
    let tensor = Tensor::from_slice(vec![2, 3], &[1, 2, 3, 4, 5, 6]);
    let altered_tensor = tensor.change_rank(&[2, 3, 1]);

    assert_eq!(altered_tensor.shape(), &[2, 3, 1]);
    assert_eq!(altered_tensor.size(), 6);
    assert_eq!(altered_tensor.get(&[0, 0, 0]), &1);
    assert_eq!(altered_tensor.get(&[1, 2, 0]), &6);
}

#[test]
fn test_change_rank_downgrade() {
    let tensor = Tensor::from_slice(vec![2, 3, 1], &[1, 2, 3, 4, 5, 6]);
    let altered_tensor = tensor.change_rank(&[2, 3]);

    assert_eq!(altered_tensor.shape(), &[2, 3]);
    assert_eq!(altered_tensor.size(), 6);
    assert_eq!(altered_tensor.get(&[0, 0]), &1);
    assert_eq!(altered_tensor.get(&[1, 2]), &6);
}

#[test]
fn test_change_rank_zero_rank() {
    let tensor = Tensor::from_slice(vec![], &[1]);
    assert_eq!(tensor.shape(), &[]);
    let altered_tensor = tensor.change_rank(&[1]);
    assert_eq!(altered_tensor.shape(), &[1]);
}

#[test]
fn reshape_keeps_size_and_flat_order() {
    // The shape invariant holds after a reshape, and the flat sequence
    // of values is untouched, in the same linear order.
    let mut tensor = Tensor::from_vec(vec![2, 2, 3], vec![1, 2, 3, 4, 5, 6, 7, 8, 9, 10, 11, 12]);
    tensor.reshape(&[4, 3]);
    assert_eq!(tensor.size(), 12);
    assert_eq!(tensor.shape(), &[4, 3]);
    assert_eq!(tensor.as_slice(), &[1, 2, 3, 4, 5, 6, 7, 8, 9, 10, 11, 12]);
    let mut seen = Vec::new();
    for r in 0..4 {
        for c in 0..3 {
            seen.push(*tensor.get(&[r, c]));
        }
    }
    assert_eq!(seen.as_slice(), tensor.as_slice());
}
