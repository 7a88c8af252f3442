use tensor::Tensor;

#[test]
fn test_new_set() {
    let tensor = Tensor::new_set(vec![2, 3], 0);
    assert_eq!(tensor.shape(), &[2, 3]);
    assert_eq!(tensor.get(&[0, 0]), &0);
    assert_eq!(tensor.get(&[1, 2]), &0);
}

#[test]
fn test_new_set_zero_rank() {
    let tensor = Tensor::new_set(vec![], 3);
    assert_eq!(tensor.shape(), &[]);
    assert_eq!(tensor.get(&[]), &3);
}

#[test]
fn test_new_default() {
    let tensor: Tensor<u8> = Tensor::new_default(vec![2, 3]);
    assert_eq!(tensor.shape(), &[2, 3]);
    assert_eq!(tensor.get(&[0, 0]), &0);
    assert_eq!(tensor.get(&[1, 2]), &0);
}

#[test]
fn test_new_default_zero_rank() {
    let tensor: Tensor<u8> = Tensor::new_default(vec![]);
    assert_eq!(tensor.shape(), &[]);
    assert_eq!(tensor.get(&[]), &0);
}

#[test]
fn instance_test_from_slice() {
    let tensor = Tensor::from_slice(vec![2, 3], &[1, 2, 3, 4, 5, 6]);
    assert_eq!(tensor.shape(), &[2, 3]);
    assert_eq!(tensor.get(&[0, 0]), &1);
    assert_eq!(tensor.get(&[1, 2]), &6);
}

#[test]
fn test_from_slice_zero_rank() {
    let tensor = Tensor::from_slice(vec![], &[1]);
    assert_eq!(tensor.shape(), &[]);
    assert_eq!(tensor.get(&[]), &1);
}

#[test]
fn instance_test_from_vec() {
    let tensor = Tensor::from_vec(vec![2, 3], vec![1, 2, 3, 4, 5, 6]);
    assert_eq!(tensor.shape(), &[2, 3]);
    assert_eq!(tensor.get(&[0, 0]), &1);
    assert_eq!(tensor.get(&[1, 2]), &6);
}

#[test]
fn test_from_vec_zero_rank() {
    let tensor = Tensor::from_vec(vec![], vec![1]);
    assert_eq!(tensor.shape(), &[]);
    assert_eq!(tensor.get(&[]), &1);
}

#[test]
fn test_tensor_new_with_values() {
    let tensor = Tensor::from_vec(vec![2, 4], vec![1, 2, 3, 4, 5, 6, 7, 8]);
    assert_eq!(tensor.shape(), &[2, 4]);
    assert_eq!(tensor.get(&[1, 2]), &7);
}
