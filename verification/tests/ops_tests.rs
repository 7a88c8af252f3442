use tensor::Tensor;

#[test]
fn test_add() {
    let tensor1 = Tensor::new_set(vec![2, 2], 1);
    let tensor2 = Tensor::new_set(vec![2, 2], 2);
    let result = tensor1.add(&tensor2);

    assert_eq!(result.get(&[0, 0]), &3);
    assert_eq!(result.get(&[0, 1]), &3);
    assert_eq!(result.get(&[1, 0]), &3);
    assert_eq!(result.get(&[1, 1]), &3);
}

#[test]
fn test_sub() {
    let tensor1 = Tensor::new_set(vec![2, 2], 5);
    let tensor2 = Tensor::new_set(vec![2, 2], 3);
    let result = tensor1.sub(&tensor2);

    assert_eq!(result.get(&[0, 0]), &2);
    assert_eq!(result.get(&[0, 1]), &2);
    assert_eq!(result.get(&[1, 0]), &2);
    assert_eq!(result.get(&[1, 1]), &2);
}

#[test]
fn test_mul() {
    let tensor1 = Tensor::new_set(vec![2, 2], 2);
    let tensor2 = Tensor::new_set(vec![2, 2], 3);
    let result = tensor1.mul(&tensor2);

    assert_eq!(result.get(&[0, 0]), &6);
    assert_eq!(result.get(&[0, 1]), &6);
    assert_eq!(result.get(&[1, 0]), &6);
    assert_eq!(result.get(&[1, 1]), &6);
}

#[test]
fn test_div() {
    let tensor1 = Tensor::new_set(vec![2, 2], 6);
    let tensor2 = Tensor::new_set(vec![2, 2], 3);
    let result = tensor1.div(&tensor2);

    assert_eq!(result.get(&[0, 0]), &2);
    assert_eq!(result.get(&[0, 1]), &2);
    assert_eq!(result.get(&[1, 0]), &2);
    assert_eq!(result.get(&[1, 1]), &2);
}

#[test]
fn test_neg() {
    let tensor = Tensor::new_set(vec![2, 2], 5);
    let result = tensor.neg();
    assert_eq!(result.as_slice(), &[-5, -5, -5, -5]);
}

#[test]
fn core_test_add_mutate() {
    let mut tensor1 = Tensor::new_set(vec![2, 2], 1);
    let tensor2 = Tensor::new_set(vec![2, 2], 2);
    tensor1.add_mutate(&tensor2);
    assert_eq!(tensor1.as_slice(), &[3, 3, 3, 3]);
}

#[test]
fn core_test_sub_mutate() {
    let mut tensor1 = Tensor::new_set(vec![2, 2], 5);
    let tensor2 = Tensor::new_set(vec![2, 2], 3);
    tensor1.sub_mutate(&tensor2);
    assert_eq!(tensor1.as_slice(), &[2, 2, 2, 2]);
}

#[test]
fn core_test_mul_mutate() {
    let mut tensor1 = Tensor::new_set(vec![2, 2], 3);
    let tensor2 = Tensor::new_set(vec![2, 2], 4);
    tensor1.mul_mutate(&tensor2);
    assert_eq!(tensor1.as_slice(), &[12, 12, 12, 12]);
}

#[test]
fn core_test_div_mutate() {
    let mut tensor1 = Tensor::new_set(vec![2, 2], 8);
    let tensor2 = Tensor::new_set(vec![2, 2], 4);
    tensor1.div_mutate(&tensor2);
    assert_eq!(tensor1.as_slice(), &[2, 2, 2, 2]);
}

#[test]
fn core_test_neg_mutate() {
    let mut tensor = Tensor::new_set(vec![2, 2], 5);
    tensor.neg_mutate();
    assert_eq!(tensor.as_slice(), &[-5, -5, -5, -5]);
}

#[test]
fn test_add_new() {
    let tensor1 = Tensor::new_set(vec![2, 2], 1);
    let tensor2 = Tensor::new_set(vec![2, 2], 2);

    let result = tensor1.add(&tensor2);

    assert_eq!(result.get(&[0, 0]), &3);
    assert_eq!(result.get(&[0, 1]), &3);
    assert_eq!(result.get(&[1, 0]), &3);
    assert_eq!(result.get(&[1, 1]), &3);
}

#[test]
fn add_test_add_mutate() {
    let mut tensor1 = Tensor::new_set(vec![2, 2], 1);
    let tensor2 = Tensor::new_set(vec![2, 2], 2);

    tensor1.add_mutate(&tensor2);

    assert_eq!(tensor1.get(&[0, 0]), &3);
    assert_eq!(tensor1.get(&[0, 1]), &3);
    assert_eq!(tensor1.get(&[1, 0]), &3);
    assert_eq!(tensor1.get(&[1, 1]), &3);
}

#[test]
fn test_add_value() {
    let tensor = Tensor::new_set(vec![2, 2], 1);

    let result = tensor.add_value(2);

    assert_eq!(result.get(&[0, 0]), &3);
    assert_eq!(result.get(&[0, 1]), &3);
    assert_eq!(result.get(&[1, 0]), &3);
    assert_eq!(result.get(&[1, 1]), &3);
}

#[test]
fn test_add_value_mut() {
    let mut tensor = Tensor::new_set(vec![2, 2], 1);

    tensor.add_value_mutate(2);

    assert_eq!(tensor.get(&[0, 0]), &3);
    assert_eq!(tensor.get(&[0, 1]), &3);
    assert_eq!(tensor.get(&[1, 0]), &3);
    assert_eq!(tensor.get(&[1, 1]), &3);
}

#[test]
fn test_sub_new() {
    let tensor1 = Tensor::new_set(vec![2, 2], 5);
    let tensor2 = Tensor::new_set(vec![2, 2], 3);

    let result = tensor1.sub(&tensor2);

    assert_eq!(result.get(&[0, 0]), &2);
    assert_eq!(result.get(&[0, 1]), &2);
    assert_eq!(result.get(&[1, 0]), &2);
    assert_eq!(result.get(&[1, 1]), &2);
}

#[test]
fn sub_test_sub_mutate() {
    let mut tensor1 = Tensor::new_set(vec![2, 2], 5);
    let tensor2 = Tensor::new_set(vec![2, 2], 3);

    tensor1.sub_mutate(&tensor2);

    assert_eq!(tensor1.as_slice(), &[2, 2, 2, 2]);
}

#[test]
fn test_sub_value() {
    let tensor = Tensor::new_set(vec![2, 2], 5);

    let result = tensor.sub_value(3);

    assert_eq!(result.get(&[0, 0]), &2);
    assert_eq!(result.get(&[0, 1]), &2);
    assert_eq!(result.get(&[1, 0]), &2);
    assert_eq!(result.get(&[1, 1]), &2);
}

#[test]
fn test_sub_value_mut() {
    let mut tensor = Tensor::new_set(vec![2, 2], 5);

    tensor.sub_value_mutate(3);

    assert_eq!(tensor.get(&[0, 0]), &2);
    assert_eq!(tensor.get(&[0, 1]), &2);
    assert_eq!(tensor.get(&[1, 0]), &2);
    assert_eq!(tensor.get(&[1, 1]), &2);
}

#[test]
fn test_mul_new() {
    let tensor1 = Tensor::new_set(vec![2, 2], 2);
    let tensor2 = Tensor::new_set(vec![2, 2], 3);

    let result = tensor1.mul(&tensor2);

    assert_eq!(result.get(&[0, 0]), &6);
    assert_eq!(result.get(&[0, 1]), &6);
    assert_eq!(result.get(&[1, 0]), &6);
    assert_eq!(result.get(&[1, 1]), &6);
}

#[test]
fn mul_test_mul_mutate() {
    let mut tensor1 = Tensor::new_set(vec![2, 2], 2);
    let tensor2 = Tensor::new_set(vec![2, 2], 3);

    tensor1.mul_mutate(&tensor2);

    assert_eq!(tensor1.get(&[0, 0]), &6);
    assert_eq!(tensor1.get(&[0, 1]), &6);
    assert_eq!(tensor1.get(&[1, 0]), &6);
    assert_eq!(tensor1.get(&[1, 1]), &6);
}

#[test]
fn test_mul_value() {
    let tensor = Tensor::new_set(vec![2, 2], 2);

    let result = tensor.mul_value(3);

    assert_eq!(result.get(&[0, 0]), &6);
    assert_eq!(result.get(&[0, 1]), &6);
    assert_eq!(result.get(&[1, 0]), &6);
    assert_eq!(result.get(&[1, 1]), &6);
}

#[test]
fn test_mul_value_mut() {
    let mut tensor = Tensor::new_set(vec![2, 2], 2);

    tensor.mul_value_mutate(3);

    assert_eq!(tensor.get(&[0, 0]), &6);
    assert_eq!(tensor.get(&[0, 1]), &6);
    assert_eq!(tensor.get(&[1, 0]), &6);
    assert_eq!(tensor.get(&[1, 1]), &6);
}

#[test]
fn test_div_new() {
    let tensor1 = Tensor::new_set(vec![2, 2], 6);
    let tensor2 = Tensor::new_set(vec![2, 2], 3);

    let result = tensor1.div(&tensor2);

    assert_eq!(result.get(&[0, 0]), &2);
    assert_eq!(result.get(&[0, 1]), &2);
    assert_eq!(result.get(&[1, 0]), &2);
    assert_eq!(result.get(&[1, 1]), &2);
}

#[test]
fn div_test_div_mutate() {
    let mut tensor1 = Tensor::new_set(vec![2, 2], 6);
    let tensor2 = Tensor::new_set(vec![2, 2], 3);

    tensor1.div_mutate(&tensor2);

    assert_eq!(tensor1.as_slice(), &[2, 2, 2, 2]);
}

#[test]
fn test_div_value() {
    let tensor = Tensor::new_set(vec![2, 2], 6);

    let result = tensor.div_value(3);

    assert_eq!(result.get(&[0, 0]), &2);
    assert_eq!(result.get(&[0, 1]), &2);
    assert_eq!(result.get(&[1, 0]), &2);
    assert_eq!(result.get(&[1, 1]), &2);
}

#[test]
fn test_div_value_mut() {
    let mut tensor = Tensor::new_set(vec![2, 2], 6);

    tensor.div_value_mutate(3);

    assert_eq!(tensor.get(&[0, 0]), &2);
    assert_eq!(tensor.get(&[0, 1]), &2);
    assert_eq!(tensor.get(&[1, 0]), &2);
    assert_eq!(tensor.get(&[1, 1]), &2);
}

#[test]
fn test_neg_new() {
    let tensor = Tensor::new_set(vec![2, 2], 5);

    let result = tensor.neg();

    assert_eq!(result.as_slice(), &[-5, -5, -5, -5]);
}

#[test]
fn neg_test_neg_mutate() {
    let mut tensor = Tensor::new_set(vec![2, 2], 5);

    tensor.neg_mutate();

    assert_eq!(tensor.as_slice(), &[-5, -5, -5, -5]);
}

#[test]
fn division_truncates_toward_zero() {
    let tensor = Tensor::from_vec(vec![4], vec![-7, 7, -8, 9]);
    let result = tensor.div_value(2);
    assert_eq!(result.as_slice(), &[-3, 3, -4, 4]);
}

#[test]
fn addition_wraps_like_the_machine() {
    let tensor1 = Tensor::new_set(vec![2], 200u8);
    let tensor2 = Tensor::new_set(vec![2], 100u8);
    let result = tensor1.add(&tensor2);
    assert_eq!(result.as_slice(), &[44u8, 44u8]);
}
