use tensor::Tensor;

#[test]
fn similarity_test_dot_product() {
    let tensor1 = Tensor::new_set(vec![1, 3], 1);
    let tensor2 = Tensor::new_set(vec![1, 3], 2);
    let result = tensor1.dot_product(&tensor2);
    assert_eq!(result, 6);
}

#[test]
fn test_dot_product_4d() {
    let tensor1 = Tensor::new_set(vec![2, 2, 2, 2], 1);
    let tensor2 = Tensor::new_set(vec![2, 2, 2, 2], 2);
    let result = tensor1.dot_product(&tensor2);
    assert_eq!(result, 32);
}

#[test]
fn dot_product_of_threes_and_twos() {
    let tensor1 = Tensor::new_set(vec![1, 3], 3);
    let tensor2 = Tensor::new_set(vec![1, 3], 2);
    let result = tensor1.dot_product(&tensor2);
    assert_eq!(result, 18);
}

#[test]
fn sum_of_squares_is_dot_with_self() {
    let tensor = Tensor::from_vec(vec![4], vec![1, 2, 3, 4]);
    assert_eq!(tensor.sum_of_squares(), 30);
    assert_eq!(tensor.dot_product(&tensor), 30);
}

#[test]
fn distance_squared_of_threes_and_twos() {
    // The Euclidean distance between [3, 3, 3] and [2, 2, 2] is the
    // square root of 3: its square accumulates to exactly 3.
    let tensor1 = Tensor::new_set(vec![1, 3], 3);
    let tensor2 = Tensor::new_set(vec![1, 3], 2);
    assert_eq!(tensor1.distance_squared(&tensor2), 3);
}

#[test]
fn distance_squared_to_itself_is_zero() {
    let tensor = Tensor::from_vec(vec![3], vec![4, 5, 6]);
    assert_eq!(tensor.distance_squared(&tensor), 0);
}

#[test]
fn dot_product_with_zero_vector_is_zero() {
    // The integer core of the cosine degenerate case: against a zero
    // vector both the dot product and the zero vector's sum of squares
    // vanish.
    let zero = Tensor::new_set(vec![1, 3], 0);
    let other = Tensor::from_vec(vec![1, 3], vec![7, -2, 9]);
    assert_eq!(zero.dot_product(&other), 0);
    assert_eq!(zero.sum_of_squares(), 0);
}
