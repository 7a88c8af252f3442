use tensor::CastError;
use tensor::Tensor;
use tensor::TryCast;

#[test]
fn impls_test_tensor_cast_overflow() {
    let tensor = Tensor::<u16>::new_set(vec![2, 2], 256);
    let result: Result<Tensor<u8>, CastError> = tensor.try_cast();
    assert_eq!(result.unwrap_err(), CastError::Overflow);
}

#[test]
fn tests_test_tensor_cast_overflow() {
    let tensor = Tensor::<u16>::new_set(vec![2, 2], 256);
    let result: Result<Tensor<u8>, CastError> = tensor.try_cast();
    assert_eq!(result.unwrap_err(), CastError::Overflow);
}

#[test]
fn cast_widening_preserves_values() {
    let tensor = Tensor::from_vec(vec![2, 2], vec![1i16, 2, 3, 4]);
    let widened: Tensor<i64> = tensor.try_cast().unwrap();
    assert_eq!(widened.shape(), tensor.shape());
    assert_eq!(widened.as_slice(), &[1i64, 2, 3, 4]);
}

#[test]
fn cast_sign_change_rejects_negatives() {
    let tensor = Tensor::from_vec(vec![3], vec![-1i8, 0, 1]);
    let result: Result<Tensor<u8>, CastError> = tensor.try_cast();
    assert_eq!(result.unwrap_err(), CastError::Overflow);
}

#[test]
fn cast_narrowing_succeeds_in_range() {
    let tensor = Tensor::from_vec(vec![3], vec![255u64, 0, 17]);
    let narrowed: Tensor<u8> = tensor.try_cast().unwrap();
    assert_eq!(narrowed.as_slice(), &[255u8, 0, 17]);
}

#[test]
fn cast_failure_on_last_element_leaves_no_trace() {
    // Only the last element overflows the target: the whole result is
    // abandoned, the error comes back, and the source is unchanged.
    let tensor = Tensor::from_vec(vec![2, 2], vec![1u16, 2, 3, 256]);
    let result: Result<Tensor<u8>, CastError> = tensor.try_cast();
    assert_eq!(result.unwrap_err(), CastError::Overflow);
    assert_eq!(tensor.as_slice(), &[1u16, 2, 3, 256]);
    assert_eq!(tensor.shape(), &[2, 2]);
}

#[test]
fn single_value_cast_reports_overflow() {
    let value: i64 = 300;
    let result: Result<u8, CastError> = value.try_cast();
    assert_eq!(result.unwrap_err(), CastError::Overflow);
    let ok: Result<u16, CastError> = value.try_cast();
    assert_eq!(ok.unwrap(), 300u16);
}
