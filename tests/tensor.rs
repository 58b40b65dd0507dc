use mdarray::{numel_of, Dimension, Factory, Tensor};
use std::mem::size_of;

type FloatTensor = Tensor<f32>;
type DoubleTensor = Tensor<f64>;

#[test]
fn test_ones() {
    let t = FloatTensor::ones(&[4, 16]);
    assert!((t.data().iter().sum::<f32>() - 4f32 * 16f32).abs() < f32::EPSILON);

    let t = DoubleTensor::ones(&[4, 16]);
    assert!((t.data().iter().sum::<f64>() - 4f64 * 16f64).abs() < f64::EPSILON);
}

#[test]
fn test_zeros() {
    let t = FloatTensor::zeros(&[4, 16]);
    assert!(t.data().iter().sum::<f32>() < f32::EPSILON);

    let t = DoubleTensor::zeros(&[4, 16]);
    assert!(t.data().iter().sum::<f64>() < f64::EPSILON);
}

#[test]
fn test_fill() {
    let t = FloatTensor::fill(5f32, &[4, 16]);
    assert!((t.data().iter().sum::<f32>() - 5f32 * 4f32 * 16f32).abs() < f32::EPSILON);

    let t = DoubleTensor::fill(5f64, &[4, 16]);
    assert!((t.data().iter().sum::<f64>() - 5f64 * 4f64 * 16f64).abs() < f64::EPSILON);
}

#[test]
fn test_shape() {
    let t = FloatTensor::fill(5f32, &[4, 16]);
    assert_eq!(t.shape(), [4_usize, 16_usize]);

    let t = DoubleTensor::fill(5f64, &[4, 16]);
    assert_eq!(t.shape(), [4_usize, 16_usize]);
}

#[test]
fn test_size() {
    let t = FloatTensor::fill(5f32, &[4, 16]);
    assert_eq!(t.size(), (4 * 16) * size_of::<f32>());

    let t = DoubleTensor::fill(5f64, &[4, 16]);
    assert_eq!(t.size(), (4 * 16) * size_of::<f64>());
}

#[test]
fn test_numel() {
    let t = FloatTensor::fill(5f32, &[4, 16]);
    assert_eq!(t.numel(), (4 * 16));

    let t = DoubleTensor::fill(5f64, &[4, 16]);
    assert_eq!(t.numel(), (4 * 16));
}

#[test]
fn zeros_f32_scenario() {
    let t = FloatTensor::zeros(&[4, 16]);
    assert_eq!(t.numel(), 64);
    assert_eq!(t.size(), 256);
    assert_eq!(t.data().iter().sum::<f32>(), 0.0);
}

#[test]
fn fill_f64_scenario() {
    let t = DoubleTensor::fill(5.0, &[4, 16]);
    assert_eq!(t.numel(), 64);
    assert_eq!(t.size(), 512);
    assert_eq!(t.data().iter().sum::<f64>(), 320.0);
}

#[test]
fn empty_shape_holds_one_element() {
    let t = Tensor::<i32>::fill(9, &[]);
    assert_eq!(t.numel(), 1);
    assert_eq!(t.size(), 4);
    assert_eq!(t.data(), [9]);
    assert!(t.shape().is_empty());
}

#[test]
fn zero_extent_holds_no_element() {
    let t = Tensor::<f64>::fill(2.5, &[4, 0, 3]);
    assert_eq!(t.numel(), 0);
    assert_eq!(t.size(), 0);
    assert!(t.data().is_empty());
    assert_eq!(t.shape(), [4, 0, 3]);
}

#[test]
fn shape_order_is_kept() {
    let t = Tensor::<u32>::fill(1, &[3, 1, 2]);
    assert_eq!(t.shape(), [3, 1, 2]);
    assert_eq!(t.numel(), 6);
}

#[test]
fn many_axes_are_kept() {
    let dims = [2usize, 1, 3, 1, 2, 1, 2];
    let t = Tensor::<u64>::zeros(&dims);
    assert_eq!(t.shape(), dims);
    assert_eq!(t.numel(), 24);
    assert_eq!(t.size(), 24 * 8);
}

#[test]
fn integer_sums() {
    let t = Tensor::<i64>::zeros(&[5, 7]);
    assert_eq!(t.data().iter().sum::<i64>(), 0);
    let t = Tensor::<i64>::ones(&[5, 7]);
    assert_eq!(t.data().iter().sum::<i64>(), 35);
    let t = Tensor::<i32>::fill(-3, &[5, 7]);
    assert_eq!(t.data().iter().sum::<i32>(), -105);
    assert!(t.data().iter().all(|&x| x == -3));
}

#[test]
fn ones_and_zeros_values() {
    let t = Tensor::<u32>::ones(&[2, 2]);
    assert_eq!(t.data(), [1, 1, 1, 1]);
    let t = Tensor::<u32>::zeros(&[3]);
    assert_eq!(t.data(), [0, 0, 0]);
}

#[test]
fn clone_keeps_shape_and_elements() {
    let t = Tensor::<i32>::fill(4, &[2, 3]);
    let c = t.clone();
    assert_eq!(c.shape(), [2, 3]);
    assert_eq!(c.data(), t.data());
}

#[test]
fn cell_count_of_shapes() {
    assert_eq!(numel_of(&[]), 1);
    assert_eq!(numel_of(&[7]), 7);
    assert_eq!(numel_of(&[2, 3, 4]), 24);
    assert_eq!(numel_of(&[4, 0, 3]), 0);
    assert_eq!(numel_of(&[usize::MAX, usize::MAX, 0]), 0);
}
