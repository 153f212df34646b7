use ocl::{MemLen, SpatialDims, WorkDims};

#[test]
fn to_len_of_one_dimension() {
    assert_eq!((3usize,).to_len(), 3);
}

#[test]
fn to_len_of_two_dimensions() {
    assert_eq!((3usize, 4usize).to_len(), 12);
}

#[test]
fn to_len_of_three_dimensions() {
    assert_eq!((3usize, 4usize, 5usize).to_len(), 60);
}

#[test]
fn to_len_of_array_forms() {
    assert_eq!([3usize].to_len(), 3);
    assert_eq!([3usize, 4].to_len(), 12);
    assert_eq!([3usize, 4, 5].to_len(), 60);
}

#[test]
fn to_len_through_reference() {
    assert_eq!((&(3usize, 4usize)).to_len(), 12);
}

#[test]
fn to_len_padded_rounds_up_to_next_multiple() {
    assert_eq!((3usize, 4usize, 5usize).to_len_padded(64), 64);
}

#[test]
fn to_len_padded_keeps_exact_multiples() {
    assert_eq!((4usize, 4usize).to_len_padded(8), 16);
}

#[test]
fn to_len_padded_increment_zero_and_one_are_no_ops() {
    assert_eq!((3usize, 4usize, 5usize).to_len_padded(0), 60);
    assert_eq!((3usize, 4usize, 5usize).to_len_padded(1), 60);
}

#[test]
fn to_len_padded_is_idempotent() {
    let once = (7usize, 3usize).to_len_padded(5);
    assert_eq!(once, 25);
    assert_eq!((once,).to_len_padded(5), once);
}

#[test]
fn shapes_accept_other_integer_widths() {
    assert_eq!((3u32, 4u32).to_len(), 12);
    assert_eq!([3u64, 4u64, 5u64].to_len(), 60);
    assert_eq!((7i32,).to_lens(), [7, 1, 1]);
    assert_eq!([2i64, 3i64].to_work_offset(), Some([2, 3, 0]));
    assert_eq!((5u8, 6u8).to_work_size(), Some([5, 6, 1]));
    assert_eq!((9i16,).dim_count(), 1);
}

#[test]
fn to_len_at_maximum_size() {
    assert_eq!((usize::MAX, 1usize, 1usize).to_len(), usize::MAX);
    assert_eq!((usize::MAX, 1usize).to_len_padded(1), usize::MAX);
}

#[test]
fn to_lens_fills_unused_axes_with_one() {
    assert_eq!([7usize].to_lens(), [7, 1, 1]);
    assert_eq!([7usize, 2].to_lens(), [7, 2, 1]);
    assert_eq!((7usize, 2usize, 9usize).to_lens(), [7, 2, 9]);
}

#[test]
fn work_size_fills_unused_axes_with_one() {
    assert_eq!([7usize, 2].to_work_size(), Some([7, 2, 1]));
    assert_eq!((5usize,).to_work_size(), Some([5, 1, 1]));
}

#[test]
fn work_offset_fills_unused_axes_with_zero() {
    assert_eq!([7usize, 2].to_work_offset(), Some([7, 2, 0]));
    assert_eq!((5usize,).to_work_offset(), Some([5, 0, 0]));
}

#[test]
fn dim_count_reports_used_axes() {
    assert_eq!((5usize,).dim_count(), 1);
    assert_eq!([7usize, 2].dim_count(), 2);
    assert_eq!((1usize, 2usize, 3usize).dim_count(), 3);
}

#[test]
fn spatial_dims_queries() {
    assert_eq!(SpatialDims::Three(2, 3, 4).to_len(), 24);
    assert_eq!(SpatialDims::Two(7, 2).to_lens(), [7, 2, 1]);
    assert_eq!(SpatialDims::Two(7, 2).to_work_offset(), Some([7, 2, 0]));
    assert_eq!(SpatialDims::One(6).to_len_padded(4), 8);
    assert_eq!(SpatialDims::One(6).dim_count(), 1);
}

#[test]
fn unspecified_shape_has_no_work_dims() {
    assert_eq!(SpatialDims::Unspecified.to_work_size(), None);
    assert_eq!(SpatialDims::Unspecified.to_work_offset(), None);
    assert_eq!(SpatialDims::Unspecified.dim_count(), 0);
}
