use batch_fft::signal::{generate_input_data, total_size, SamplePoint};

#[test]
fn total_size_is_the_product_where_it_fits() {
    assert_eq!(total_size(10, 64), Some(640));
    assert_eq!(total_size(0, 64), Some(0));
    assert_eq!(total_size(64, 0), Some(0));
    assert_eq!(total_size(usize::MAX, 1), Some(usize::MAX));
    assert_eq!(total_size(usize::MAX, 2), None);
    assert_eq!(total_size(1 << (usize::BITS / 2), 1 << (usize::BITS / 2)), None);
}

#[test]
fn input_layout_has_one_point_per_sample() {
    assert_eq!(generate_input_data(10, 64).len(), 640);
    assert_eq!(generate_input_data(1, 1).len(), 1);
    assert!(generate_input_data(0, 64).is_empty());
    assert!(generate_input_data(10, 0).is_empty());
}

#[test]
fn input_layout_exact_values() {
    let data = generate_input_data(2, 3);
    assert_eq!(
        data,
        vec![
            SamplePoint { batch_idx: 0, sample_idx: 0, freq: 1 },
            SamplePoint { batch_idx: 0, sample_idx: 1, freq: 1 },
            SamplePoint { batch_idx: 0, sample_idx: 2, freq: 1 },
            SamplePoint { batch_idx: 1, sample_idx: 0, freq: 2 },
            SamplePoint { batch_idx: 1, sample_idx: 1, freq: 2 },
            SamplePoint { batch_idx: 1, sample_idx: 2, freq: 2 },
        ]
    );
}

#[test]
fn signals_are_contiguous_with_distinct_frequencies() {
    let batch = 10;
    let length = 64;
    let data = generate_input_data(batch, length);
    for slot in 0..batch {
        for n in 0..length {
            let point = data[slot * length + n];
            assert_eq!(point.batch_idx, slot);
            assert_eq!(point.sample_idx, n);
            assert_eq!(point.freq, slot + 1);
        }
    }
    for (i, point) in data.iter().enumerate() {
        assert_eq!(point.batch_idx, i / length);
        assert_eq!(point.sample_idx, i % length);
        assert_eq!(point.freq, 1 + i / length);
    }
}
