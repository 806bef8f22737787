use voronoi_render::naming::{decimal_digits_of, frame_file_name};

#[test]
fn names_are_nine_digit_zero_padded() {
    assert_eq!(frame_file_name(0), "output/000000000.png");
    assert_eq!(frame_file_name(7), "output/000000007.png");
    assert_eq!(frame_file_name(42), "output/000000042.png");
    assert_eq!(frame_file_name(599), "output/000000599.png");
    assert_eq!(frame_file_name(999_999_999), "output/999999999.png");
}

#[test]
fn names_beyond_nine_digits_keep_every_digit() {
    assert_eq!(frame_file_name(1_000_000_000), "output/1000000000.png");
    assert_eq!(frame_file_name(u32::MAX), "output/4294967295.png");
}

#[test]
fn names_match_standard_formatting() {
    for n in [0u32, 1, 9, 10, 11, 99, 100, 12345, 123456789, 2147483648] {
        assert_eq!(frame_file_name(n), format!("output/{:09}.png", n));
    }
}

#[test]
fn names_of_a_run_are_distinct_and_contiguous() {
    let names: Vec<String> = (0..600u32).map(frame_file_name).collect();
    for (i, name) in names.iter().enumerate() {
        assert_eq!(*name, format!("output/{:09}.png", i));
    }
    let mut sorted = names.clone();
    sorted.sort();
    sorted.dedup();
    assert_eq!(sorted.len(), 600);
    assert_eq!(sorted, names);
}

#[test]
fn decimal_digits_most_significant_first() {
    assert_eq!(decimal_digits_of(0), vec!['0']);
    assert_eq!(decimal_digits_of(305), vec!['3', '0', '5']);
    assert_eq!(decimal_digits_of(4294967295).len(), 10);
}
