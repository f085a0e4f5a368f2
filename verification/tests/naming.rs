use tpcconv::numeral::u64_to_dec;
use tpcconv::paths::{
    file_stub, input_dir_path, join_path, output_dir_path, part_file_path, temp_dir_path,
};

#[test]
fn decimal_rendering_zero() {
    assert_eq!(u64_to_dec(0).as_str(), "0");
}

#[test]
fn decimal_rendering_single_digit() {
    assert_eq!(u64_to_dec(7).as_str(), "7");
}

#[test]
fn decimal_rendering_two_digits() {
    assert_eq!(u64_to_dec(25).as_str(), "25");
}

#[test]
fn decimal_rendering_round_number() {
    assert_eq!(u64_to_dec(100).as_str(), "100");
}

#[test]
fn decimal_rendering_large() {
    assert_eq!(u64_to_dec(1234567890).as_str(), "1234567890");
}

#[test]
fn decimal_rendering_max() {
    assert_eq!(u64_to_dec(u64::MAX).as_str(), "18446744073709551615");
}

#[test]
fn input_dir_layout() {
    assert_eq!(input_dir_path("data", "nation", "tbl").as_str(), "data/nation.tbl");
}

#[test]
fn output_dir_layout() {
    assert_eq!(output_dir_path("out", "nation").as_str(), "out/nation.parquet");
}

#[test]
fn temp_dir_layout() {
    assert_eq!(
        temp_dir_path("out/nation.parquet", "nation").as_str(),
        "out/nation.parquet/nation-temp.parquet"
    );
}

#[test]
fn part_file_layout() {
    assert_eq!(
        part_file_path("out/nation.parquet", 0).as_str(),
        "out/nation.parquet/part-0.parquet"
    );
    assert_eq!(
        part_file_path("out/nation.parquet", 12).as_str(),
        "out/nation.parquet/part-12.parquet"
    );
}

#[test]
fn join_layout() {
    assert_eq!(join_path("in/nation.tbl", "nation.tbl").as_str(), "in/nation.tbl/nation.tbl");
}

#[test]
fn stub_strips_source_suffix() {
    assert_eq!(file_stub("nation.tbl", 4).unwrap().as_str(), "nation");
    assert_eq!(file_stub("store_sales.dat", 4).unwrap().as_str(), "store_sales");
}

#[test]
fn stub_of_exact_suffix_is_empty() {
    assert_eq!(file_stub(".tbl", 4).unwrap().as_str(), "");
}

#[test]
fn stub_of_short_name_is_none() {
    assert!(file_stub("ab", 4).is_none());
}
