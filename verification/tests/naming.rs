use record_screen::naming::{chunk_file_name, decimal_string};

#[test]
fn decimal_string_writes_zero_as_one_digit() {
    assert_eq!(decimal_string(0), "0");
}

#[test]
fn decimal_string_has_no_leading_zeros() {
    assert_eq!(decimal_string(7), "7");
    assert_eq!(decimal_string(10), "10");
    assert_eq!(decimal_string(1905), "1905");
    assert_eq!(decimal_string(u32::MAX), "4294967295");
}

#[test]
fn chunk_file_name_joins_base_sequence_and_extension() {
    assert_eq!(chunk_file_name("chunk", 0), "chunk_0.webm");
    assert_eq!(chunk_file_name("chunk", 12), "chunk_12.webm");
    assert_eq!(chunk_file_name("", 3), "_3.webm");
    assert_eq!(chunk_file_name("a_b", 100), "a_b_100.webm");
}

#[test]
fn chunk_file_names_of_one_recording_are_all_different() {
    let mut names: Vec<String> = (0..2000).map(|k| chunk_file_name("chunk", k)).collect();
    names.push(chunk_file_name("chunk", u32::MAX));
    names.push(chunk_file_name("chunk", u32::MAX - 1));
    let count = names.len();
    names.sort();
    names.dedup();
    assert_eq!(names.len(), count);
}

#[test]
fn chunk_file_name_takes_any_base() {
    assert_eq!(chunk_file_name("录屏", 1), "录屏_1.webm");
    assert_eq!(chunk_file_name("dir/clip", 2), "dir/clip_2.webm");
    assert_eq!(chunk_file_name("clip_7.webm", 0), "clip_7.webm_0.webm");
}
