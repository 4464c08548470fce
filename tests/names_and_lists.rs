use anynode::naming::{
    decimal_string, extract_output_path, parse_u32, parse_u64, signed_decimal_string,
    stem_of_extract,
};
use anynode::publish::{locality_id_of_file, LocalityUploadError};
use anynode::text::{parse_id_list, split_list, split_trimmed, trim_str};

#[test]
fn parses_ids_like_from_str() {
    assert_eq!(parse_u32("42"), Some(42));
    assert_eq!(parse_u32("+7"), Some(7));
    assert_eq!(parse_u32("007"), Some(7));
    assert_eq!(parse_u32("4294967295"), Some(4294967295));
    assert_eq!(parse_u32("4294967296"), None);
    assert_eq!(parse_u32(""), None);
    assert_eq!(parse_u32("+"), None);
    assert_eq!(parse_u32("-1"), None);
    assert_eq!(parse_u32("12a"), None);
    assert_eq!(parse_u32(" 1"), None);
    assert_eq!(parse_u64("18446744073709551615"), Some(u64::MAX));
    assert_eq!(parse_u64("18446744073709551616"), None);
}

#[test]
fn writes_numbers_in_decimal() {
    assert_eq!(decimal_string(0), "0");
    assert_eq!(decimal_string(1234567890), "1234567890");
    assert_eq!(decimal_string(u64::MAX), u64::MAX.to_string());
    assert_eq!(signed_decimal_string(-85632), "-85632");
    assert_eq!(signed_decimal_string(i64::MIN), i64::MIN.to_string());
}

#[test]
fn output_paths_and_stems() {
    assert_eq!(extract_output_path("/out", "FR", 101751119), "/out/FR/101751119.pmtiles");
    assert_eq!(stem_of_extract("101751119.pmtiles"), Some("101751119".to_string()));
    assert_eq!(stem_of_extract("a.b.pmtiles"), Some("a.b".to_string()));
    assert_eq!(stem_of_extract(".pmtiles"), None);
    assert_eq!(stem_of_extract("1.pmtiles.part"), None);
    assert_eq!(stem_of_extract("1.mbtiles"), None);
}

#[test]
fn lists_are_split_trimmed_and_filtered() {
    assert_eq!(split_list(" a, ,b ,"), vec!["a", "b"]);
    assert_eq!(split_list(""), Vec::<String>::new());
    assert_eq!(split_list("US"), vec!["US"]);
    assert_eq!(split_trimmed(" a, ,b "), vec!["a", "", "b"]);
    assert_eq!(trim_str("\t x y \n"), "x y");
    assert_eq!(trim_str("\u{3000}z\u{a0}"), "z");
    assert_eq!(parse_id_list("1, x, 3,,4294967296, +5"), vec![1, 3, 5]);
}

#[test]
fn file_names_in_a_country_directory() {
    assert_eq!(locality_id_of_file("85632.pmtiles").unwrap(), Some(85632));
    assert_eq!(locality_id_of_file("notes.txt").unwrap(), None);
    assert_eq!(locality_id_of_file("85632.pmtiles.part").unwrap(), None);
    match locality_id_of_file("abc.pmtiles") {
        Err(LocalityUploadError::QueueError(m)) => assert_eq!(m, "Invalid locality ID in filename: abc"),
        other => panic!("unexpected {:?}", other),
    }
}
