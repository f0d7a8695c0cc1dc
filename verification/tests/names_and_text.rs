use hypostats::name_data::{c_string_bytes_of, char_arr_to_string, decode_name_data, name_data};
use hypostats::text::decimal_string;

fn to_array(v: Vec<i8>) -> [i8; 64] {
    let mut a = [0i8; 64];
    a.copy_from_slice(&v);
    a
}

#[test]
fn name_is_stored_nul_padded() {
    let stored = name_data("bar");
    assert_eq!(stored.len(), 64);
    assert_eq!(&stored[..3], &[b'b' as i8, b'a' as i8, b'r' as i8]);
    assert!(stored[3..].iter().all(|&c| c == 0));
}

#[test]
fn stored_name_reads_back() {
    for name in ["bar", "myint", "", "größe", "x_1"] {
        let stored = to_array(name_data(name));
        assert_eq!(char_arr_to_string(&stored), name);
        assert_eq!(decode_name_data(&stored), Some(name.to_string()));
    }
}

#[test]
fn long_name_is_cut_at_63_bytes() {
    let long: String = std::iter::repeat('a').take(100).collect();
    let stored = name_data(&long);
    assert_eq!(stored.len(), 64);
    assert_eq!(stored[62], b'a' as i8);
    assert_eq!(stored[63], 0);
    let back = char_arr_to_string(&to_array(stored));
    assert_eq!(back.len(), 63);
    assert_eq!(back, long[..63]);
}

#[test]
fn cut_inside_a_character_is_not_utf8() {
    // 62 ASCII bytes then a two-byte character: the cut keeps only its first byte.
    let mut name: String = std::iter::repeat('a').take(62).collect();
    name.push('é');
    let stored = to_array(name_data(&name));
    assert_eq!(c_string_bytes_of(&stored).len(), 63);
    assert_eq!(decode_name_data(&stored), None);
}

#[test]
fn buffer_without_nul_is_read_whole() {
    let stored = [b'z' as i8; 64];
    assert_eq!(c_string_bytes_of(&stored).len(), 64);
    assert_eq!(char_arr_to_string(&stored).len(), 64);
}

#[test]
fn bytes_after_first_nul_are_ignored() {
    let mut stored = [0i8; 64];
    stored[0] = b'o' as i8;
    stored[1] = b'k' as i8;
    stored[3] = b'x' as i8;
    assert_eq!(c_string_bytes_of(&stored), vec![b'o', b'k']);
    assert_eq!(char_arr_to_string(&stored), "ok");
}

#[test]
fn integers_render_in_decimal() {
    assert_eq!(decimal_string(0), "0");
    assert_eq!(decimal_string(7), "7");
    assert_eq!(decimal_string(32942), "32942");
    assert_eq!(decimal_string(-120), "-120");
    assert_eq!(decimal_string(i64::MAX), i64::MAX.to_string());
    assert_eq!(decimal_string(i64::MIN), i64::MIN.to_string());
}
