use xtp::carray_to_string;

fn buffer<const N: usize>(bytes: &[u8]) -> [i8; N] {
    let mut b = [0i8; N];
    for (i, x) in bytes.iter().enumerate() {
        b[i] = *x as i8;
    }
    b
}

#[test]
fn ascii_text_before_null() {
    let b: [i8; 16] = buffer(b"600000");
    assert_eq!(carray_to_string(&b), "600000");
}

#[test]
fn text_after_first_null_is_ignored() {
    let b: [i8; 8] = buffer(b"ab\0cd");
    assert_eq!(carray_to_string(&b), "ab");
}

#[test]
fn leading_null_gives_empty_text() {
    let b: [i8; 16] = buffer(b"");
    assert_eq!(carray_to_string(&b), "");
    let empty: [i8; 0] = [];
    assert_eq!(carray_to_string(&empty), "");
}

#[test]
fn buffer_without_null_is_read_whole() {
    let b: [i8; 4] = buffer(b"abcd");
    assert_eq!(carray_to_string(&b), "abcd");
}

#[test]
fn multibyte_utf8_is_decoded() {
    let name = "浦发银行";
    let b: [i8; 64] = buffer(name.as_bytes());
    assert_eq!(carray_to_string(&b), name);
}

#[test]
fn invalid_byte_becomes_one_placeholder() {
    let b: [i8; 16] = buffer(b"error\xff");
    assert_eq!(carray_to_string(&b), "error\u{FFFD}");
}

#[test]
fn truncated_sequence_becomes_one_placeholder() {
    let b: [i8; 16] = buffer(b"ab\xe4\xb8");
    assert_eq!(carray_to_string(&b), "ab\u{FFFD}");
}

#[test]
fn separate_invalid_bytes_each_get_a_placeholder() {
    let b: [i8; 16] = buffer(b"x\xff\xfey");
    assert_eq!(carray_to_string(&b), "x\u{FFFD}\u{FFFD}y");
}
