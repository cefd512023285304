use account_service::mail;

fn pair(k: &str, v: &str) -> (Vec<u8>, Vec<u8>) {
    (k.as_bytes().to_vec(), v.as_bytes().to_vec())
}

#[test]
fn placeholder_is_substituted() {
    let out = mail::fill_template(
        b"Hello {{name}}, your code is {{code}}.".to_vec(),
        &vec![pair("{{name}}", "Alice"), pair("{{code}}", "1234")],
    );
    assert_eq!(out, b"Hello Alice, your code is 1234.".to_vec());
}

#[test]
fn replacement_scans_left_to_right_without_overlap() {
    let out = mail::replace_bytes(b"aaa", b"aa", b"b");
    assert_eq!(out, b"ba".to_vec());
    let repeated = mail::replace_bytes(b"xx-xx-xx", b"xx", b"yyy");
    assert_eq!(repeated, b"yyy-yyy-yyy".to_vec());
}

#[test]
fn empty_pattern_and_missing_key_leave_text_unchanged() {
    assert_eq!(mail::replace_bytes(b"abc", b"", b"zzz"), b"abc".to_vec());
    assert_eq!(mail::replace_bytes(b"abc", b"zq", b"zzz"), b"abc".to_vec());
    let untouched = mail::fill_template(b"Hello".to_vec(), &vec![]);
    assert_eq!(untouched, b"Hello".to_vec());
}

#[test]
fn pairs_apply_in_order() {
    let out = mail::fill_template(
        b"ab".to_vec(),
        &vec![pair("a", "b"), pair("bb", "c")],
    );
    assert_eq!(out, b"c".to_vec());
}
