use greenbois::writer::{
    generate_blob, generate_initial_blob, generate_non_initial_blob, prepend_header_to_blob,
    time_string,
};

#[test]
fn test_prepending_header() {
    let blob = prepend_header_to_blob("test".as_bytes());
    assert_eq!(std::str::from_utf8(&blob).unwrap(), "commit 4\0test");
}

#[test]
fn header_of_empty_blob() {
    let blob = prepend_header_to_blob("".as_bytes());
    assert_eq!(std::str::from_utf8(&blob).unwrap(), "commit 0\0");
}

#[test]
fn header_length_is_decimal_byte_count() {
    let input = [7u8; 123];
    let blob = prepend_header_to_blob(&input);
    assert_eq!(&blob[..11], "commit 123\0".as_bytes());
    assert_eq!(&blob[11..], &input[..]);
}

#[test]
fn test_blob_generation_with_parent() {
    let blob = generate_blob(
        "TreeTest".as_bytes(),
        Some("ParentTest".as_bytes()),
        "AuthorTest <test@test.com>".as_bytes(),
        "MessageTest".as_bytes(),
        1454691142,
    )
    .unwrap();

    let expected = "tree TreeTest\n\
                    parent ParentTest\n\
                    author AuthorTest <test@test.com> 1454691142 -0000\n\
                    committer AuthorTest <test@test.com> 1454691142 -0000\n\n\
                    MessageTest";
    assert_eq!(std::str::from_utf8(&blob).unwrap(), expected);
}

#[test]
fn test_blob_generation_without_parent() {
    let blob = generate_blob(
        "TreeTest".as_bytes(),
        None,
        "AuthorTest <test@test.com>".as_bytes(),
        "MessageTest".as_bytes(),
        1454691142,
    )
    .unwrap();

    let expected = "tree TreeTest\n\
                    author AuthorTest <test@test.com> 1454691142 -0000\n\
                    committer AuthorTest <test@test.com> 1454691142 -0000\n\n\
                    MessageTest";
    assert_eq!(std::str::from_utf8(&blob).unwrap(), expected);
}

#[test]
fn initial_and_non_initial_wrappers_agree_with_generate_blob() {
    let tree = "TreeTest".as_bytes();
    let author = "AuthorTest <test@test.com>".as_bytes();
    let msg = "MessageTest".as_bytes();
    let t = 1454691142;
    assert_eq!(
        generate_initial_blob(tree, author, msg, t).unwrap(),
        generate_blob(tree, None, author, msg, t).unwrap()
    );
    assert_eq!(
        generate_non_initial_blob(tree, "ParentTest".as_bytes(), author, msg, t).unwrap(),
        generate_blob(tree, Some("ParentTest".as_bytes()), author, msg, t).unwrap()
    );
}

#[test]
fn blob_generation_is_idempotent() {
    let tree = "SomeTree".as_bytes();
    let parent = Some("0102aabb".as_bytes());
    let author = "A <a@b.c>".as_bytes();
    let msg = "message body".as_bytes();
    let first = generate_blob(tree, parent, author, msg, 123456789).unwrap();
    let second = generate_blob(tree, parent, author, msg, 123456789).unwrap();
    assert_eq!(first, second);
}

#[test]
fn time_string_renders_epoch_and_offset() {
    assert_eq!(
        std::str::from_utf8(&time_string(1454691142).unwrap()).unwrap(),
        "1454691142 -0000"
    );
    assert_eq!(std::str::from_utf8(&time_string(0).unwrap()).unwrap(), "0 -0000");
    assert_eq!(std::str::from_utf8(&time_string(-5).unwrap()).unwrap(), "-5 -0000");
    assert_eq!(
        std::str::from_utf8(&time_string(i64::MAX).unwrap()).unwrap(),
        "9223372036854775807 -0000"
    );
    assert_eq!(
        std::str::from_utf8(&time_string(i64::MIN).unwrap()).unwrap(),
        "-9223372036854775808 -0000"
    );
}
