use greenbois::hasher::{hash_blob, hash_blob_hex};

#[test]
fn hasher_correctly_hashes_blob() {
    let blob = "tree TreeTest\n\
                parent ParentTest\n\
                author AuthorTest <test@test.com> 1454691142 -0000\n\
                committer AuthorTest <test@test.com> 1454691142 -0000\n\n\
                MessageTest\n"
        .to_string();
    let hash = hash_blob(blob.as_bytes());
    assert_eq!(hex::encode(hash), "b40d65e1fde4d9651b27f60e8cc18238dbd2570e");
}

#[test]
fn hasher_matches_known_vector_for_small_blob() {
    let hash = hash_blob("test".as_bytes());
    assert_eq!(hex::encode(hash), "4723784fdd78f55cb2e06104b3a4b0a66a629c61");
}

#[test]
fn hashing_is_deterministic() {
    let blob = "some object bytes".as_bytes();
    let first = hash_blob(blob);
    let second = hash_blob(blob);
    assert_eq!(first, second);
    assert_eq!(first.len(), 20);
}

#[test]
fn hash_blob_hex_renders_the_digest_in_lowercase_hex() {
    let hex_id = hash_blob_hex("test".as_bytes());
    assert_eq!(
        std::str::from_utf8(&hex_id).unwrap(),
        "4723784fdd78f55cb2e06104b3a4b0a66a629c61"
    );
    assert_eq!(hex_id.len(), 40);
}
