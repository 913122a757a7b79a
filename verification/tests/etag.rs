use aira_platform::etag::etag_for;

#[test]
fn etag_is_v_and_the_version_in_decimal() {
    assert_eq!(etag_for(0), "v0");
    assert_eq!(etag_for(7), "v7");
    assert_eq!(etag_for(10), "v10");
    assert_eq!(etag_for(1_000_203), "v1000203");
    assert_eq!(etag_for(u64::MAX), "v18446744073709551615");
}

#[test]
fn versions_have_different_etags() {
    for m in 0..120u64 {
        for n in 0..120u64 {
            assert_eq!(etag_for(m) == etag_for(n), m == n);
        }
    }
}
