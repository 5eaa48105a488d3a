use cogni_icp_backend::accounts::{
    check_login, merge_detail, merge_optional_detail, principal_seed, username_from_email,
};
use cogni_icp_backend::credentials::hash_password;

#[test]
fn seed_repeats_big_endian_id() {
    let id: u64 = 0x0102_0304_0506_0708;
    let seed = principal_seed(id);
    assert_eq!(seed.len(), 32);
    for chunk in seed.chunks(8) {
        assert_eq!(chunk, &id.to_be_bytes());
    }
    assert_eq!(principal_seed(7)[31], 7);
    assert_eq!(principal_seed(7)[0], 0);
}

#[test]
fn username_is_local_part_of_email() {
    assert_eq!(username_from_email("ada@example.org"), "ada");
    assert_eq!(username_from_email("zoë@x@y"), "zoë");
    assert_eq!(username_from_email("@example.org"), "@example.org");
    assert_eq!(username_from_email("no-at-sign"), "no-at-sign");
    assert_eq!(username_from_email(""), "");
}

#[test]
fn login_verdicts() {
    let stored = hash_password("pw");
    assert_eq!(check_login(Some(Some(stored.clone())), "pw"), Ok(()));
    assert_eq!(
        check_login(Some(Some(stored)), "wrong"),
        Err("Invalid password".to_string())
    );
    assert_eq!(
        check_login(Some(None), "pw"),
        Err("Account not set up for password authentication".to_string())
    );
    assert_eq!(check_login(None, "pw"), Err("User not found".to_string()));
}

#[test]
fn provider_details_replace_only_when_not_blank() {
    assert_eq!(merge_detail("old".to_string(), Some("new".to_string())), "new");
    assert_eq!(merge_detail("old".to_string(), Some("  ".to_string())), "old");
    assert_eq!(merge_detail("old".to_string(), None), "old");
    assert_eq!(
        merge_optional_detail(None, Some("Ada".to_string())),
        Some("Ada".to_string())
    );
    assert_eq!(
        merge_optional_detail(Some("Ada".to_string()), Some("\t".to_string())),
        Some("Ada".to_string())
    );
}
