use school_auth::policy::isStatic;

#[test]
fn exempt_fragment_paths_pass() {
    assert!(isStatic("/api/student/add-student".to_string()));
    assert!(isStatic("/static/images/logo.png".to_string()));
    assert!(isStatic("/api/app/student/upload-profile".to_string()));
    assert!(isStatic("/api/app/guest-access".to_string()));
    assert!(isStatic("/api/student/login/abc".to_string()));
    assert!(isStatic("/api/app/uploade_facility_image/5".to_string()));
    assert!(isStatic("/api/user/list".to_string()));
}

#[test]
fn login_route_matches_exactly() {
    assert!(isStatic("/api/login".to_string()));
    assert!(!isStatic("/api/login/extra".to_string()));
    assert!(!isStatic("/api/logi".to_string()));
}

#[test]
fn protected_paths_refused() {
    assert!(!isStatic("/api/app/add-branch".to_string()));
    assert!(!isStatic("/api/app/fees".to_string()));
    assert!(!isStatic("".to_string()));
}

#[test]
fn substring_match_is_broad() {
    // Matching is substring based: any path merely containing an exempt
    // fragment passes, even one that looks protected.
    assert!(isStatic("/api/app/delete-user-records".to_string()));
    assert!(isStatic("/prefix/static-assets".to_string()));
}
