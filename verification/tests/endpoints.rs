use bencher::endpoints::{
    allowed_json, get_ls_json, get_one_inner, server_endpoint_access, ResponseAccess,
};

#[test]
fn reports_that_convert_are_kept_in_order() {
    let converted: Vec<Result<u32, &str>> = vec![Ok(1), Err("bad"), Ok(3), Ok(2), Err("worse")];
    assert_eq!(get_ls_json(converted), vec![1, 3, 2]);
}

#[test]
fn no_reports() {
    let converted: Vec<Result<u32, ()>> = Vec::new();
    assert!(get_ls_json(converted).is_empty());
}

#[test]
fn allowed_when_check_passes() {
    assert!(allowed_json::<(), ()>(&Ok(())).allowed);
    assert!(!allowed_json::<(), &str>(&Err("denied")).allowed);
}

#[test]
fn endpoint_access() {
    assert_eq!(server_endpoint_access(true), ResponseAccess::Authenticated);
    assert_eq!(server_endpoint_access(false), ResponseAccess::Public);
}

#[test]
fn endpoint_body() {
    assert_eq!(get_one_inner("https://api.bencher.dev").endpoint, "https://api.bencher.dev");
}
