use bencher::cli::{Bencher, BencherError, Create, Exec};

#[test]
fn ping_url_joins_ping_path() {
    let bencher: Bencher<()> = Bencher::new("http://localhost:61016", None).unwrap();
    assert_eq!(bencher.ping().unwrap(), "http://localhost:61016/v0/ping");
}

#[test]
fn ping_url_replaces_path_of_base() {
    let bencher: Bencher<()> = Bencher::new("https://api.bencher.dev/v1/x", None).unwrap();
    assert_eq!(bencher.ping().unwrap(), "https://api.bencher.dev/v0/ping");
}

#[test]
fn bad_url_is_refused() {
    let res: Result<Bencher<()>, BencherError> = Bencher::new("not a url", None);
    assert!(matches!(res, Err(BencherError::Url(u)) if u == "not a url"));
}

#[test]
fn exec_without_subcommand_pings() {
    let bencher: Bencher<()> = Bencher::new("http://localhost:61016", None).unwrap();
    match bencher.exec().unwrap() {
        Exec::Ping { url } => assert_eq!(url, "http://localhost:61016/v0/ping"),
        Exec::Sub => panic!("expected a ping"),
    }
}

#[test]
fn exec_with_subcommand_runs_it() {
    let bencher = Bencher::new("http://localhost:61016", Some(5u8)).unwrap();
    assert!(matches!(bencher.exec().unwrap(), Exec::Sub));
    assert_eq!(*bencher.sub(), Some(5u8));
}

#[test]
fn token_endpoint_url() {
    let bencher: Bencher<()> = Bencher::new("http://localhost:61016/", None).unwrap();
    assert_eq!(bencher.endpoint_url("/v0/tokens").unwrap(), "http://localhost:61016/v0/tokens");
}

#[test]
fn token_body() {
    let create = Create { user: "muriel".to_string(), ttl: 3600, name: "ci".to_string() };
    let token = create.token();
    assert_eq!(token.user, "muriel");
    assert_eq!(token.ttl, 3600);
    assert_eq!(token.name, "ci");
}
