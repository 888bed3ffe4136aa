use spike_mastodon::credential::{
    Credential, LoadError, credential_is_valid, load_credential, render_credential,
};

fn sample() -> Credential {
    Credential {
        server_base_url: String::from("https://example.social"),
        client_id: String::from("client-123"),
        client_secret: String::from("s3cr=t=="),
        access_token: String::from("tok-abc"),
        granted_scopes: vec![String::from("read"), String::from("write")],
    }
}

#[test]
fn render_produces_exact_content() {
    let c = sample();
    assert!(credential_is_valid(&c));
    let content = render_credential(&c);
    assert_eq!(
        content,
        "server_base_url=https://example.social\n\
         client_id=client-123\n\
         client_secret=s3cr=t==\n\
         access_token=tok-abc\n\
         scope=read\n\
         scope=write\n"
    );
}

#[test]
fn save_then_load_round_trips() {
    let c = sample();
    let content = render_credential(&c);
    let loaded = load_credential(Some(content.as_str())).unwrap();
    assert_eq!(loaded, c);
}

#[test]
fn round_trip_without_scopes() {
    let c = Credential { granted_scopes: Vec::new(), ..sample() };
    let loaded = load_credential(Some(render_credential(&c).as_str())).unwrap();
    assert_eq!(loaded, c);
}

#[test]
fn values_may_contain_the_separator() {
    // only the first '=' of a line splits key from value
    let c = Credential { access_token: String::from("==v=1=="), ..sample() };
    let loaded = load_credential(Some(render_credential(&c).as_str())).unwrap();
    assert_eq!(loaded.access_token, "==v=1==");
}

#[test]
fn absent_content_is_not_found() {
    assert_eq!(load_credential(None), Err(LoadError::NotFound));
}

#[test]
fn empty_content_is_corrupt() {
    assert_eq!(load_credential(Some("")), Err(LoadError::Corrupt));
}

#[test]
fn garbage_content_is_corrupt() {
    assert_eq!(load_credential(Some("not a credential at all")), Err(LoadError::Corrupt));
}

#[test]
fn line_without_separator_is_corrupt() {
    let content = "server_base_url=https://example.social\nclient_id\n";
    assert_eq!(load_credential(Some(content)), Err(LoadError::Corrupt));
}

#[test]
fn unterminated_last_line_is_corrupt() {
    let c = sample();
    let mut content = render_credential(&c);
    content.pop();
    assert_eq!(load_credential(Some(content.as_str())), Err(LoadError::Corrupt));
}

#[test]
fn missing_field_is_corrupt() {
    let content = "server_base_url=https://example.social\n\
                   client_id=client-123\n\
                   client_secret=sec\n";
    assert_eq!(load_credential(Some(content)), Err(LoadError::Corrupt));
}

#[test]
fn wrong_key_order_is_corrupt() {
    let content = "client_id=client-123\n\
                   server_base_url=https://example.social\n\
                   client_secret=sec\n\
                   access_token=tok\n";
    assert_eq!(load_credential(Some(content)), Err(LoadError::Corrupt));
}

#[test]
fn empty_value_is_corrupt() {
    // a credential is never partially populated: an empty field refuses the
    // whole load
    let content = "server_base_url=https://example.social\n\
                   client_id=\n\
                   client_secret=sec\n\
                   access_token=tok\n";
    assert_eq!(load_credential(Some(content)), Err(LoadError::Corrupt));
}

#[test]
fn unknown_trailing_key_is_corrupt() {
    let c = Credential { granted_scopes: Vec::new(), ..sample() };
    let mut content = render_credential(&c);
    content.push_str("website=https://example.social\n");
    assert_eq!(load_credential(Some(content.as_str())), Err(LoadError::Corrupt));
}

#[test]
fn validity_checks_every_field() {
    assert!(credential_is_valid(&sample()));
    let empty_field = Credential { access_token: String::new(), ..sample() };
    assert!(!credential_is_valid(&empty_field));
    let newline_field = Credential { client_id: String::from("a\nb"), ..sample() };
    assert!(!credential_is_valid(&newline_field));
    let empty_scope = Credential { granted_scopes: vec![String::new()], ..sample() };
    assert!(!credential_is_valid(&empty_scope));
}
