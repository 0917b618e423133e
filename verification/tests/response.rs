use twofactor::handlers::response::{provider_list, Response};

fn value(text: &str) -> serde_json::Value {
    serde_json::from_str(text).unwrap()
}

#[test]
fn authenticator_body() {
    let body = Response::Authenticator { enabled: true, key: "KEY".to_string() }.to_json();
    assert_eq!(
        body,
        value("{\"enabled\":true,\"key\":\"KEY\",\"object\":\"twoFactorAuthenticator\"}")
    );
}

#[test]
fn provider_body() {
    let body = Response::Provider { enabled: false, type_: -7 }.to_json();
    assert_eq!(
        body,
        value("{\"enabled\":false,\"type\":-7,\"object\":\"twoFactorProvider\"}")
    );
}

#[test]
fn recover_body() {
    assert_eq!(
        Response::Recover { code: Some("C0DE".to_string()) }.to_json(),
        value("{\"code\":\"C0DE\",\"object\":\"twoFactorRecover\"}")
    );
    assert_eq!(
        Response::Recover { code: None }.to_json(),
        value("{\"code\":null,\"object\":\"twoFactorRecover\"}")
    );
}

#[test]
fn yubikey_body_has_five_slots() {
    assert_eq!(
        Response::YubiKey { enabled: false, keys: vec![] }.to_json(),
        value(
            "{\"enabled\":false,\"key1\":null,\"key2\":null,\"key3\":null,\"key4\":null,\
             \"key5\":null,\"object\":\"twoFactorYubiKey\"}"
        )
    );
    assert_eq!(
        Response::YubiKey { enabled: true, keys: vec!["a".to_string(), "b".to_string()] }
            .to_json(),
        value(
            "{\"enabled\":true,\"key1\":\"a\",\"key2\":\"b\",\"key3\":null,\"key4\":null,\
             \"key5\":null,\"object\":\"twoFactorYubiKey\"}"
        )
    );
}

#[test]
fn yubikey_body_has_no_sixth_slot() {
    let keys = vec!["a", "b", "c", "d", "e", "f"];
    let keys: Vec<String> = keys.iter().map(|k| k.to_string()).collect();
    assert_eq!(
        Response::YubiKey { enabled: true, keys }.to_json(),
        value(
            "{\"enabled\":true,\"key1\":\"a\",\"key2\":\"b\",\"key3\":\"c\",\"key4\":\"d\",\
             \"key5\":\"e\",\"object\":\"twoFactorYubiKey\"}"
        )
    );
}

#[test]
fn list_body() {
    assert_eq!(
        provider_list(vec![value("{\"type\":0}"), value("{\"type\":3}")]),
        value(
            "{\"data\":[{\"type\":0},{\"type\":3}],\"object\":\"list\",\
             \"continuationToken\":null}"
        )
    );
    assert_eq!(
        provider_list(vec![]),
        value("{\"data\":[],\"object\":\"list\",\"continuationToken\":null}")
    );
}
