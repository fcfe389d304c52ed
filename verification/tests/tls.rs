use rustwii::tls::{certificate_names, self_signed_pem};

#[test]
fn certificate_covers_local_names() {
    assert_eq!(certificate_names("192.168.0.9"), vec!["localhost".to_string(), "127.0.0.1".to_string(), "192.168.0.9".to_string()]);
}

#[test]
fn self_signed_certificate_is_pem() {
    let pem = self_signed_pem("192.168.0.9").expect("certificate");
    assert!(pem.cert_pem.contains("BEGIN CERTIFICATE"));
    assert!(pem.key_pem.contains("PRIVATE KEY"));
}

#[test]
fn names_that_are_not_ascii_are_refused() {
    match self_signed_pem("café") {
        Err(error) => assert!(!error.description.is_empty()),
        Ok(_) => panic!("a certificate name must be ASCII"),
    }
}
