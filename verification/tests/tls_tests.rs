use ws_connector::tls::{build_tls_acceptor, TlsError};

fn generated_key_and_cert() -> (Vec<u8>, Vec<u8>) {
    let rsa = openssl::rsa::Rsa::generate(2048).expect("key generation");
    let pkey = openssl::pkey::PKey::from_rsa(rsa).expect("key wrapping");
    let key_pem = pkey.private_key_to_pem_pkcs8().expect("key serialization");

    let mut builder = openssl::x509::X509Builder::new().expect("certificate builder");
    builder.set_pubkey(&pkey).expect("public key");
    let start = openssl::asn1::Asn1Time::days_from_now(0).expect("start time");
    let end = openssl::asn1::Asn1Time::days_from_now(1).expect("end time");
    builder.set_not_before(&start).expect("not-before");
    builder.set_not_after(&end).expect("not-after");
    builder
        .sign(&pkey, openssl::hash::MessageDigest::sha256())
        .expect("signature");
    let cert_pem = builder.build().to_pem().expect("certificate serialization");
    (key_pem, cert_pem)
}

#[test]
fn invalid_key_material_fails_before_any_socket_is_accepted() {
    let r = build_tls_acceptor(b"not a certificate", b"not a key");
    assert_eq!(r.err(), Some(TlsError::BadPrivateKey));
}

#[test]
fn invalid_certificate_material_fails_construction() {
    let (key_pem, _) = generated_key_and_cert();
    let r = build_tls_acceptor(b"still not a certificate", &key_pem);
    assert_eq!(r.err(), Some(TlsError::BadCertificate));
}

#[test]
fn passphrase_protected_key_is_rejected_without_prompting() {
    let (_, cert_pem) = generated_key_and_cert();
    let rsa = openssl::rsa::Rsa::generate(2048).expect("key generation");
    let pkey = openssl::pkey::PKey::from_rsa(rsa).expect("key wrapping");
    let encrypted_key_pem = pkey
        .private_key_to_pem_pkcs8_passphrase(
            openssl::symm::Cipher::aes_256_cbc(),
            b"hunter2",
        )
        .expect("encrypted key serialization");
    let r = build_tls_acceptor(&cert_pem, &encrypted_key_pem);
    assert_eq!(r.err(), Some(TlsError::BadPrivateKey));
}

#[test]
fn valid_material_builds_the_shared_acceptor() {
    let (key_pem, cert_pem) = generated_key_and_cert();
    let r = build_tls_acceptor(&cert_pem, &key_pem);
    assert!(r.is_ok());
}
