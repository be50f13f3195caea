//! Construction of the service-wide transport-encryption acceptor.
//!
//! When certificate and private-key material is supplied at startup, the
//! listening service upgrades every accepted raw stream through one shared
//! TLS acceptor, built here exactly once.  Invalid material makes service
//! construction fail before any socket is accepted; absence of material
//! means plaintext-only.  The handshake itself happens at the socket edge,
//! outside this library.

use vstd::prelude::*;

verus! {

#[verifier::external_type_specification]
#[verifier::external_body]
pub struct ExSslMethod(openssl::ssl::SslMethod);

#[verifier::external_type_specification]
#[verifier::external_body]
pub struct ExSslAcceptor(openssl::ssl::SslAcceptor);

#[verifier::external_type_specification]
#[verifier::external_body]
pub struct ExSslAcceptorBuilder(openssl::ssl::SslAcceptorBuilder);

#[verifier::external_type_specification]
#[verifier::external_body]
pub struct ExX509(openssl::x509::X509);

#[verifier::external_type_specification]
#[verifier::external_body]
#[verifier::reject_recursive_types(T)]
pub struct ExPKey<T>(openssl::pkey::PKey<T>);

#[verifier::external_type_specification]
#[verifier::external_body]
pub struct ExPrivate(openssl::pkey::Private);

#[verifier::external_type_specification]
#[verifier::external_body]
pub struct ExErrorStack(openssl::error::ErrorStack);

/// Largest PEM input the C interface takes: rust-openssl hands the slice
/// to a memory BIO whose length must fit a C `int`, and asserts that it
/// does.
pub const PEM_MATERIAL_MAX_BYTES: usize = 0x7fff_ffff;

/// `needle` occurs in `hay` starting at position `i`.
pub open spec fn match_at(hay: Seq<u8>, needle: Seq<u8>, i: int) -> bool {
    forall|j: int| 0 <= j < needle.len() ==> hay[i + j] == needle[j]
}

/// `needle` occurs somewhere in `hay` as a contiguous run.
pub open spec fn contains_seq(hay: Seq<u8>, needle: Seq<u8>) -> bool {
    exists|i: int| 0 <= i && i + needle.len() <= hay.len() && match_at(hay, needle, i)
}

/// The type-label word of an encrypted PKCS#8 PEM block, also part of the
/// `Proc-Type` header of traditional encrypted PEM bodies.
pub open spec fn encrypted_marker() -> Seq<u8> {
    // ASCII "ENCRYPTED"
    seq![69u8, 78u8, 67u8, 82u8, 89u8, 80u8, 84u8, 69u8, 68u8]
}

/// The header naming the cipher of a traditional encrypted PEM body.
pub open spec fn dek_info_marker() -> Seq<u8> {
    // ASCII "DEK-Info"
    seq![68u8, 69u8, 75u8, 45u8, 73u8, 110u8, 102u8, 111u8]
}

/// The material carries no PEM encryption marker.  Only such material is
/// handed to the parsers below: on passphrase-protected input the
/// underlying library would consult its default passphrase callback — a
/// terminal prompt — so its outcome there is no function of the bytes.
pub open spec fn pem_unencrypted(pem: Seq<u8>) -> bool {
    !contains_seq(pem, encrypted_marker()) && !contains_seq(pem, dek_info_marker())
}

/// Whether `openssl::x509::X509::from_pem` accepts these bytes as a
/// PEM-encoded certificate.  Stated only of material free of encryption
/// markers, where the parse consults the bytes alone; acceptance of
/// exotic algorithms can still differ between OpenSSL builds, which
/// standard material does not exercise.
pub uninterp spec fn x509_pem_ok(pem: Seq<u8>) -> bool;

/// Whether `openssl::pkey::PKey::private_key_from_pem` accepts these bytes
/// as a PEM-encoded private key.  Stated only of material free of
/// encryption markers, where the parse consults the bytes alone;
/// acceptance of exotic key algorithms can still differ between OpenSSL
/// builds, which standard material does not exercise.
pub uninterp spec fn private_key_pem_ok(pem: Seq<u8>) -> bool;

/// Whether `needle` occurs in `hay` as a contiguous run.
fn contains_subslice(hay: &[u8], needle: &[u8]) -> (r: bool)
    requires
        needle@.len() >= 1,
    ensures
        r == contains_seq(hay@, needle@),
{
    if hay.len() < needle.len() {
        return false;
    }
    let n = hay.len();
    let last = n - needle.len();
    let mut i: usize = 0;
    while i <= last
        invariant
            needle@.len() >= 1,
            n == hay@.len(),
            n >= needle@.len(),
            last == n - needle@.len(),
            i <= last + 1,
            forall|k: int| 0 <= k < i ==> !match_at(hay@, needle@, k),
        decreases last + 1 - i,
    {
        let mut j: usize = 0;
        let mut ok: bool = true;
        while j < needle.len()
            invariant
                n == hay@.len(),
                i + needle@.len() <= n,
                j <= needle@.len(),
                ok ==> forall|t: int| 0 <= t < j ==> hay@[i + t] == needle@[t],
                !ok ==> !match_at(hay@, needle@, i as int),
            decreases needle@.len() - j,
        {
            if hay[i + j] != needle[j] {
                proof {
                    assert(!match_at(hay@, needle@, i as int));
                }
                ok = false;
                j = needle.len();
            } else {
                j = j + 1;
            }
        }
        if ok {
            proof {
                assert(match_at(hay@, needle@, i as int));
            }
            return true;
        }
        i = i + 1;
    }
    proof {
        assert forall|k: int|
            0 <= k && k + needle@.len() <= hay@.len() implies !match_at(hay@, needle@, k) by {
            assert(0 <= k < i);
        }
    }
    false
}

/// The material carries no PEM encryption marker, so the parsers below
/// read nothing but the bytes.
fn pem_is_unencrypted(pem: &[u8]) -> (r: bool)
    ensures
        r == pem_unencrypted(pem@),
{
    let mut enc: Vec<u8> = Vec::new();
    enc.push(69u8);
    enc.push(78u8);
    enc.push(67u8);
    enc.push(82u8);
    enc.push(89u8);
    enc.push(80u8);
    enc.push(84u8);
    enc.push(69u8);
    enc.push(68u8);
    let mut dek: Vec<u8> = Vec::new();
    dek.push(68u8);
    dek.push(69u8);
    dek.push(75u8);
    dek.push(45u8);
    dek.push(73u8);
    dek.push(110u8);
    dek.push(102u8);
    dek.push(111u8);
    proof {
        assert(enc@ =~= encrypted_marker());
        assert(dek@ =~= dek_info_marker());
    }
    let has_enc = contains_subslice(pem, enc.as_slice());
    let has_dek = contains_subslice(pem, dek.as_slice());
    !has_enc && !has_dek
}

/// Relies on openssl's `SslMethod::tls`: the version-flexible TLS method.
#[verifier::external_body]
fn tls_method() -> openssl::ssl::SslMethod {
    openssl::ssl::SslMethod::tls()
}

/// Relies on openssl's `SslAcceptor::mozilla_intermediate`: a TLS acceptor
/// builder preconfigured with the Mozilla intermediate profile.
#[verifier::external_body]
fn acceptor_builder(method: openssl::ssl::SslMethod) -> Result<
    openssl::ssl::SslAcceptorBuilder,
    openssl::error::ErrorStack,
> {
    openssl::ssl::SslAcceptor::mozilla_intermediate(method)
}

/// Relies on openssl's `PKey::private_key_from_pem`: parses a PEM-encoded
/// private key; on unencrypted material it succeeds or fails on the bytes
/// alone.  The length bound is rust-openssl's own: it asserts the slice
/// fits a C `int` before handing it to the memory BIO.  Encrypted
/// material is excluded because the call passes a null passphrase
/// callback, under which the library would prompt on the terminal.
#[verifier::external_body]
fn private_key_from_pem(pem: &[u8]) -> (r: Result<
    openssl::pkey::PKey<openssl::pkey::Private>,
    openssl::error::ErrorStack,
>)
    requires
        pem@.len() <= PEM_MATERIAL_MAX_BYTES,
        pem_unencrypted(pem@),
    ensures
        r is Ok <==> private_key_pem_ok(pem@),
{
    openssl::pkey::PKey::private_key_from_pem(pem)
}

/// Relies on openssl's `X509::from_pem`: parses a PEM-encoded certificate;
/// on unencrypted material it succeeds or fails on the bytes alone.  The
/// length bound is rust-openssl's own: it asserts the slice fits a C
/// `int` before handing it to the memory BIO.  Encrypted material is
/// excluded because the call passes a null passphrase callback, under
/// which the library would prompt on the terminal.
#[verifier::external_body]
fn certificate_from_pem(pem: &[u8]) -> (r: Result<
    openssl::x509::X509,
    openssl::error::ErrorStack,
>)
    requires
        pem@.len() <= PEM_MATERIAL_MAX_BYTES,
        pem_unencrypted(pem@),
    ensures
        r is Ok <==> x509_pem_ok(pem@),
{
    openssl::x509::X509::from_pem(pem)
}

/// Relies on openssl's `SslContextBuilder::set_private_key`, reached
/// through `SslAcceptorBuilder`'s `DerefMut`.
#[verifier::external_body]
fn builder_set_private_key(
    builder: &mut openssl::ssl::SslAcceptorBuilder,
    key: &openssl::pkey::PKey<openssl::pkey::Private>,
) -> Result<(), openssl::error::ErrorStack> {
    builder.set_private_key(key)
}

/// Relies on openssl's `SslContextBuilder::set_certificate`, reached
/// through `SslAcceptorBuilder`'s `DerefMut`.
#[verifier::external_body]
fn builder_set_certificate(
    builder: &mut openssl::ssl::SslAcceptorBuilder,
    cert: &openssl::x509::X509,
) -> Result<(), openssl::error::ErrorStack> {
    builder.set_certificate(cert)
}

/// Relies on openssl's `SslAcceptorBuilder::build`.
#[verifier::external_body]
fn builder_build(builder: openssl::ssl::SslAcceptorBuilder) -> openssl::ssl::SslAcceptor {
    builder.build()
}

/// Why the acceptor could not be built.  All of these are fatal to
/// service construction and none is ever process-fatal.
#[derive(Clone, Copy, Debug, PartialEq, Eq, Structural)]
pub enum TlsError {
    /// The private-key material is passphrase-protected or is not a
    /// parsable PEM private key.
    BadPrivateKey,
    /// The certificate material carries an encryption marker or is not a
    /// parsable PEM certificate.
    BadCertificate,
    /// The parsed material was rejected while configuring the acceptor.
    AcceptorSetup,
}

/// The key material is usable: free of encryption markers (a passphrase
/// prompt is no way to start a service) and accepted by the parser.
pub open spec fn key_material_ok(pem: Seq<u8>) -> bool {
    pem_unencrypted(pem) && private_key_pem_ok(pem)
}

/// The certificate material is usable: free of encryption markers and
/// accepted by the parser.
pub open spec fn cert_material_ok(pem: Seq<u8>) -> bool {
    pem_unencrypted(pem) && x509_pem_ok(pem)
}

/// Build the single, service-wide TLS acceptor from PEM certificate and
/// private-key material.  Called once at service start, strictly before
/// any socket is accepted; the key material is examined first, then the
/// certificate.  An error here aborts service construction.
/// Passphrase-protected material is rejected outright, before any parse.
/// Each piece of material must fit the C interface's `int` length, a
/// machine limit of the underlying library.
pub fn build_tls_acceptor(cert_pem: &[u8], key_pem: &[u8]) -> (r: Result<
    openssl::ssl::SslAcceptor,
    TlsError,
>)
    requires
        cert_pem@.len() <= PEM_MATERIAL_MAX_BYTES,
        key_pem@.len() <= PEM_MATERIAL_MAX_BYTES,
    ensures
        r matches Err(TlsError::BadPrivateKey) <==> !key_material_ok(key_pem@),
        r matches Err(TlsError::BadCertificate) <==> (key_material_ok(key_pem@)
            && !cert_material_ok(cert_pem@)),
        r is Ok ==> key_material_ok(key_pem@) && cert_material_ok(cert_pem@),
{
    if !pem_is_unencrypted(key_pem) {
        return Err(TlsError::BadPrivateKey);
    }
    let key = match private_key_from_pem(key_pem) {
        Ok(k) => k,
        Err(_) => {
            return Err(TlsError::BadPrivateKey);
        },
    };
    if !pem_is_unencrypted(cert_pem) {
        return Err(TlsError::BadCertificate);
    }
    let cert = match certificate_from_pem(cert_pem) {
        Ok(c) => c,
        Err(_) => {
            return Err(TlsError::BadCertificate);
        },
    };
    let method = tls_method();
    let mut builder = match acceptor_builder(method) {
        Ok(b) => b,
        Err(_) => {
            return Err(TlsError::AcceptorSetup);
        },
    };
    if builder_set_private_key(&mut builder, &key).is_err() {
        return Err(TlsError::AcceptorSetup);
    }
    if builder_set_certificate(&mut builder, &cert).is_err() {
        return Err(TlsError::AcceptorSetup);
    }
    Ok(builder_build(builder))
}

} // verus!
