use openssl::asn1::Asn1Time;
use openssl::bn::BigNum;
use openssl::hash::hash;
use openssl::hash::MessageDigest;
use openssl::pkcs7::Pkcs7;
use openssl::pkcs7::Pkcs7Flags;
use openssl::pkey::PKey;
use openssl::pkey::Private;
use openssl::rsa::Rsa;
use openssl::stack::Stack;
use openssl::x509::X509Builder;
use openssl::x509::X509NameBuilder;
use openssl::x509::X509;
use rust_native::hex::hex_decode;
use rust_native::pkcs7::Pkcs7Error;
use rust_native::signature::conclude_lookup;
use rust_native::signature::package_signature;
use rust_native::signature::SignatureBlock;
use rust_native::signature::SignatureError;
use rust_native::signature::SignatureLookup;
use std::io::Cursor;
use std::io::Write;
use zip::write::FileOptions;
use zip::CompressionMethod;
use zip::ZipWriter;

fn package_of(entries: &[(&str, &[u8])], method: CompressionMethod) -> Vec<u8> {
    let mut writer = ZipWriter::new(Cursor::new(Vec::new()));
    for (name, data) in entries {
        if name.ends_with('/') {
            writer.add_directory(*name, FileOptions::default()).unwrap();
        } else {
            writer.start_file(*name, FileOptions::default().compression_method(method)).unwrap();
            writer.write_all(data).unwrap();
        }
    }
    writer.finish().unwrap().into_inner()
}

fn signer(common_name: &str, serial: u32) -> (X509, PKey<Private>) {
    let key = PKey::from_rsa(Rsa::generate(2048).unwrap()).unwrap();
    let mut name = X509NameBuilder::new().unwrap();
    name.append_entry_by_text("CN", common_name).unwrap();
    let name = name.build();
    let mut builder = X509Builder::new().unwrap();
    builder.set_version(2).unwrap();
    let serial = BigNum::from_u32(serial).unwrap().to_asn1_integer().unwrap();
    builder.set_serial_number(&serial).unwrap();
    builder.set_subject_name(&name).unwrap();
    builder.set_issuer_name(&name).unwrap();
    builder.set_pubkey(&key).unwrap();
    builder.set_not_before(&Asn1Time::days_from_now(0).unwrap()).unwrap();
    builder.set_not_after(&Asn1Time::days_from_now(365).unwrap()).unwrap();
    builder.sign(&key, MessageDigest::sha256()).unwrap();
    (builder.build(), key)
}

fn block(cert: &X509, key: &PKey<Private>) -> Vec<u8> {
    let stack = Stack::new().unwrap();
    let flags = Pkcs7Flags::DETACHED | Pkcs7Flags::BINARY;
    Pkcs7::sign(cert, key, &stack, b"Signature-Version: 1.0", flags).unwrap().to_der().unwrap()
}

fn md5_hex(cert: &X509) -> String {
    let digest = hash(MessageDigest::md5(), &cert.to_der().unwrap()).unwrap();
    digest.iter().map(|b| format!("{:02x}", b)).collect::<Vec<String>>().join("")
}

#[test]
fn bytes_that_are_no_package_give_the_archive_error() {
    assert_eq!(package_signature(Vec::new()), Err(SignatureError::Archive));
    assert_eq!(package_signature(b"PK but nothing else".to_vec()), Err(SignatureError::Archive));
}

#[test]
fn a_package_without_a_block_is_missing_its_signature() {
    let apk = package_of(
        &[("AndroidManifest.xml", b"<manifest/>"), ("META-INF/MANIFEST.MF", b"Manifest-Version: 1.0")],
        CompressionMethod::Deflated,
    );
    let lookup = package_signature(apk).unwrap();
    assert_eq!(lookup, SignatureLookup::Missing);
    assert_eq!(lookup.text(), "no signature found");
}

#[test]
fn an_empty_package_is_missing_its_signature() {
    let lookup = package_signature(package_of(&[], CompressionMethod::Stored)).unwrap();
    assert_eq!(lookup, SignatureLookup::Missing);
    assert_eq!(lookup.text(), "no signature found");
}

#[test]
fn the_fingerprint_is_the_md5_of_the_signer_certificate_in_hex() {
    let (cert, key) = signer("release key", 1);
    let der = block(&cert, &key);
    let apk = package_of(
        &[
            ("AndroidManifest.xml", b"<manifest/>"),
            ("META-INF/MANIFEST.MF", b"Manifest-Version: 1.0"),
            ("META-INF/CERT.SF", b"Signature-Version: 1.0"),
            ("META-INF/CERT.RSA", &der),
            ("classes.dex", b"dex"),
        ],
        CompressionMethod::Deflated,
    );
    let lookup = package_signature(apk).unwrap();
    assert_eq!(
        lookup,
        SignatureLookup::Found {
            index: 3,
            entry: "META-INF/CERT.RSA".to_string(),
            fingerprint: md5_hex(&cert),
        }
    );
    let text = lookup.text();
    assert_eq!(text, md5_hex(&cert));
    assert_eq!(text.len(), 32);
    assert!(text.chars().all(|c| matches!(c, '0'..='9' | 'a'..='f')));
    assert_eq!(hex_decode(&text), Some(hash(MessageDigest::md5(), &cert.to_der().unwrap()).unwrap().to_vec()));
}

#[test]
fn a_stored_block_gives_the_same_fingerprint() {
    let (cert, key) = signer("release key", 2);
    let der = block(&cert, &key);
    let stored = package_of(&[("META-INF/CERT.RSA", &der)], CompressionMethod::Stored);
    let deflated = package_of(&[("META-INF/CERT.RSA", &der)], CompressionMethod::Deflated);
    assert_ne!(stored, deflated);
    assert_eq!(package_signature(stored).unwrap().text(), md5_hex(&cert));
    assert_eq!(package_signature(deflated).unwrap().text(), md5_hex(&cert));
}

#[test]
fn the_first_block_decides() {
    let (first, first_key) = signer("first", 1);
    let (second, second_key) = signer("second", 2);
    let apk = package_of(
        &[
            ("META-INF/B.RSA", &block(&first, &first_key)),
            ("META-INF/A.RSA", &block(&second, &second_key)),
        ],
        CompressionMethod::Deflated,
    );
    let lookup = package_signature(apk).unwrap();
    assert_eq!(lookup.text(), md5_hex(&first));
    assert_ne!(lookup.text(), md5_hex(&second));
    assert!(matches!(lookup, SignatureLookup::Found { index: 0, .. }));
}

#[test]
fn a_first_block_that_is_broken_is_not_skipped() {
    let (cert, key) = signer("signer", 1);
    let apk = package_of(
        &[
            ("res/icon.png", b"png"),
            ("META-INF/BROKEN.RSA", b"this is no signature block"),
            ("META-INF/CERT.RSA", &block(&cert, &key)),
        ],
        CompressionMethod::Deflated,
    );
    assert_eq!(
        package_signature(apk),
        Err(SignatureError::Block { index: 1, cause: Pkcs7Error::Parse })
    );
}

#[test]
fn an_empty_block_is_broken() {
    let apk = package_of(&[("META-INF/CERT.RSA", b"")], CompressionMethod::Stored);
    assert_eq!(
        package_signature(apk),
        Err(SignatureError::Block { index: 0, cause: Pkcs7Error::Parse })
    );
}

#[test]
fn a_block_without_signers_is_reported() {
    let degenerate: Vec<u8> = vec![
        0x30, 0x23, 0x06, 0x09, 0x2a, 0x86, 0x48, 0x86, 0xf7, 0x0d, 0x01, 0x07, 0x02, 0xa0, 0x16,
        0x30, 0x14, 0x02, 0x01, 0x01, 0x31, 0x00, 0x30, 0x0b, 0x06, 0x09, 0x2a, 0x86, 0x48, 0x86,
        0xf7, 0x0d, 0x01, 0x07, 0x01, 0x31, 0x00,
    ];
    let apk = package_of(&[("a", b"a"), ("b", b"b"), ("META-INF/CERT.RSA", &degenerate)], CompressionMethod::Deflated);
    assert_eq!(
        package_signature(apk),
        Err(SignatureError::Block { index: 2, cause: Pkcs7Error::Signers })
    );
}

#[test]
fn a_directory_named_like_a_block_is_passed_over() {
    let (cert, key) = signer("signer", 1);
    let apk = package_of(
        &[("META-INF/OLD.RSA/", b""), ("META-INF/NEW.RSA", &block(&cert, &key))],
        CompressionMethod::Deflated,
    );
    let lookup = package_signature(apk).unwrap();
    assert_eq!(
        lookup,
        SignatureLookup::Found {
            index: 1,
            entry: "META-INF/NEW.RSA".to_string(),
            fingerprint: md5_hex(&cert),
        }
    );
}

#[test]
fn other_signature_kinds_are_not_looked_at() {
    let (cert, key) = signer("signer", 1);
    let der = block(&cert, &key);
    let apk = package_of(
        &[("META-INF/CERT.DSA", &der), ("META-INF/CERT.EC", &der), ("CERT.RSA", &der)],
        CompressionMethod::Deflated,
    );
    assert_eq!(package_signature(apk), Ok(SignatureLookup::Missing));
}

#[test]
fn data_before_the_archive_does_no_harm() {
    let (cert, key) = signer("signer", 1);
    let mut apk = b"#!/bin/sh\nexit 0\n".to_vec();
    apk.extend_from_slice(&package_of(&[("META-INF/CERT.RSA", &block(&cert, &key))], CompressionMethod::Deflated));
    assert_eq!(package_signature(apk).unwrap().text(), md5_hex(&cert));
}

#[test]
fn a_damaged_package_gives_a_result_all_the_same() {
    let (cert, key) = signer("signer", 1);
    let der = block(&cert, &key);
    let apk = package_of(
        &[("res/a.txt", b"some text to deflate, some text to deflate"), ("META-INF/CERT.RSA", &der)],
        CompressionMethod::Deflated,
    );
    let expected = md5_hex(&cert);
    let mut found = 0;
    let mut failed = 0;
    let mut missing = 0;
    for position in 0..apk.len() {
        for mask in [0x01u8, 0x80, 0xff] {
            let mut damaged = apk.clone();
            damaged[position] ^= mask;
            match package_signature(damaged) {
                Ok(SignatureLookup::Found { fingerprint, .. }) => {
                    assert_eq!(fingerprint.len(), 32);
                    if fingerprint == expected {
                        found += 1;
                    }
                }
                Ok(SignatureLookup::Missing) => missing += 1,
                Err(_) => failed += 1,
            }
        }
    }
    assert!(found > 0);
    assert!(failed > 0);
    assert!(missing > 0);
}

#[test]
fn a_package_cut_short_gives_a_result_all_the_same() {
    let (cert, key) = signer("signer", 1);
    let der = block(&cert, &key);
    let apk = package_of(&[("a", b"a"), ("META-INF/CERT.RSA", &der)], CompressionMethod::Stored);
    for len in 0..apk.len() {
        assert!(package_signature(apk[..len].to_vec()).is_err());
    }
    assert_eq!(package_signature(apk).unwrap().text(), md5_hex(&cert));
}

fn found_block() -> SignatureBlock {
    SignatureBlock { index: 4, name: "META-INF/CERT.RSA".to_string(), data: vec![1, 2, 3] }
}

#[test]
fn a_digest_concludes_the_lookup_with_its_hex() {
    let digest = vec![0x00, 0x01, 0x0a, 0x10, 0x7f, 0x80, 0xa0, 0xff];
    assert_eq!(
        conclude_lookup(found_block(), Ok(digest)),
        Ok(SignatureLookup::Found {
            index: 4,
            entry: "META-INF/CERT.RSA".to_string(),
            fingerprint: "00010a107f80a0ff".to_string(),
        })
    );
    let md5_of_nothing = vec![
        0xd4, 0x1d, 0x8c, 0xd9, 0x8f, 0x00, 0xb2, 0x04, 0xe9, 0x80, 0x09, 0x98, 0xec, 0xf8, 0x42, 0x7e,
    ];
    let lookup = conclude_lookup(found_block(), Ok(md5_of_nothing)).unwrap();
    assert_eq!(lookup.text(), "d41d8cd98f00b204e9800998ecf8427e");
}

#[test]
fn an_empty_digest_concludes_the_lookup_with_an_empty_fingerprint() {
    let lookup = conclude_lookup(found_block(), Ok(Vec::new())).unwrap();
    assert_eq!(lookup.text(), "");
}

#[test]
fn a_failed_digest_concludes_the_lookup_with_the_error_of_the_block() {
    for cause in [
        Pkcs7Error::Parse,
        Pkcs7Error::CertStack,
        Pkcs7Error::Signers,
        Pkcs7Error::NoSigner,
        Pkcs7Error::Digest,
    ] {
        assert_eq!(
            conclude_lookup(found_block(), Err(cause)),
            Err(SignatureError::Block { index: 4, cause })
        );
    }
}
