//! What the native functions of `com.jni.rust.RustNative` compute.
//!
//! - [`signature`] finds the signature fingerprint of an application
//!   package: the MD5 digest, in lowercase hexadecimal, of the certificate of
//!   the first signer of the package's RSA signature block. It reads the
//!   package with [`archive`], the block with [`pkcs7`], and writes the
//!   digest with [`hex`].
//! - [`android_log_lite`] makes the records that go to the platform log.
//! - [`callback`] holds the script of the worker that calls back
//!   asynchronously.
//!
//! The library reads no file, writes no log and calls no Java: it is handed
//! bytes and texts, and hands back what is to be returned, logged or done.

pub mod android_log_lite;
pub mod archive;
pub mod callback;
pub mod hex;
pub mod pkcs7;
pub mod signature;
