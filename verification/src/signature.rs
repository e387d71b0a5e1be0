//! The signature fingerprint of a package: the MD5 digest, in hexadecimal,
//! of the certificate of the first signer of the package's RSA signature
//! block.

use crate::archive::names_directory;
use crate::archive::opened;
use crate::archive::zip_directory;
use crate::archive::EntryModel;
use crate::archive::Package;
use crate::hex::hex_encode;
use crate::hex::hex_string;
use crate::pkcs7::certificate_der;
use crate::pkcs7::first_signer;
use crate::pkcs7::may_fail_with;
use crate::pkcs7::md5;
use crate::pkcs7::signer_digest;
use crate::pkcs7::Pkcs7Error;
use vstd::prelude::*;
use vstd::utf8::encode_utf8;

verus! {

/// Whether `needle` stands in `hay` from position `start` on.
pub open spec fn occurs_at(hay: Seq<u8>, needle: Seq<u8>, start: int) -> bool {
    &&& 0 <= start
    &&& start + needle.len() <= hay.len()
    &&& hay.subrange(start, start + needle.len()) == needle
}

/// Whether `needle` stands somewhere in `hay`.
pub open spec fn contains_slice(hay: Seq<u8>, needle: Seq<u8>) -> bool {
    exists|start: int| occurs_at(hay, needle, start)
}

/// Whether a name is that of an RSA signature block: its UTF-8 bytes hold
/// those of `META-INF` and those of `.RSA`, wherever and in whatever order.
pub open spec fn names_signature(name: Seq<char>) -> bool {
    &&& contains_slice(encode_utf8(name), encode_utf8("META-INF"@))
    &&& contains_slice(encode_utf8(name), encode_utf8(".RSA"@))
}

/// The two marks of a signature block's name, as the bytes that are looked
/// for.
pub proof fn lemma_signature_marks()
    ensures
        encode_utf8("META-INF"@) == seq![0x4du8, 0x45u8, 0x54u8, 0x41u8, 0x2du8, 0x49u8, 0x4eu8, 0x46u8],
        encode_utf8(".RSA"@) == seq![0x2eu8, 0x52u8, 0x53u8, 0x41u8],
{
    reveal_strlit("META-INF");
    reveal_strlit(".RSA");
    vstd::utf8::is_ascii_chars_encode_utf8("META-INF"@);
    vstd::utf8::is_ascii_chars_encode_utf8(".RSA"@);
}

/// Whether the characters `mark` stand somewhere in `name`.
pub open spec fn contains_text(name: Seq<char>, mark: Seq<char>) -> bool {
    exists|start: int|
        0 <= start && start + mark.len() <= name.len() && #[trigger] name.subrange(
            start,
            start + mark.len(),
        ) == mark
}

/// In ASCII text, to hold the bytes of an ASCII mark is to hold its
/// characters.
pub proof fn lemma_ascii_contains(name: Seq<char>, mark: Seq<char>)
    requires
        vstd::utf8::is_ascii_chars(name),
        vstd::utf8::is_ascii_chars(mark),
    ensures
        contains_slice(encode_utf8(name), encode_utf8(mark)) <==> contains_text(name, mark),
{
    vstd::utf8::is_ascii_chars_encode_utf8(name);
    vstd::utf8::is_ascii_chars_encode_utf8(mark);
    vstd::utf8::is_ascii_chars_nat_bound(name);
    vstd::utf8::is_ascii_chars_nat_bound(mark);
    let hay = encode_utf8(name);
    let needle = encode_utf8(mark);
    assert forall|start: int| occurs_at(hay, needle, start) <==> (0 <= start && start + mark.len()
        <= name.len() && name.subrange(start, start + mark.len()) == mark) by {
        if 0 <= start && start + mark.len() <= name.len() {
            let bytes = hay.subrange(start, start + needle.len());
            let chars = name.subrange(start, start + mark.len());
            if bytes == needle {
                assert(chars =~= mark);
            }
            if chars == mark {
                assert(bytes =~= needle);
            }
        }
    }
    if contains_text(name, mark) {
        let start = choose|start: int|
            0 <= start && start + mark.len() <= name.len() && #[trigger] name.subrange(
                start,
                start + mark.len(),
            ) == mark;
        assert(occurs_at(hay, needle, start));
    }
}

/// An ASCII name is that of a signature block where the characters
/// `META-INF` and the characters `.RSA` stand in it.
pub proof fn lemma_ascii_name(name: Seq<char>)
    requires
        vstd::utf8::is_ascii_chars(name),
    ensures
        names_signature(name) <==> contains_text(name, "META-INF"@) && contains_text(name, ".RSA"@),
{
    reveal_strlit("META-INF");
    reveal_strlit(".RSA");
    lemma_ascii_contains(name, "META-INF"@);
    lemma_ascii_contains(name, ".RSA"@);
}

/// Whether an entry is a signature block: a regular file with the name of
/// one.
pub open spec fn is_signature(entry: EntryModel) -> bool {
    opened(entry) matches Some(file) && !names_directory(file.name) && names_signature(file.name)
}

/// Whether the search goes on past an entry: it can be opened and is no
/// signature block.
pub open spec fn passes_over(entry: EntryModel) -> bool {
    opened(entry) is Some && !is_signature(entry)
}

/// Whether the search ends at `index`: it has passed over every entry before
/// it, and does not pass over this one.
pub open spec fn stops_at(entries: Seq<EntryModel>, index: int) -> bool {
    &&& 0 <= index < entries.len()
    &&& forall|j: int| 0 <= j < index ==> passes_over(#[trigger] entries[j])
    &&& !passes_over(entries[index])
}

/// The search ends at one entry at most.
pub proof fn lemma_stop_unique(entries: Seq<EntryModel>, i: int, j: int)
    requires
        stops_at(entries, i),
        stops_at(entries, j),
    ensures
        i == j,
{
}

/// Whether `needle` stands in `hay` from position `start` on.
fn matches_at(hay: &[u8], needle: &[u8], start: usize) -> (r: bool)
    requires
        start + needle@.len() <= hay@.len(),
    ensures
        r == occurs_at(hay@, needle@, start as int),
{
    let limit = hay.len();
    let mut k: usize = 0;
    while k < needle.len()
        invariant
            k <= needle@.len(),
            start + needle@.len() <= hay@.len(),
            hay@.len() == limit,
            forall|j: int| 0 <= j < k ==> hay@[start + j] == #[trigger] needle@[j],
        decreases needle.len() - k,
    {
        if hay[start + k] != needle[k] {
            return false;
        }
        k = k + 1;
    }
    assert(hay@.subrange(start as int, start + needle@.len()) =~= needle@);
    true
}

/// Whether `needle` stands somewhere in `hay`.
pub fn contains_bytes(hay: &[u8], needle: &[u8]) -> (r: bool)
    ensures
        r == contains_slice(hay@, needle@),
{
    if needle.len() > hay.len() {
        return false;
    }
    let limit = hay.len();
    let mut start: usize = 0;
    while needle.len() <= limit - start
        invariant
            start <= limit,
            hay@.len() == limit,
            forall|s: int| 0 <= s < start ==> !occurs_at(hay@, needle@, s),
        decreases limit - start,
    {
        if matches_at(hay, needle, start) {
            return true;
        }
        proof {
            if needle@.len() == 0 {
                assert(hay@.subrange(start as int, start as int) =~= needle@);
            }
        }
        start = start + 1;
    }
    false
}

/// Whether an entry with this name and kind is an RSA signature block: a
/// regular file whose name holds `META-INF` and `.RSA`.
pub fn is_signature_entry(name: &str, is_file: bool) -> (r: bool)
    ensures
        r == (is_file && names_signature(name@)),
{
    is_file && contains_bytes(name.as_bytes(), "META-INF".as_bytes()) && contains_bytes(
        name.as_bytes(),
        ".RSA".as_bytes(),
    )
}

/// Why no fingerprint was computed.
#[derive(Clone, Copy, Debug, PartialEq, Eq, Structural)]
pub enum SignatureError {
    /// The package is not an archive whose directory can be read.
    Archive,
    /// The entry at `index` cannot be opened.
    Entry { index: usize },
    /// The data of the signature block at `index` cannot be read.
    Content { index: usize },
    /// No digest came out of the signature block at `index`.
    Block { index: usize, cause: Pkcs7Error },
}

/// The signature block that the search found.
#[derive(Debug, PartialEq, Eq)]
pub struct SignatureBlock {
    /// Its place in the directory of the package.
    pub index: usize,
    /// Its name.
    pub name: String,
    /// Its data.
    pub data: Vec<u8>,
}

/// Searches the package for its signature block: the first entry that is a
/// regular file with `META-INF` and `.RSA` in its name.
///
/// The entries are opened in the order of the directory. One that cannot be
/// opened ends the search with `Entry`, also where a signature block follows
/// it; a signature block whose data cannot be read ends it with `Content`.
/// `Ok(None)` says that every entry was opened and none is a signature block.
pub fn find_signature_block(package: &mut Package) -> (r: Result<
    Option<SignatureBlock>,
    SignatureError,
>)
    ensures
        final(package).entries() == old(package).entries(),
        match r {
            Ok(None) => forall|j: int|
                0 <= j < old(package).entries().len() ==> passes_over(
                    #[trigger] old(package).entries()[j],
                ),
            Ok(Some(block)) => {
                &&& stops_at(old(package).entries(), block.index as int)
                &&& is_signature(old(package).entries()[block.index as int])
                &&& opened(old(package).entries()[block.index as int]) matches Some(file)
                &&& file.name == block.name@
                &&& file.content == Some(block.data@)
            },
            Err(SignatureError::Entry { index }) => {
                &&& stops_at(old(package).entries(), index as int)
                &&& opened(old(package).entries()[index as int]) is None
            },
            Err(SignatureError::Content { index }) => {
                &&& stops_at(old(package).entries(), index as int)
                &&& is_signature(old(package).entries()[index as int])
                &&& opened(old(package).entries()[index as int]) matches Some(file)
                &&& file.content is None
            },
            Err(_) => false,
        },
{
    let count = package.len();
    let mut index: usize = 0;
    while index < count
        invariant
            index <= count,
            count == package.entries().len(),
            package.entries() == old(package).entries(),
            forall|j: int| 0 <= j < index ==> passes_over(#[trigger] package.entries()[j]),
        decreases count - index,
    {
        let entry = match package.entry(index) {
            Some(entry) => entry,
            None => {
                return Err(SignatureError::Entry { index });
            },
        };
        let name = entry.name();
        if is_signature_entry(name.as_str(), entry.is_file()) {
            return match entry.read() {
                Some(data) => Ok(Some(SignatureBlock { index, name, data })),
                None => Err(SignatureError::Content { index }),
            };
        }
        index = index + 1;
    }
    Ok(None)
}

/// What the search for the fingerprint of a package gave.
#[derive(Debug, PartialEq, Eq)]
pub enum SignatureLookup {
    /// The package holds a signature block.
    Found {
        /// The place of the block in the directory of the package.
        index: usize,
        /// The name of the block.
        entry: String,
        /// The MD5 digest of the certificate of the block's first signer, in
        /// lowercase hexadecimal.
        fingerprint: String,
    },
    /// The package holds no signature block.
    Missing,
}

/// The text that stands for a lookup: the fingerprint, or a fixed sentence
/// where the package holds no signature block.
pub open spec fn lookup_text(lookup: SignatureLookup) -> Seq<char> {
    match lookup {
        SignatureLookup::Found { fingerprint, .. } => fingerprint@,
        SignatureLookup::Missing => "no signature found"@,
    }
}

impl SignatureLookup {
    /// The text that stands for the lookup.
    pub fn text(&self) -> (text: String)
        ensures
            text@ == lookup_text(*self),
    {
        match self {
            SignatureLookup::Found { fingerprint, .. } => fingerprint.clone(),
            SignatureLookup::Missing => "no signature found".to_owned(),
        }
    }
}

/// The result of a lookup that has found `block`, once the digest of the
/// block's first signer has come out as `digest`: the fingerprint of the
/// block where there is a digest, and else the error of the block.
pub fn conclude_lookup(block: SignatureBlock, digest: Result<Vec<u8>, Pkcs7Error>) -> (r: Result<
    SignatureLookup,
    SignatureError,
>)
    ensures
        match digest {
            Ok(bytes) => r matches Ok(SignatureLookup::Found { index, entry, fingerprint })
                && index == block.index && entry@ == block.name@ && fingerprint@ == hex_string(
                bytes@,
            ),
            Err(cause) => r == Err::<SignatureLookup, SignatureError>(
                SignatureError::Block { index: block.index, cause },
            ),
        },
{
    match digest {
        Ok(bytes) => Ok(
            SignatureLookup::Found {
                index: block.index,
                entry: block.name,
                fingerprint: hex_encode(bytes.as_slice()),
            },
        ),
        Err(cause) => Err(SignatureError::Block { index: block.index, cause }),
    }
}

/// The place in the directory at which a result says the search ended;
/// `None` for a result that names no entry.
pub open spec fn stop_of(result: Result<SignatureLookup, SignatureError>) -> Option<int> {
    match result {
        Ok(SignatureLookup::Found { index, .. }) => Some(index as int),
        Ok(SignatureLookup::Missing) => None,
        Err(SignatureError::Archive) => None,
        Err(SignatureError::Entry { index }) => Some(index as int),
        Err(SignatureError::Content { index }) => Some(index as int),
        Err(SignatureError::Block { index, .. }) => Some(index as int),
    }
}

/// Whether `result` is what the search gives for a package with these
/// entries.
///
/// The search ends at the first entry that cannot be opened or is a signature
/// block, and that entry decides: `Entry` where it cannot be opened,
/// `Content` where its data cannot be read, `Block` where no digest comes out
/// of its data, and else `Found` with the fingerprint of its first signer.
/// `Missing` says that the search passed over every entry.
pub open spec fn lookup_agrees(
    entries: Seq<EntryModel>,
    result: Result<SignatureLookup, SignatureError>,
) -> bool {
    match result {
        Ok(SignatureLookup::Missing) => forall|j: int|
            0 <= j < entries.len() ==> passes_over(#[trigger] entries[j]),
        Ok(SignatureLookup::Found { index, entry, fingerprint }) => {
            &&& stops_at(entries, index as int)
            &&& is_signature(entries[index as int])
            &&& opened(entries[index as int]) matches Some(file)
            &&& file.name == entry@
            &&& file.content matches Some(block)
            &&& first_signer(block) matches Ok(certificate)
            &&& fingerprint@ == hex_string(md5(certificate_der(certificate)))
        },
        Err(SignatureError::Archive) => false,
        Err(SignatureError::Entry { index }) => {
            &&& stops_at(entries, index as int)
            &&& opened(entries[index as int]) is None
        },
        Err(SignatureError::Content { index }) => {
            &&& stops_at(entries, index as int)
            &&& is_signature(entries[index as int])
            &&& opened(entries[index as int]) matches Some(file)
            &&& file.content is None
        },
        Err(SignatureError::Block { index, cause }) => {
            &&& stops_at(entries, index as int)
            &&& is_signature(entries[index as int])
            &&& opened(entries[index as int]) matches Some(file)
            &&& file.content matches Some(block)
            &&& may_fail_with(block, cause)
        },
    }
}

/// The entries of a package decide the result of the search, but for what
/// the OpenSSL library may refuse: two results for the same entries are both
/// `Missing`, or end at the same entry; where both are fingerprints they are
/// the same fingerprint of the same entry, and where both are `Entry` or
/// `Content` errors they are the same error.
pub proof fn lemma_lookup_determined(
    entries: Seq<EntryModel>,
    a: Result<SignatureLookup, SignatureError>,
    b: Result<SignatureLookup, SignatureError>,
)
    requires
        lookup_agrees(entries, a),
        lookup_agrees(entries, b),
    ensures
        a == Ok::<SignatureLookup, SignatureError>(SignatureLookup::Missing) <==> b == Ok::<
            SignatureLookup,
            SignatureError,
        >(SignatureLookup::Missing),
        stop_of(a) == stop_of(b),
        a is Ok && b is Ok ==> lookup_text(a->Ok_0) == lookup_text(b->Ok_0),
        a matches Ok(SignatureLookup::Found { entry: entry_a, .. }) ==> (b matches Ok(
            SignatureLookup::Found { entry: entry_b, .. },
        ) ==> entry_a@ == entry_b@),
        a matches Err(SignatureError::Entry { .. }) ==> b == a,
        a matches Err(SignatureError::Content { .. }) ==> b == a,
{
    if stop_of(a) is Some && stop_of(b) is Some {
        lemma_stop_unique(entries, stop_of(a)->0, stop_of(b)->0);
    }
}

/// The signature fingerprint of the package in `apk`.
///
/// The package is read as an archive and searched for its signature block;
/// the certificate of the block's first signer is digested with MD5, and the
/// digest is written in lowercase hexadecimal. `Archive` comes exactly where
/// the directory of the archive cannot be read; for a package whose
/// directory is read the result is the one that `lookup_agrees` describes.
pub fn package_signature(apk: Vec<u8>) -> (r: Result<SignatureLookup, SignatureError>)
    ensures
        match zip_directory(apk@) {
            None => r == Err::<SignatureLookup, SignatureError>(SignatureError::Archive),
            Some(entries) => lookup_agrees(entries, r),
        },
{
    let mut package = match Package::open(apk) {
        Some(package) => package,
        None => {
            return Err(SignatureError::Archive);
        },
    };
    let block = match find_signature_block(&mut package) {
        Ok(Some(block)) => block,
        Ok(None) => {
            return Ok(SignatureLookup::Missing);
        },
        Err(e) => {
            return Err(e);
        },
    };
    let digest = signer_digest(block.data.as_slice());
    conclude_lookup(block, digest)
}

} // verus!
