use vstd::prelude::*;
use vstd::string::*;
use ed25519_dalek::{Signature, SignatureError, VerifyingKey};
use sha2::{Digest, Sha256};
use crate::text::{char_is_space, chars_of, has_suffix, is_space, lemma_strip_leading_space, strip_leading_space, is_prefix, is_suffix, join2, join3, seq_eq, strip_leading, text_eq, trim_space, trim_start_char, trimmed};

verus! {

#[verifier::external_type_specification]
#[verifier::external_body]
pub struct ExVerifyingKey(VerifyingKey);

#[verifier::external_type_specification]
#[verifier::external_body]
pub struct ExSignature(Signature);

#[verifier::external_type_specification]
#[verifier::external_body]
pub struct ExSignatureError(SignatureError);

/// The SHA-256 digest of `data`, as `sha2::Sha256::digest` computes it.
pub uninterp spec fn sha256_digest(data: Seq<u8>) -> Seq<u8>;

/// Whether `ed25519_dalek::VerifyingKey::from_bytes` accepts these 32 bytes
/// (they decompress to a curve point).
pub uninterp spec fn ed25519_key_valid(key: Seq<u8>) -> bool;

/// Whether `ed25519_dalek::VerifyingKey::verify_strict` accepts the signature
/// `sig` of `msg` under the key whose compressed form is `key`.
pub uninterp spec fn ed25519_strict_accepts(key: Seq<u8>, msg: Seq<u8>, sig: Seq<u8>) -> bool;

/// A decompressed Ed25519 public key together with the bytes it was made from.
pub struct Ed25519Key {
    key: VerifyingKey,
    bytes: Vec<u8>,
}

impl Ed25519Key {
    pub closed spec fn key_bytes(&self) -> Seq<u8> {
        self.bytes@
    }
}

/// An Ed25519 signature together with its 64 bytes.
pub struct Ed25519Sig {
    sig: Signature,
    bytes: Vec<u8>,
}

impl Ed25519Sig {
    pub closed spec fn sig_bytes(&self) -> Seq<u8> {
        self.bytes@
    }
}

/// Calls `sha2::Sha256::digest`; the result is the 32-byte digest of `data`.
#[verifier::external_body]
fn sha256(data: &[u8]) -> (r: Vec<u8>)
    ensures
        r@ == sha256_digest(data@),
        r@.len() == 32,
{
    Sha256::digest(data).to_vec()
}

/// Calls `ed25519_dalek::VerifyingKey::from_bytes` on 32 bytes; it succeeds
/// exactly when the bytes decompress to a point, and the key keeps the bytes.
#[verifier::external_body]
fn verifying_key_from_bytes(bytes: &[u8]) -> (r: Result<Ed25519Key, SignatureError>)
    requires
        bytes@.len() == 32,
    ensures
        r is Ok == ed25519_key_valid(bytes@),
        r matches Ok(k) ==> k.key_bytes() == bytes@,
{
    let arr: [u8; 32] = bytes.try_into().unwrap();
    match VerifyingKey::from_bytes(&arr) {
        Ok(key) => Ok(Ed25519Key { key, bytes: bytes.to_vec() }),
        Err(e) => Err(e),
    }
}

/// Calls `ed25519_dalek::Signature::from_bytes` on 64 bytes, which never fails
/// and keeps the bytes.
#[verifier::external_body]
fn signature_from_bytes(bytes: &[u8]) -> (r: Ed25519Sig)
    requires
        bytes@.len() == 64,
    ensures
        r.sig_bytes() == bytes@,
{
    let arr: [u8; 64] = bytes.try_into().unwrap();
    Ed25519Sig { sig: Signature::from_bytes(&arr), bytes: bytes.to_vec() }
}

/// Calls `ed25519_dalek::VerifyingKey::verify_strict`.
#[verifier::external_body]
fn verify_strict(key: &Ed25519Key, msg: &[u8], sig: &Ed25519Sig) -> (r: Result<(), SignatureError>)
    ensures
        r is Ok == ed25519_strict_accepts(key.key_bytes(), msg@, sig.sig_bytes()),
{
    key.key.verify_strict(msg, &sig.sig)
}

/// Renders a `SignatureError` through its `Display` impl. Nothing is stated of
/// the text.
#[verifier::external_body]
fn signature_error_text(e: &SignatureError) -> String {
    e.to_string()
}

/// The lower-case hexadecimal digit for `n` (0..16).
pub open spec fn hex_digit(n: int) -> char {
    if n < 10 {
        ((48 + n) as char)
    } else {
        ((87 + n) as char)
    }
}

/// Lower-case hexadecimal rendering, two digits per byte, high nibble first.
pub open spec fn hex_lower(bytes: Seq<u8>) -> Seq<char> {
    Seq::new(
        2 * bytes.len(),
        |i: int|
            if i % 2 == 0 {
                hex_digit((bytes[i / 2] / 16) as int)
            } else {
                hex_digit((bytes[i / 2] % 16) as int)
            },
    )
}

/// ASCII upper-case letters mapped to lower case, everything else kept.
pub open spec fn ascii_lower(c: char) -> char {
    if 'A' <= c <= 'Z' {
        ((c as int + 32) as char)
    } else {
        c
    }
}

pub open spec fn lower_ascii(s: Seq<char>) -> Seq<char> {
    s.map_values(|c: char| ascii_lower(c))
}

fn hex_digit_str(n: u8) -> (r: &'static str)
    requires
        n < 16,
    ensures
        r@ == seq![hex_digit(n as int)],
{
    proof {
        reveal_strlit("0");
        reveal_strlit("1");
        reveal_strlit("2");
        reveal_strlit("3");
        reveal_strlit("4");
        reveal_strlit("5");
        reveal_strlit("6");
        reveal_strlit("7");
        reveal_strlit("8");
        reveal_strlit("9");
        reveal_strlit("a");
        reveal_strlit("b");
        reveal_strlit("c");
        reveal_strlit("d");
        reveal_strlit("e");
        reveal_strlit("f");
    }
    let r = match n {
        0 => "0",
        1 => "1",
        2 => "2",
        3 => "3",
        4 => "4",
        5 => "5",
        6 => "6",
        7 => "7",
        8 => "8",
        9 => "9",
        10 => "a",
        11 => "b",
        12 => "c",
        13 => "d",
        14 => "e",
        _ => "f",
    };
    assert(r@ =~= seq![hex_digit(n as int)]);
    r
}

/// Renders bytes as lower-case hexadecimal.
pub fn to_hex_lower(bytes: &[u8]) -> (r: String)
    ensures
        r@ == hex_lower(bytes@),
{
    let mut r = String::new();
    let n = bytes.len();
    let mut i: usize = 0;
    while i < n
        invariant
            n == bytes@.len(),
            i <= n,
            r@ == hex_lower(bytes@.take(i as int)),
        decreases n - i,
    {
        let b = bytes[i];
        r.append(hex_digit_str(b / 16));
        r.append(hex_digit_str(b % 16));
        proof {
            let prev = hex_lower(bytes@.take(i as int));
            let next = hex_lower(bytes@.take(i + 1));
            assert forall|k: int| 0 <= k < next.len() implies next[k] == (prev + seq![
                hex_digit((b / 16) as int),
                hex_digit((b % 16) as int),
            ])[k] by {
                if k < 2 * i {
                    assert(bytes@.take(i + 1)[k / 2] == bytes@.take(i as int)[k / 2]);
                }
            }
            assert(next =~= prev + seq![hex_digit((b / 16) as int), hex_digit((b % 16) as int)]);
        }
        i = i + 1;
    }
    assert(bytes@.take(n as int) =~= bytes@);
    r
}

fn lower_ascii_chars(s: &str) -> (r: Vec<char>)
    ensures
        r@ == lower_ascii(s@),
{
    let v = chars_of(s);
    let mut out: Vec<char> = Vec::new();
    let mut i: usize = 0;
    while i < v.len()
        invariant
            v@ == s@,
            i <= v@.len(),
            out@ == lower_ascii(s@.take(i as int)),
        decreases v.len() - i,
    {
        let c = v[i];
        let l = if 'A' <= c && c <= 'Z' {
            let code = (c as u32) + 32;
            let lc = char_from_ascii(code);
            lc
        } else {
            c
        };
        out.push(l);
        i = i + 1;
        assert(out@ =~= lower_ascii(s@.take(i as int)));
    }
    assert(s@.take(v@.len() as int) =~= s@);
    out
}

fn char_from_ascii(code: u32) -> (r: char)
    requires
        97 <= code <= 122,
    ensures
        r as int == code,
{
    let b: u8 = code as u8;
    b as char
}

/// Why an update could not be accepted.
pub enum OtaError {
    /// The public key is not 32 bytes long.
    InvalidKeyLength,
    /// The 32 bytes are no Ed25519 public key.
    InvalidPublicKey(SignatureError),
    /// The signature is not 64 bytes long.
    InvalidSignatureLength,
    /// Strict Ed25519 verification rejected the signature.
    SignatureRejected(SignatureError),
    /// The payload's SHA-256 digest differs from the expected one.
    ChecksumMismatch { computed: String, expected: String },
    /// The release offers no installable image.
    NoImageAsset,
    /// The release lacks the named signature or checksum file.
    MissingVerificationAsset(String),
}

impl OtaError {
    /// The human-readable report of the error.
    pub fn message(&self) -> (r: String)
        ensures
            self is InvalidKeyLength ==> r@ == "Invalid public key length (expected 32 bytes)"@,
            self is InvalidSignatureLength ==> r@
                == "Invalid signature length (expected 64 bytes)"@,
            self is InvalidPublicKey ==> is_prefix("Invalid Ed25519 public key: "@, r@),
            self is SignatureRejected ==> is_prefix("Signature verification FAILED: "@, r@),
            self matches OtaError::ChecksumMismatch { computed, expected } ==> r@
                == "SHA256 checksum mismatch! Computed: "@ + computed@ + ", Expected: "@
                + expected@,
            self is NoImageAsset ==> r@
                == "No suitable image asset (*.img.xz / *.img / *.ext2) found in release"@,
            self matches OtaError::MissingVerificationAsset(n) ==> r@
                == "Release lacks the verification file "@ + n@,
    {
        match self {
            OtaError::InvalidKeyLength => "Invalid public key length (expected 32 bytes)".to_owned(),
            OtaError::InvalidPublicKey(e) => {
                let t = signature_error_text(e);
                let r = join2("Invalid Ed25519 public key: ", t.as_str());
                proof {
                    assert(r@.take("Invalid Ed25519 public key: "@.len() as int) =~= "Invalid Ed25519 public key: "@);
                }
                r
            },
            OtaError::InvalidSignatureLength => "Invalid signature length (expected 64 bytes)".to_owned(),
            OtaError::SignatureRejected(e) => {
                let t = signature_error_text(e);
                let r = join2("Signature verification FAILED: ", t.as_str());
                proof {
                    assert(r@.take("Signature verification FAILED: "@.len() as int) =~= "Signature verification FAILED: "@);
                }
                r
            },
            OtaError::ChecksumMismatch { computed, expected } => {
                let mut r = join3("SHA256 checksum mismatch! Computed: ", computed.as_str(), ", Expected: ");
                r.append(expected.as_str());
                r
            },
            OtaError::NoImageAsset => "No suitable image asset (*.img.xz / *.img / *.ext2) found in release".to_owned(),
            OtaError::MissingVerificationAsset(n) => join2("Release lacks the verification file ", n.as_str()),
        }
    }
}

/// The outcome of checking a detached signature, before any error detail.
pub enum SignatureVerdict {
    BadKeyLength,
    BadKey,
    BadSignatureLength,
    Rejected,
    Accepted,
}

/// What checking `sig` over `payload` with the public key bytes `key` yields:
/// the key length, the key, the signature length and the signature are
/// checked in that order.
pub open spec fn signature_verdict(key: Seq<u8>, payload: Seq<u8>, sig: Seq<u8>) -> SignatureVerdict {
    if key.len() != 32 {
        SignatureVerdict::BadKeyLength
    } else if !ed25519_key_valid(key) {
        SignatureVerdict::BadKey
    } else if sig.len() != 64 {
        SignatureVerdict::BadSignatureLength
    } else if !ed25519_strict_accepts(key, payload, sig) {
        SignatureVerdict::Rejected
    } else {
        SignatureVerdict::Accepted
    }
}

/// Whether `r` is the result that `v` calls for.
pub open spec fn signature_result_matches<T>(r: Result<T, OtaError>, v: SignatureVerdict) -> bool {
    match v {
        SignatureVerdict::BadKeyLength => r matches Err(OtaError::InvalidKeyLength),
        SignatureVerdict::BadKey => r matches Err(OtaError::InvalidPublicKey(_)),
        SignatureVerdict::BadSignatureLength => r matches Err(OtaError::InvalidSignatureLength),
        SignatureVerdict::Rejected => r matches Err(OtaError::SignatureRejected(_)),
        SignatureVerdict::Accepted => r is Ok,
    }
}

/// Whether an expected hexadecimal digest names the digest of `payload`,
/// ignoring the case of its letters.
pub open spec fn checksum_matches(payload: Seq<u8>, expected_hex: Seq<char>) -> bool {
    lower_ascii(expected_hex) == hex_lower(sha256_digest(payload))
}

/// Whether a release asset name is an installable image.
pub open spec fn is_image_name(name: Seq<char>) -> bool {
    is_suffix(".img.xz"@, name) || is_suffix(".img"@, name) || is_suffix(".ext2"@, name)
}

/// A name ending in `.img.xz` (an xz-compressed image), `.img` or `.ext2`
/// names an installable image, and no other name does.
pub proof fn image_suffixes_are_installable(name: Seq<char>)
    ensures
        is_suffix(".img.xz"@, name) ==> is_image_name(name),
        is_suffix(".img"@, name) ==> is_image_name(name),
        is_suffix(".ext2"@, name) ==> is_image_name(name),
        is_image_name(name) ==> (is_suffix(".img.xz"@, name) || is_suffix(".img"@, name)
            || is_suffix(".ext2"@, name)),
{
}

/// Block device of A/B slot `a`.
pub const SLOT_A_DEV: &'static str = "/dev/mmcblk0p2";

/// Block device of A/B slot `b`.
pub const SLOT_B_DEV: &'static str = "/dev/mmcblk0p3";

/// Where the OTA Ed25519 public key is kept.
pub const PUBLIC_KEY_FILE: &'static str = "/etc/aegispanel/ota_pubkey.bin";

/// The slot an update is written to: `b` when `a` runs, `a` otherwise.
pub open spec fn inactive_slot_of(current: Seq<char>) -> Seq<char> {
    if current == "a"@ {
        "b"@
    } else {
        "a"@
    }
}

/// The block device of a slot: slot `a` has its own, every other name maps
/// to slot `b`'s.
pub open spec fn slot_device_of(slot: Seq<char>) -> Seq<char> {
    if slot == "a"@ {
        SLOT_A_DEV@
    } else {
        SLOT_B_DEV@
    }
}

/// An update is never written over the running slot: the target slot differs
/// from the running one, and for the two real slots so do their devices.
pub proof fn update_never_targets_running_slot(current: Seq<char>)
    ensures
        inactive_slot_of(current) != current,
        (current == "a"@ || current == "b"@) ==> slot_device_of(inactive_slot_of(current))
            != slot_device_of(current),
{
    reveal_strlit("a");
    reveal_strlit("b");
    reveal_strlit("/dev/mmcblk0p2");
    reveal_strlit("/dev/mmcblk0p3");
    assert("a"@[0] != "b"@[0]);
    assert(SLOT_A_DEV@[13] != SLOT_B_DEV@[13]);
}

/// Whether a payload may be installed: its signature is accepted under the
/// key and its digest is the expected one.
pub open spec fn install_allowed(key: Seq<u8>, payload: Seq<u8>, sig: Seq<u8>, expected_hex: Seq<char>) -> bool {
    signature_verdict(key, payload, sig) is Accepted && checksum_matches(payload, expected_hex)
}

/// The suffix of the detached signature file published beside an image.
pub const SIGNATURE_SUFFIX: &'static str = ".sig";

/// The suffix of the checksum file published beside an image.
pub const CHECKSUM_SUFFIX: &'static str = ".sha256";

/// Where a checked update is written. Made only by
/// [`OtaManager::plan_install`], after the signature and the digest passed.
pub struct InstallPlan {
    slot: String,
    device: String,
    key: Ghost<Seq<u8>>,
    payload: Ghost<Seq<u8>>,
    signature: Ghost<Seq<u8>>,
    expected_hex: Ghost<Seq<char>>,
}

impl InstallPlan {
    /// A plan exists only for a payload that passed both checks.
    #[verifier::type_invariant]
    pub(crate) open spec fn checked(self) -> bool {
        self.passed_checks()
    }

    /// The public key bytes the payload was checked under.
    pub closed spec fn checked_key(&self) -> Seq<u8> {
        self.key@
    }

    /// The payload bytes that were checked.
    pub closed spec fn checked_payload(&self) -> Seq<u8> {
        self.payload@
    }

    /// The detached signature that was accepted.
    pub closed spec fn checked_signature(&self) -> Seq<u8> {
        self.signature@
    }

    /// The expected digest that the payload matched.
    pub closed spec fn checked_digest(&self) -> Seq<char> {
        self.expected_hex@
    }

    /// Whether the plan was made for a payload that passed both checks.
    pub open spec fn passed_checks(&self) -> bool {
        install_allowed(self.checked_key(), self.checked_payload(), self.checked_signature(), self.checked_digest())
    }

    pub closed spec fn spec_slot(&self) -> Seq<char> {
        self.slot@
    }

    pub closed spec fn spec_device(&self) -> Seq<char> {
        self.device@
    }

    /// The slot to write and to try-boot next.
    pub fn slot(&self) -> (r: &str)
        ensures
            r@ == self.spec_slot(),
    {
        self.slot.as_str()
    }

    /// The block device of that slot.
    pub fn device(&self) -> (r: &str)
        ensures
            r@ == self.spec_device(),
    {
        self.device.as_str()
    }
}

/// `s` up to its first whitespace.
pub open spec fn leading_word(s: Seq<char>) -> Seq<char>
    decreases s.len(),
{
    if s.len() == 0 || is_space(s[0]) {
        Seq::empty()
    } else {
        seq![s[0]] + leading_word(s.drop_first())
    }
}

/// The first whitespace-separated word of `s`.
pub open spec fn first_word(s: Seq<char>) -> Seq<char> {
    leading_word(strip_leading_space(s))
}

proof fn lemma_leading_word(s: Seq<char>, k: int)
    requires
        0 <= k <= s.len(),
        forall|j: int| 0 <= j < k ==> !is_space(s[j]),
        k == s.len() || is_space(s[k]),
    ensures
        leading_word(s) == s.take(k),
    decreases k,
{
    if k > 0 {
        lemma_leading_word(s.drop_first(), k - 1);
        assert(seq![s[0]] + s.drop_first().take(k - 1) =~= s.take(k));
    } else {
        assert(s.take(0) =~= Seq::<char>::empty());
    }
}

fn first_word_of(s: &str) -> (r: &str)
    ensures
        r@ == first_word(s@),
{
    let v = chars_of(s);
    let n = v.len();
    let mut i: usize = 0;
    while i < n && char_is_space(v[i])
        invariant
            n == v@.len(),
            v@ == s@,
            i <= n,
            forall|k: int| 0 <= k < i ==> is_space(v@[k]),
        decreases n - i,
    {
        i = i + 1;
    }
    proof {
        lemma_strip_leading_space(s@, i as int);
    }
    let mut j: usize = i;
    while j < n && !char_is_space(v[j])
        invariant
            n == v@.len(),
            v@ == s@,
            i <= j <= n,
            forall|k: int| i <= k < j ==> !is_space(v@[k]),
        decreases n - j,
    {
        j = j + 1;
    }
    proof {
        let t = s@.skip(i as int);
        assert forall|k: int| 0 <= k < j - i implies !is_space(t[k]) by {
            assert(t[k] == s@[k + i]);
        }
        if j < n {
            assert(t[j - i] == s@[j as int]);
        }
        lemma_leading_word(t, j - i);
        assert(t.take(j - i) =~= s@.subrange(i as int, j as int));
    }
    s.substring_char(i, j)
}

/// The index of the first asset called `name`.
pub open spec fn first_named(assets: Seq<GitHubAsset>, name: Seq<char>) -> Option<int> {
    if exists|i: int| 0 <= i < assets.len() && assets[i].name@ == name {
        Some(choose|i: int| 0 <= i < assets.len() && assets[i].name@ == name && forall|k: int| 0 <= k < i ==> assets[k].name@ != name)
    } else {
        None
    }
}

fn find_asset(assets: &Vec<GitHubAsset>, name: &str) -> (r: Option<usize>)
    ensures
        r matches Some(i) ==> first_named(assets@, name@) == Some(i as int),
        r is None ==> first_named(assets@, name@) is None,
{
    let n = assets.len();
    let mut i: usize = 0;
    while i < n
        invariant
            n == assets@.len(),
            i <= n,
            forall|k: int| 0 <= k < i ==> #[trigger] assets@[k].name@ != name@,
        decreases n - i,
    {
        if text_eq(assets[i].name.as_str(), name) {
            let ghost w = i as int;
            assert(0 <= w < assets@.len() && assets@[w].name@ == name@ && forall|k: int| 0 <= k < w ==> assets@[k].name@ != name@);
            proof {
                let c = choose|j: int| 0 <= j < assets@.len() && assets@[j].name@ == name@ && forall|k: int| 0 <= k < j ==> assets@[k].name@ != name@;
                if c < w {
                    assert(assets@[c].name@ != name@);
                } else if c > w {
                    assert(assets@[w].name@ != name@);
                }
            }
            return Some(i);
        }
        i = i + 1;
    }
    None
}

#[derive(Debug, Clone)]
pub struct GitHubAsset {
    pub name: String,
    pub browser_download_url: String,
    pub size: u64,
}

#[derive(Debug, Clone)]
pub struct GitHubReleaseInfo {
    pub tag_name: String,
    pub name: Option<String>,
    pub body: Option<String>,
    pub assets: Vec<GitHubAsset>,
}

/// Verifies signed A/B update payloads and plans their installation.
pub struct OtaManager {
    pub_key_path: String,
}

impl OtaManager {
    pub fn new(pub_key_path: String) -> (r: Self)
        ensures
            r.spec_pub_key_path() == pub_key_path@,
    {
        OtaManager { pub_key_path }
    }

    pub closed spec fn spec_pub_key_path(&self) -> Seq<char> {
        self.pub_key_path@
    }

    /// The file the public key is read from.
    pub fn pub_key_path(&self) -> (r: &str)
        ensures
            r@ == self.spec_pub_key_path(),
    {
        self.pub_key_path.as_str()
    }

    /// Checks the detached Ed25519 signature of `payload_bytes` against the
    /// public key `key_bytes` (the contents of the key file at
    /// [`Self::pub_key_path`]).
    pub fn verify_signature(&self, key_bytes: &[u8], payload_bytes: &[u8], signature_bytes: &[u8]) -> (r: Result<(), OtaError>)
        ensures
            signature_result_matches(r, signature_verdict(key_bytes@, payload_bytes@, signature_bytes@)),
    {
        if key_bytes.len() != 32 {
            return Err(OtaError::InvalidKeyLength);
        }
        let key = match verifying_key_from_bytes(key_bytes) {
            Ok(k) => k,
            Err(e) => {
                return Err(OtaError::InvalidPublicKey(e));
            },
        };
        if signature_bytes.len() != 64 {
            return Err(OtaError::InvalidSignatureLength);
        }
        let sig = signature_from_bytes(signature_bytes);
        match verify_strict(&key, payload_bytes, &sig) {
            Ok(()) => Ok(()),
            Err(e) => Err(OtaError::SignatureRejected(e)),
        }
    }

    /// Compares the SHA-256 digest of the payload with an expected hexadecimal
    /// digest, ignoring letter case.
    pub fn verify_sha256(&self, payload_bytes: &[u8], expected_hex_hash: &str) -> (r: Result<(), OtaError>)
        ensures
            r is Ok <==> checksum_matches(payload_bytes@, expected_hex_hash@),
            r matches Err(e) ==> (e matches OtaError::ChecksumMismatch { computed, expected }
                && computed@ == hex_lower(sha256_digest(payload_bytes@)) && expected@
                == expected_hex_hash@),
    {
        let digest = sha256(payload_bytes);
        let computed = to_hex_lower(digest.as_slice());
        let vc = chars_of(computed.as_str());
        let ve = lower_ascii_chars(expected_hex_hash);
        if seq_eq(&vc, &ve) {
            Ok(())
        } else {
            Err(OtaError::ChecksumMismatch { computed, expected: expected_hex_hash.to_owned() })
        }
    }

    /// The slot that an update is flashed into while `current_slot` runs.
    pub fn inactive_slot(current_slot: &str) -> (r: String)
        ensures
            r@ == inactive_slot_of(current_slot@),
    {
        if text_eq(current_slot, "a") {
            "b".to_owned()
        } else {
            "a".to_owned()
        }
    }

    /// The block device that holds `slot`: slot `a` has its own device, every
    /// other name maps to slot `b`'s.
    pub fn slot_device(slot: &str) -> (r: String)
        ensures
            r@ == slot_device_of(slot@),
    {
        if text_eq(slot, "a") {
            SLOT_A_DEV.to_owned()
        } else {
            SLOT_B_DEV.to_owned()
        }
    }

    /// Checks a downloaded payload before anything is written: its Ed25519
    /// signature under the panel's public key first, then its SHA-256 digest.
    /// Only a payload that passes both yields a plan, which names the slot
    /// that is not running and its device.
    pub fn plan_install(
        &self,
        key_bytes: &[u8],
        payload_bytes: &[u8],
        signature_bytes: &[u8],
        expected_hex_hash: &str,
        current_slot: &str,
    ) -> (r: Result<InstallPlan, OtaError>)
        ensures
            r is Ok <==> install_allowed(key_bytes@, payload_bytes@, signature_bytes@, expected_hex_hash@),
            r matches Ok(p) ==> p.spec_slot() == inactive_slot_of(current_slot@) && p.spec_device()
                == slot_device_of(inactive_slot_of(current_slot@)) && p.checked_key() == key_bytes@
                && p.checked_payload() == payload_bytes@ && p.checked_signature() == signature_bytes@
                && p.checked_digest() == expected_hex_hash@,
            !(signature_verdict(key_bytes@, payload_bytes@, signature_bytes@) is Accepted)
                ==> signature_result_matches(r, signature_verdict(key_bytes@, payload_bytes@, signature_bytes@)),
            signature_verdict(key_bytes@, payload_bytes@, signature_bytes@) is Accepted ==> (r matches Err(
                e,
            ) ==> (e matches OtaError::ChecksumMismatch { computed, expected } && computed@
                == hex_lower(sha256_digest(payload_bytes@)) && expected@ == expected_hex_hash@)),
    {
        match self.verify_signature(key_bytes, payload_bytes, signature_bytes) {
            Ok(()) => {},
            Err(e) => {
                return Err(e);
            },
        }
        match self.verify_sha256(payload_bytes, expected_hex_hash) {
            Ok(()) => {},
            Err(e) => {
                return Err(e);
            },
        }
        let slot = Self::inactive_slot(current_slot);
        let device = Self::slot_device(slot.as_str());
        Ok(
            InstallPlan {
                slot,
                device,
                key: Ghost(key_bytes@),
                payload: Ghost(payload_bytes@),
                signature: Ghost(signature_bytes@),
                expected_hex: Ghost(expected_hex_hash@),
            },
        )
    }

    /// The `dd` arguments that copy `image_path` onto the planned slot's
    /// device. Only a checked payload has a plan.
    pub fn flash_command_args(plan: &InstallPlan, image_path: &str) -> (r: Vec<String>)
        ensures
            r@.len() == 5,
            r@[0]@ == "if="@ + image_path@,
            r@[1]@ == "of="@ + plan.spec_device(),
            r@[2]@ == "bs=4M"@,
            r@[3]@ == "status=progress"@,
            r@[4]@ == "conv=fsync"@,
            plan.passed_checks(),
    {
        proof {
            use_type_invariant(plan);
        }
        let mut r: Vec<String> = Vec::new();
        r.push(join2("if=", image_path));
        r.push(join2("of=", plan.device.as_str()));
        r.push("bs=4M".to_owned());
        r.push("status=progress".to_owned());
        r.push("conv=fsync".to_owned());
        r
    }

    /// The indices of the signature (`<image>.sig`) and checksum
    /// (`<image>.sha256`) assets that accompany the image asset `image`.
    pub fn verification_assets(release: &GitHubReleaseInfo, image: usize) -> (r: Result<(usize, usize), OtaError>)
        requires
            image < release.assets@.len(),
        ensures
            ({
                let name = release.assets@[image as int].name@;
                &&& r matches Ok((s, c)) ==> first_named(release.assets@, name + SIGNATURE_SUFFIX@)
                    == Some(s as int) && first_named(release.assets@, name + CHECKSUM_SUFFIX@)
                    == Some(c as int)
                &&& r is Err ==> (r matches Err(OtaError::MissingVerificationAsset(m)) && (if first_named(
                    release.assets@,
                    name + SIGNATURE_SUFFIX@,
                ) is None {
                    m@ == name + SIGNATURE_SUFFIX@
                } else {
                    first_named(release.assets@, name + CHECKSUM_SUFFIX@) is None && m@ == name
                        + CHECKSUM_SUFFIX@
                }))
            }),
    {
        let sig_name = join2(release.assets[image].name.as_str(), SIGNATURE_SUFFIX);
        let sum_name = join2(release.assets[image].name.as_str(), CHECKSUM_SUFFIX);
        let s = match find_asset(&release.assets, sig_name.as_str()) {
            Some(i) => i,
            None => {
                return Err(OtaError::MissingVerificationAsset(sig_name));
            },
        };
        let c = match find_asset(&release.assets, sum_name.as_str()) {
            Some(i) => i,
            None => {
                return Err(OtaError::MissingVerificationAsset(sum_name));
            },
        };
        Ok((s, c))
    }

    /// The address of a verification file published beside an asset.
    pub fn companion_url(asset_url: &str, suffix: &str) -> (r: String)
        ensures
            r@ == asset_url@ + suffix@,
    {
        join2(asset_url, suffix)
    }

    /// The expected digest in a checksum file: its first word, as
    /// `sha256sum` writes it (`<hex>  <file name>`).
    pub fn expected_checksum(file_text: &str) -> (r: &str)
        ensures
            r@ == first_word(file_text@),
    {
        first_word_of(file_text)
    }

    /// The first release asset whose name marks an installable image.
    pub fn select_image_asset(release: &GitHubReleaseInfo) -> (r: Result<usize, OtaError>)
        ensures
            r matches Ok(i) ==> i < release.assets@.len() && is_image_name(
                release.assets@[i as int].name@,
            ) && forall|k: int| 0 <= k < i ==> !is_image_name(#[trigger] release.assets@[k].name@),
            r is Err ==> (r matches Err(OtaError::NoImageAsset)) && forall|k: int|
                0 <= k < release.assets@.len() ==> !is_image_name(#[trigger] release.assets@[k].name@),
            forall|k: int|
                0 <= k < release.assets@.len() && (is_suffix(
                    ".img.xz"@,
                    #[trigger] release.assets@[k].name@,
                ) || is_suffix(".img"@, release.assets@[k].name@) || is_suffix(
                    ".ext2"@,
                    release.assets@[k].name@,
                )) ==> (r matches Ok(i) && i <= k),
    {
        proof {
            assert forall|k: int|
                0 <= k < release.assets@.len() && (is_suffix(
                    ".img.xz"@,
                    #[trigger] release.assets@[k].name@,
                ) || is_suffix(".img"@, release.assets@[k].name@) || is_suffix(
                    ".ext2"@,
                    release.assets@[k].name@,
                )) implies is_image_name(release.assets@[k].name@) by {
                image_suffixes_are_installable(release.assets@[k].name@);
            }
        }
        let n = release.assets.len();
        let mut i: usize = 0;
        while i < n
            invariant
                n == release.assets@.len(),
                i <= n,
                forall|k: int| 0 <= k < i ==> !is_image_name(#[trigger] release.assets@[k].name@),
            decreases n - i,
        {
            let name = release.assets[i].name.as_str();
            if has_suffix(name, ".img.xz") || has_suffix(name, ".img") || has_suffix(name, ".ext2") {
                return Ok(i);
            }
            i = i + 1;
        }
        Err(OtaError::NoImageAsset)
    }

    /// Whether a downloaded asset must be decompressed with `xz` first.
    pub fn needs_decompression(asset_name: &str) -> (r: bool)
        ensures
            r == is_suffix(".xz"@, asset_name@),
    {
        has_suffix(asset_name, ".xz")
    }

    /// The GitHub API address of the latest release of `repo`, or `None` when
    /// the repository name is blank.
    pub fn latest_release_url(repo: &str) -> (r: Option<String>)
        ensures
            trimmed(repo@).len() == 0 ==> r is None,
            trimmed(repo@).len() != 0 ==> (r matches Some(u) && u@
                == "https://api.github.com/repos/"@ + trimmed(repo@) + "/releases/latest"@),
    {
        let t = trim_space(repo);
        if t.unicode_len() == 0 {
            None
        } else {
            Some(join3("https://api.github.com/repos/", t, "/releases/latest"))
        }
    }

    /// The `Authorization` header value for an optional access token; a blank
    /// token sends none.
    pub fn bearer_header(token: Option<&str>) -> (r: Option<String>)
        ensures
            match token {
                None => r is None,
                Some(t) => if trimmed(t@).len() == 0 {
                    r is None
                } else {
                    (r matches Some(h) && h@ == "Bearer "@ + trimmed(t@))
                },
            },
    {
        match token {
            None => None,
            Some(t) => {
                let tt = trim_space(t);
                if tt.unicode_len() == 0 {
                    None
                } else {
                    Some(join2("Bearer ", tt))
                }
            },
        }
    }

    /// Whether a release tag names another version than the running one; a
    /// leading `v` on either side is ignored.
    pub fn is_new_release(tag_name: &str, current_version: &str) -> (r: bool)
        ensures
            r == (strip_leading(tag_name@, 'v') != strip_leading(current_version@, 'v')),
    {
        let remote = trim_start_char(tag_name, 'v');
        let local = trim_start_char(current_version, 'v');
        !text_eq(remote, local)
    }

    /// The release to offer, given the latest release on GitHub: `None` when
    /// it is the running version.
    pub fn evaluate_release(release: GitHubReleaseInfo, current_version: &str) -> (r: Option<GitHubReleaseInfo>)
        ensures
            strip_leading(release.tag_name@, 'v') != strip_leading(current_version@, 'v') ==> r
                == Some(release),
            strip_leading(release.tag_name@, 'v') == strip_leading(current_version@, 'v') ==> r is None,
    {
        if Self::is_new_release(release.tag_name.as_str(), current_version) {
            Some(release)
        } else {
            None
        }
    }
}

} // verus!
