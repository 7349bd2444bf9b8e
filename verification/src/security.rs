//! The security layer: levels and the sandbox policy of each, process
//! isolation, secret vaults (with the sealed-payload format of the software
//! vault), the post-quantum key exchange and the privacy guard.

use vstd::prelude::*;
use aes_gcm::aead::{Aead, KeyInit};
use pqcrypto_traits::kem::{Ciphertext, PublicKey, SecretKey, SharedSecret};
use rand::RngCore;

verus! {

/// How strictly pages are confined.
#[derive(Debug, Clone, Copy, PartialEq, Eq, Structural)]
pub enum SecurityLevel {
    Standard,
    Strict,
    /// Whitelist only, no JavaScript by default.
    Paranoid,
}

/// What pages may do.
#[derive(Debug, Clone, Copy, PartialEq, Eq, Structural)]
pub struct SandboxPolicy {
    pub level: SecurityLevel,
    pub allow_javascript: bool,
    pub allow_webgl: bool,
    pub allow_cookies: bool,
    pub enforce_https: bool,
}

/// The policy of each level: Standard allows everything but plain HTTP;
/// Strict also drops WebGL and persistent cookies; Paranoid also drops
/// JavaScript.
pub open spec fn policy_spec(level: SecurityLevel) -> SandboxPolicy {
    match level {
        SecurityLevel::Standard => SandboxPolicy {
            level,
            allow_javascript: true,
            allow_webgl: true,
            allow_cookies: true,
            enforce_https: true,
        },
        SecurityLevel::Strict => SandboxPolicy {
            level,
            allow_javascript: true,
            allow_webgl: false,
            allow_cookies: false,
            enforce_https: true,
        },
        SecurityLevel::Paranoid => SandboxPolicy {
            level,
            allow_javascript: false,
            allow_webgl: false,
            allow_cookies: false,
            enforce_https: true,
        },
    }
}

impl Default for SandboxPolicy {
    /// The Standard policy.
    fn default() -> (r: Self)
        ensures
            r == policy_spec(SecurityLevel::Standard),
    {
        SandboxPolicy {
            level: SecurityLevel::Standard,
            allow_javascript: true,
            allow_webgl: true,
            allow_cookies: true,
            enforce_https: true,
        }
    }
}

/// The warning given for a policy that lets plain HTTP through.
pub const HTTPS_WARNING: &'static str = "WARNING: HTTPS not enforced. High risk.";

/// The note given for a policy that allows WebGL.
pub const WEBGL_NOTE: &'static str = "NOTE: WebGL enabled. Fingerprinting risk present.";

impl SandboxPolicy {
    /// The Strict policy.
    pub fn strict() -> (r: Self)
        ensures
            r == policy_spec(SecurityLevel::Strict),
    {
        SandboxPolicy {
            level: SecurityLevel::Strict,
            allow_javascript: true,
            allow_webgl: false,
            allow_cookies: false,
            enforce_https: true,
        }
    }

    /// The Paranoid policy.
    pub fn paranoid() -> (r: Self)
        ensures
            r == policy_spec(SecurityLevel::Paranoid),
    {
        SandboxPolicy {
            level: SecurityLevel::Paranoid,
            allow_javascript: false,
            allow_webgl: false,
            allow_cookies: false,
            enforce_https: true,
        }
    }

    /// The findings of an audit of this policy, in order: the HTTPS warning
    /// when HTTPS is not enforced, the WebGL note when WebGL is allowed.
    pub fn audit(&self) -> (notes: Vec<String>)
        ensures
            notes@.map_values(|s: String| s@) == (if self.enforce_https { seq![] } else { seq![HTTPS_WARNING@] })
                + (if self.allow_webgl { seq![WEBGL_NOTE@] } else { seq![] }),
    {
        let mut notes: Vec<String> = Vec::new();
        if !self.enforce_https {
            notes.push(String::from_str(HTTPS_WARNING));
        }
        if self.allow_webgl {
            notes.push(String::from_str(WEBGL_NOTE));
        }
        assert(notes@.map_values(|s: String| s@) =~= (if self.enforce_https { seq![] } else { seq![HTTPS_WARNING@] })
            + (if self.allow_webgl { seq![WEBGL_NOTE@] } else { seq![] }));
        notes
    }
}

/// The policy of a level (see `policy_spec`).
pub fn policy_for(level: SecurityLevel) -> (p: SandboxPolicy)
    ensures
        p == policy_spec(level),
{
    match level {
        SecurityLevel::Standard => SandboxPolicy::default(),
        SecurityLevel::Strict => SandboxPolicy::strict(),
        SecurityLevel::Paranoid => SandboxPolicy::paranoid(),
    }
}

/// The level a stored level name stands for: `Strict` and `Paranoid` by
/// name, anything else Standard.
pub fn level_named(name: &str) -> (l: SecurityLevel)
    ensures
        l == (if name@ == "Strict"@ {
            SecurityLevel::Strict
        } else if name@ == "Paranoid"@ {
            SecurityLevel::Paranoid
        } else {
            SecurityLevel::Standard
        }),
{
    let n = crate::text::chars_of(name);
    if crate::query::chars_eq(&n, &crate::text::chars_of("Strict")) {
        SecurityLevel::Strict
    } else if crate::query::chars_eq(&n, &crate::text::chars_of("Paranoid")) {
        SecurityLevel::Paranoid
    } else {
        SecurityLevel::Standard
    }
}

/// The kind of process being confined.
#[derive(Debug, Clone, Copy, PartialEq, Eq, Structural)]
pub enum ProcessType {
    Main,
    Renderer,
    Network,
    Plugin,
}

/// Process confinement.
pub trait Sandbox {
    /// Whether this sandbox accepts the profile of `process_type`.
    spec fn accepts_profile(&self, process_type: ProcessType) -> bool;

    fn isolate(&self, process_type: ProcessType) -> (r: Result<(), String>)
        ensures
            r is Ok <==> self.accepts_profile(process_type),
    ;

    fn restrict_filesystem(&self, allowed_paths: Vec<String>) -> Result<(), String>;

    fn restrict_network(&self) -> Result<(), String>;
}

/// Landlock profiles.
pub struct LinuxSandbox;

/// AppContainer and Job Object profiles.
pub struct WindowsSandbox;

/// Seatbelt profiles.
pub struct MacSandbox;

impl Sandbox for LinuxSandbox {
    /// Every profile is accepted.
    open spec fn accepts_profile(&self, process_type: ProcessType) -> bool {
        true
    }

    fn isolate(&self, process_type: ProcessType) -> (r: Result<(), String>)
        ensures
            r is Ok,
    {
        Ok(())
    }

    fn restrict_filesystem(&self, allowed_paths: Vec<String>) -> (r: Result<(), String>)
        ensures
            r is Ok,
    {
        Ok(())
    }

    fn restrict_network(&self) -> (r: Result<(), String>)
        ensures
            r is Ok,
    {
        Ok(())
    }
}

impl Sandbox for WindowsSandbox {
    /// Every profile is accepted.
    open spec fn accepts_profile(&self, process_type: ProcessType) -> bool {
        true
    }

    fn isolate(&self, process_type: ProcessType) -> (r: Result<(), String>)
        ensures
            r is Ok,
    {
        Ok(())
    }

    fn restrict_filesystem(&self, allowed_paths: Vec<String>) -> (r: Result<(), String>)
        ensures
            r is Ok,
    {
        Ok(())
    }

    fn restrict_network(&self) -> (r: Result<(), String>)
        ensures
            r is Ok,
    {
        Ok(())
    }
}

impl Sandbox for MacSandbox {
    /// Every profile is accepted.
    open spec fn accepts_profile(&self, process_type: ProcessType) -> bool {
        true
    }

    fn isolate(&self, process_type: ProcessType) -> (r: Result<(), String>)
        ensures
            r is Ok,
    {
        Ok(())
    }

    fn restrict_filesystem(&self, allowed_paths: Vec<String>) -> (r: Result<(), String>)
        ensures
            r is Ok,
    {
        Ok(())
    }

    fn restrict_network(&self) -> (r: Result<(), String>)
        ensures
            r is Ok,
    {
        Ok(())
    }
}

/// The sandbox of one system.
pub enum PlatformSandbox {
    Linux(LinuxSandbox),
    Windows(WindowsSandbox),
    Mac(MacSandbox),
}

impl Sandbox for PlatformSandbox {
    /// Every profile is accepted.
    open spec fn accepts_profile(&self, process_type: ProcessType) -> bool {
        true
    }

    fn isolate(&self, process_type: ProcessType) -> (r: Result<(), String>)
        ensures
            r is Ok,
    {
        match self {
            PlatformSandbox::Linux(s) => s.isolate(process_type),
            PlatformSandbox::Windows(s) => s.isolate(process_type),
            PlatformSandbox::Mac(s) => s.isolate(process_type),
        }
    }

    fn restrict_filesystem(&self, allowed_paths: Vec<String>) -> (r: Result<(), String>)
        ensures
            r is Ok,
    {
        match self {
            PlatformSandbox::Linux(s) => s.restrict_filesystem(allowed_paths),
            PlatformSandbox::Windows(s) => s.restrict_filesystem(allowed_paths),
            PlatformSandbox::Mac(s) => s.restrict_filesystem(allowed_paths),
        }
    }

    fn restrict_network(&self) -> (r: Result<(), String>)
        ensures
            r is Ok,
    {
        match self {
            PlatformSandbox::Linux(s) => s.restrict_network(),
            PlatformSandbox::Windows(s) => s.restrict_network(),
            PlatformSandbox::Mac(s) => s.restrict_network(),
        }
    }
}

/// The sandbox of the system the browser runs on: Landlock on Linux,
/// AppContainer and Job Objects on Windows, Seatbelt on macOS.
pub fn get_platform_sandbox(os: crate::pt::TargetOs) -> (r: PlatformSandbox)
    ensures
        os == crate::pt::TargetOs::Linux ==> r is Linux,
        os == crate::pt::TargetOs::Windows ==> r is Windows,
        os == crate::pt::TargetOs::MacArm || os == crate::pt::TargetOs::MacIntel ==> r is Mac,
        forall|p: ProcessType| #[trigger] r.accepts_profile(p),
{
    match os {
        crate::pt::TargetOs::Linux => PlatformSandbox::Linux(LinuxSandbox),
        crate::pt::TargetOs::Windows => PlatformSandbox::Windows(WindowsSandbox),
        _ => PlatformSandbox::Mac(MacSandbox),
    }
}

/// The Job Object step of hardening. The Job Object limits exist only on
/// Windows, whose system crate this build does not carry, so this step
/// applies nothing and succeeds, as it does on every other system.
pub fn apply_job_object() -> (r: Result<(), String>)
    ensures
        r is Ok,
{
    Ok(())
}

/// Secret storage.
pub trait Vault {
    fn store_secret(&self, key: &str, value: Vec<u8>) -> Result<(), String>;

    fn get_secret(&self, key: &str) -> Result<Vec<u8>, String>;
}

/// A hardware vault, which this build does not offer.
pub struct HsmVault;

/// Why the hardware vault refuses every request.
pub const HSM_UNAVAILABLE: &'static str = "HSM vault is not available in this build (no PKCS#11). Use SoftwareVault.";

impl Vault for HsmVault {
    fn store_secret(&self, key: &str, value: Vec<u8>) -> (r: Result<(), String>)
        ensures
            r matches Err(e) && e@ == HSM_UNAVAILABLE@,
    {
        Err(String::from_str(HSM_UNAVAILABLE))
    }

    fn get_secret(&self, key: &str) -> (r: Result<Vec<u8>, String>)
        ensures
            r matches Err(e) && e@ == HSM_UNAVAILABLE@,
    {
        Err(String::from_str(HSM_UNAVAILABLE))
    }
}

/// The name for the AES-256-GCM encryption of `plaintext` under `key` and
/// `nonce` (no associated data), or `None` when it fails.
pub uninterp spec fn gcm_seal(key: Seq<u8>, nonce: Seq<u8>, plaintext: Seq<u8>) -> Option<Seq<u8>>;

/// The name for the AES-256-GCM decryption of `ciphertext`, or `None` when
/// it does not authenticate.
pub uninterp spec fn gcm_open(key: Seq<u8>, nonce: Seq<u8>, ciphertext: Seq<u8>) -> Option<Seq<u8>>;

pub open spec fn opt_bytes(o: Option<Vec<u8>>) -> Option<Seq<u8>> {
    match o {
        Some(v) => Some(v@),
        None => None,
    }
}

/// `Aes256Gcm::encrypt` with the given key and nonce: named `gcm_seal`.
/// The ciphertext is the plaintext's length plus the 16-byte tag that
/// `aead` appends.
#[verifier::external_body]
fn aes_gcm_encrypt(key: &[u8; 32], nonce: &[u8; 12], plaintext: &[u8]) -> (r: Option<Vec<u8>>)
    ensures
        opt_bytes(r) == gcm_seal(key@, nonce@, plaintext@),
        r matches Some(c) ==> c@.len() == plaintext@.len() + 16,
{
    let cipher = aes_gcm::Aes256Gcm::new(aes_gcm::Key::<aes_gcm::Aes256Gcm>::from_slice(key));
    cipher.encrypt(aes_gcm::Nonce::from_slice(nonce), plaintext).ok()
}

/// `Aes256Gcm::decrypt` with the given key and 12-byte nonce: named
/// `gcm_open`; a ciphertext that `encrypt` made from a plaintext under the
/// same key and nonce decrypts to that plaintext.
#[verifier::external_body]
fn aes_gcm_decrypt(key: &[u8; 32], nonce: &[u8], ciphertext: &[u8]) -> (r: Option<Vec<u8>>)
    requires
        nonce@.len() == 12,
    ensures
        opt_bytes(r) == gcm_open(key@, nonce@, ciphertext@),
        forall|p: Seq<u8>| #[trigger] gcm_seal(key@, nonce@, p) == Some(ciphertext@) ==> opt_bytes(r) == Some(p),
{
    let cipher = aes_gcm::Aes256Gcm::new(aes_gcm::Key::<aes_gcm::Aes256Gcm>::from_slice(key));
    cipher.decrypt(aes_gcm::Nonce::from_slice(nonce), ciphertext).ok()
}

/// `ThreadRng::fill_bytes`: fills `buf` from the thread-local generator of
/// `rand`. Nothing is promised of the bytes.
#[verifier::external_body]
pub(crate) fn thread_rng_fill(buf: &mut [u8])
    ensures
        final(buf)@.len() == old(buf)@.len(),
{
    rand::thread_rng().fill_bytes(buf)
}

/// Twelve random bytes from the thread-local generator.
pub(crate) fn random_nonce() -> (n: [u8; 12]) {
    let mut n = [0u8; 12];
    thread_rng_fill(&mut n);
    n
}

/// The text of the AEAD error.
pub const AEAD_ERROR: &'static str = "aead::Error";

/// The stored form of a secret: the nonce followed by the AES-256-GCM
/// encryption of `value`; the encryption error otherwise.
pub fn seal_secret(key: &[u8; 32], nonce: &[u8; 12], value: &[u8]) -> (r: Result<Vec<u8>, String>)
    ensures
        match gcm_seal(key@, nonce@, value@) {
            Some(ct) => r matches Ok(p) && p@ == nonce@ + ct,
            None => r matches Err(e) && e@ == "Encryption failure: "@ + AEAD_ERROR@,
        },
        r matches Ok(p) ==> p@.len() == value@.len() + 28 && p@ != value@,
{
    match aes_gcm_encrypt(key, nonce, value) {
        Some(ct) => {
            let mut out: Vec<u8> = Vec::new();
            let mut i: usize = 0;
            while i < 12
                invariant
                    i <= 12,
                    nonce@.len() == 12,
                    out@ == nonce@.take(i as int),
                decreases 12 - i,
            {
                out.push(nonce[i]);
                assert(nonce@.take(i + 1) =~= nonce@.take(i as int).push(nonce@[i as int]));
                i += 1;
            }
            let mut j: usize = 0;
            while j < ct.len()
                invariant
                    j <= ct@.len(),
                    nonce@.len() == 12,
                    out@ == nonce@ + ct@.take(j as int),
                decreases ct@.len() - j,
            {
                out.push(ct[j]);
                assert(nonce@ + ct@.take(j + 1) =~= (nonce@ + ct@.take(j as int)).push(ct@[j as int]));
                j += 1;
            }
            assert(nonce@.take(12) =~= nonce@);
            assert(ct@.take(ct@.len() as int) =~= ct@);
            Ok(out)
        },
        None => {
            let mut e = String::from_str("Encryption failure: ");
            crate::text::push_str(&mut e, AEAD_ERROR);
            Err(e)
        },
    }
}

/// The stored form of `value` under a fresh random nonce (see
/// `seal_secret`): whatever nonce came back, the result is that nonce
/// followed by the encryption under it, or the encryption error.
pub fn seal_secret_fresh(key: &[u8; 32], value: &[u8]) -> (r: Result<Vec<u8>, String>)
    ensures
        exists|nonce: Seq<u8>|
            nonce.len() == 12 && match #[trigger] gcm_seal(key@, nonce, value@) {
                Some(ct) => r matches Ok(p) && p@ == nonce + ct,
                None => r matches Err(e) && e@ == "Encryption failure: "@ + AEAD_ERROR@,
            },
        r matches Ok(p) ==> p@.len() == value@.len() + 28 && p@ != value@,
{
    let nonce = random_nonce();
    let r = seal_secret(key, &nonce, value);
    assert(nonce@.len() == 12);
    r
}

/// Recovers a secret from its stored form (see `seal_secret`): payloads
/// shorter than a nonce are refused; otherwise the first 12 bytes are the
/// nonce and the rest is decrypted. A payload that `seal_secret` made from
/// `value` under the same key gives back `value`.
pub fn open_secret(key: &[u8; 32], payload: &[u8]) -> (r: Result<Vec<u8>, String>)
    ensures
        payload@.len() < 12 ==> (r matches Err(e) && e@ == "Invalid secret payload: too short for nonce"@),
        payload@.len() >= 12 ==> match gcm_open(key@, payload@.take(12), payload@.skip(12)) {
            Some(v) => r matches Ok(p) && p@ == v,
            None => r matches Err(e) && e@ == "Decryption failure: "@ + AEAD_ERROR@,
        },
        forall|nonce: Seq<u8>, value: Seq<u8>|
            nonce.len() == 12 && #[trigger] gcm_seal(key@, nonce, value) is Some && payload@ == nonce + gcm_seal(
                key@,
                nonce,
                value,
            )->0 ==> (r matches Ok(p) && p@ == value),
{
    if payload.len() < 12 {
        return Err(String::from_str("Invalid secret payload: too short for nonce"));
    }
    let nonce = vstd::slice::slice_subrange(payload, 0, 12);
    let ct = vstd::slice::slice_subrange(payload, 12, payload.len());
    assert(nonce@ =~= payload@.take(12));
    assert(ct@ =~= payload@.skip(12));
    proof {
        assert forall|n: Seq<u8>, v: Seq<u8>|
            n.len() == 12 && #[trigger] gcm_seal(key@, n, v) is Some && payload@ == n + gcm_seal(key@, n, v)->0 implies n
            == nonce@ && gcm_seal(key@, n, v)->0 == ct@ by {
            let c = gcm_seal(key@, n, v)->0;
            assert(n =~= (n + c).take(12));
            assert(c =~= (n + c).skip(12));
        }
    }
    match aes_gcm_decrypt(key, nonce, ct) {
        Some(v) => Ok(v),
        None => {
            let mut e = String::from_str("Decryption failure: ");
            crate::text::push_str(&mut e, AEAD_ERROR);
            Err(e)
        },
    }
}

/// Post-quantum key encapsulation.
pub trait PqcEngine {
    fn generate_keypair(&self) -> (Vec<u8>, Vec<u8>);

    fn encapsulate(&self, pubkey: &[u8]) -> (Vec<u8>, Vec<u8>)
        requires
            pubkey@.len() == MLKEM_PUBLIC_KEY_BYTES,
    ;

    fn decapsulate(&self, ciphertext: &[u8], privkey: &[u8]) -> Vec<u8>
        requires
            ciphertext@.len() == MLKEM_CIPHERTEXT_BYTES,
            privkey@.len() == MLKEM_SECRET_KEY_BYTES,
    ;
}

/// ML-KEM-1024 (NIST FIPS 203).
#[derive(Debug, Clone, Copy, PartialEq, Eq, Structural)]
pub struct MlkemEngine;

pub const MLKEM_PUBLIC_KEY_BYTES: usize = 1568;

pub const MLKEM_SECRET_KEY_BYTES: usize = 3168;

pub const MLKEM_CIPHERTEXT_BYTES: usize = 1568;

pub const MLKEM_SHARED_SECRET_BYTES: usize = 32;

/// `mlkem1024::keypair`: a fresh random key pair, as byte strings of the
/// fixed ML-KEM-1024 sizes.
#[verifier::external_body]
fn mlkem_keypair() -> (r: (Vec<u8>, Vec<u8>))
    ensures
        r.0@.len() == MLKEM_PUBLIC_KEY_BYTES,
        r.1@.len() == MLKEM_SECRET_KEY_BYTES,
{
    let (pk, sk) = pqcrypto_mlkem::mlkem1024::keypair();
    (pk.as_bytes().to_vec(), sk.as_bytes().to_vec())
}

/// `mlkem1024::encapsulate` on a public key of the right length: a fresh
/// random shared secret and its ciphertext, of the fixed sizes.
#[verifier::external_body]
fn mlkem_encapsulate(pubkey: &[u8]) -> (r: (Vec<u8>, Vec<u8>))
    requires
        pubkey@.len() == MLKEM_PUBLIC_KEY_BYTES,
    ensures
        r.0@.len() == MLKEM_SHARED_SECRET_BYTES,
        r.1@.len() == MLKEM_CIPHERTEXT_BYTES,
{
    let pk = pqcrypto_mlkem::mlkem1024::PublicKey::from_bytes(pubkey).unwrap();
    let (ss, ct) = pqcrypto_mlkem::mlkem1024::encapsulate(&pk);
    (ss.as_bytes().to_vec(), ct.as_bytes().to_vec())
}

/// The name for the shared secret ML-KEM-1024 decapsulation recovers.
pub uninterp spec fn mlkem_shared_secret(ciphertext: Seq<u8>, secret_key: Seq<u8>) -> Seq<u8>;

/// `mlkem1024::decapsulate` on a ciphertext and secret key of the right
/// lengths: named `mlkem_shared_secret`, 32 bytes long.
#[verifier::external_body]
fn mlkem_decapsulate(ciphertext: &[u8], privkey: &[u8]) -> (r: Vec<u8>)
    requires
        ciphertext@.len() == MLKEM_CIPHERTEXT_BYTES,
        privkey@.len() == MLKEM_SECRET_KEY_BYTES,
    ensures
        r@ == mlkem_shared_secret(ciphertext@, privkey@),
        r@.len() == MLKEM_SHARED_SECRET_BYTES,
{
    let sk = pqcrypto_mlkem::mlkem1024::SecretKey::from_bytes(privkey).unwrap();
    let ct = pqcrypto_mlkem::mlkem1024::Ciphertext::from_bytes(ciphertext).unwrap();
    pqcrypto_mlkem::mlkem1024::decapsulate(&ct, &sk).as_bytes().to_vec()
}

impl PqcEngine for MlkemEngine {
    /// A fresh `(public key, secret key)` pair.
    fn generate_keypair(&self) -> (r: (Vec<u8>, Vec<u8>))
        ensures
            r.0@.len() == MLKEM_PUBLIC_KEY_BYTES,
            r.1@.len() == MLKEM_SECRET_KEY_BYTES,
    {
        mlkem_keypair()
    }

    /// A fresh `(shared secret, ciphertext)` pair for `pubkey`.
    fn encapsulate(&self, pubkey: &[u8]) -> (r: (Vec<u8>, Vec<u8>))
        ensures
            r.0@.len() == MLKEM_SHARED_SECRET_BYTES,
            r.1@.len() == MLKEM_CIPHERTEXT_BYTES,
    {
        mlkem_encapsulate(pubkey)
    }

    /// The shared secret recovered from `ciphertext` with `privkey`.
    fn decapsulate(&self, ciphertext: &[u8], privkey: &[u8]) -> (r: Vec<u8>)
        ensures
            r@ == mlkem_shared_secret(ciphertext@, privkey@),
    {
        mlkem_decapsulate(ciphertext, privkey)
    }
}

/// Leak protections.
pub trait PrivacyGuard {
    fn prevent_dns_leaks(&self) -> Result<(), String>;

    fn block_webrtc_exposure(&self) -> Result<(), String>;

    fn mask_fingerprint(&self) -> Result<(), String>;

    fn enforce_hsts(&self, domains: Vec<String>) -> Result<(), String>;
}

/// The browser's privacy guard, with its HSTS preload list.
pub struct SentinelPrivacyGuard {
    pub hsts_preload: Vec<String>,
}

/// Why fingerprint masking is refused.
pub const FINGERPRINT_LIMIT: &'static str = "Full fingerprint masking is not available on stock WebView2 (honest limit)";

impl SentinelPrivacyGuard {
    /// A guard preloading HSTS for `sentinel.dao`.
    pub fn new() -> (g: Self)
        ensures
            g.hsts_preload@.map_values(|s: String| s@) == seq!["sentinel.dao"@],
    {
        let mut v: Vec<String> = Vec::new();
        v.push(String::from_str("sentinel.dao"));
        assert(v@.map_values(|s: String| s@) =~= seq!["sentinel.dao"@]);
        SentinelPrivacyGuard { hsts_preload: v }
    }
}

impl PrivacyGuard for SentinelPrivacyGuard {
    /// DNS goes through DoH or DNS-over-Tor: nothing to refuse.
    fn prevent_dns_leaks(&self) -> (r: Result<(), String>)
        ensures
            r is Ok,
    {
        Ok(())
    }

    /// WebRTC is blocked by the page init script: nothing to refuse.
    fn block_webrtc_exposure(&self) -> (r: Result<(), String>)
        ensures
            r is Ok,
    {
        Ok(())
    }

    /// Always refused, with `FINGERPRINT_LIMIT`.
    fn mask_fingerprint(&self) -> (r: Result<(), String>)
        ensures
            r matches Err(e) && e@ == FINGERPRINT_LIMIT@,
    {
        Err(String::from_str(FINGERPRINT_LIMIT))
    }

    /// HSTS is left to the engine and site headers: nothing to refuse.
    fn enforce_hsts(&self, domains: Vec<String>) -> (r: Result<(), String>)
        ensures
            r is Ok,
    {
        Ok(())
    }
}

/// The security layer as a whole. The sandbox and the vault are type
/// parameters; unless a caller fixes them they are boxed trait objects, so
/// that the vault can be exchanged once its key is known.
pub struct SecurityManager<S = Box<dyn Sandbox>, V = Box<dyn Vault>> {
    pub sandbox: S,
    pub vault: V,
    pub pqc: MlkemEngine,
    pub privacy: SentinelPrivacyGuard,
    pub current_level: SecurityLevel,
}

impl SecurityManager {
    /// A manager at the Standard level holding `sandbox` and `vault`.
    pub fn with_parts(sandbox: Box<dyn Sandbox>, vault: Box<dyn Vault>) -> (m: Self)
        ensures
            m.sandbox == sandbox,
            m.vault == vault,
            m.pqc == MlkemEngine,
            m.current_level == SecurityLevel::Standard,
            m.privacy.hsts_preload@.map_values(|s: String| s@) == seq!["sentinel.dao"@],
    {
        let ghost given_sandbox = sandbox;
        let ghost given_vault = vault;
        let m = SecurityManager {
            sandbox,
            vault,
            pqc: MlkemEngine,
            privacy: SentinelPrivacyGuard::new(),
            current_level: SecurityLevel::Standard,
        };
        assert(m.sandbox == given_sandbox);
        assert(m.vault == given_vault);
        m
    }

    /// Replaces the vault (by a software vault once its key is known).
    pub fn use_software_vault(&mut self, vault: Box<dyn Vault>)
        ensures
            final(self).vault == vault,
            final(self).sandbox == old(self).sandbox,
            final(self).privacy == old(self).privacy,
            final(self).current_level == old(self).current_level,
            final(self).pqc == old(self).pqc,
    {
        let mut incoming = vault;
        std::mem::swap(&mut self.vault, &mut incoming);
    }

    /// Applies the Job Object, isolates the main process and engages the
    /// privacy guard; fails exactly when isolation fails.
    pub fn harden_system(&self) -> (r: Result<(), String>)
        ensures
            r is Ok <==> self.sandbox.accepts_profile(ProcessType::Main),
    {
        let _ = apply_job_object();
        match self.sandbox.isolate(ProcessType::Main) {
            Ok(()) => {},
            Err(e) => {
                return Err(e);
            },
        }
        let _ = self.privacy.prevent_dns_leaks();
        let _ = self.privacy.block_webrtc_exposure();
        let _ = self.privacy.mask_fingerprint();
        Ok(())
    }

    /// Switches to `level`, whose policy (`policy_for`) then applies.
    pub fn set_security_level(&mut self, level: SecurityLevel) -> (r: Result<(), String>)
        ensures
            final(self).current_level == level,
            final(self).sandbox == old(self).sandbox,
            final(self).vault == old(self).vault,
            final(self).pqc == old(self).pqc,
            final(self).privacy == old(self).privacy,
            r is Ok,
    {
        self.current_level = level;
        Ok(())
    }
}

} // verus!


