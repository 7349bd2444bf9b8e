use sentinel::pt::TargetOs;
use sentinel::security::{PlatformSandbox, ProcessType, Sandbox};
use sentinel::security::{
    apply_job_object, get_platform_sandbox, level_named, open_secret, policy_for, seal_secret, seal_secret_fresh, HsmVault, LinuxSandbox, MlkemEngine,
    PqcEngine, PrivacyGuard, SandboxPolicy, SecurityLevel, SecurityManager, SentinelPrivacyGuard, Vault,
    HTTPS_WARNING, WEBGL_NOTE,
};

#[test]
fn test_security_level_comparisons() {
    let standard = SandboxPolicy::default();
    let strict = SandboxPolicy::strict();
    let paranoid = SandboxPolicy::paranoid();

    assert_eq!(standard.level, SecurityLevel::Standard);
    assert_eq!(strict.level, SecurityLevel::Strict);
    assert_eq!(paranoid.level, SecurityLevel::Paranoid);

    assert!(strict.enforce_https);
    assert!(!strict.allow_webgl);
    assert!(!paranoid.allow_javascript);
}

#[test]
fn test_pqc_mlkem_flow() {
    let pqc = MlkemEngine;
    let (pk, sk) = pqc.generate_keypair();

    let (ss1, ct) = pqc.encapsulate(&pk);
    let ss2 = pqc.decapsulate(&ct, &sk);

    assert_eq!(ss1, ss2);
}

#[test]
fn test_security_manager_initialization() {
    let mut manager = SecurityManager::with_parts(Box::new(LinuxSandbox), Box::new(HsmVault));
    assert_eq!(manager.pqc, MlkemEngine);
    manager.harden_system().unwrap();
    manager.set_security_level(SecurityLevel::Paranoid).unwrap();
    assert_eq!(manager.current_level, SecurityLevel::Paranoid);
}

#[test]
fn kem_sizes() {
    let (pk, sk) = MlkemEngine.generate_keypair();
    assert_eq!((pk.len(), sk.len()), (1568, 3168));
    let (ss, ct) = MlkemEngine.encapsulate(&pk);
    assert_eq!((ss.len(), ct.len()), (32, 1568));
}

#[test]
fn policies_per_level() {
    assert_eq!(policy_for(SecurityLevel::Standard), SandboxPolicy::default());
    assert_eq!(policy_for(SecurityLevel::Strict), SandboxPolicy::strict());
    assert_eq!(policy_for(SecurityLevel::Paranoid), SandboxPolicy::paranoid());
    assert!(SandboxPolicy::default().allow_cookies);
    assert!(!SandboxPolicy::strict().allow_cookies);
    assert_eq!(level_named("Strict"), SecurityLevel::Strict);
    assert_eq!(level_named("Paranoid"), SecurityLevel::Paranoid);
    assert_eq!(level_named("strict"), SecurityLevel::Standard);
}

#[test]
fn policy_audit_findings() {
    assert_eq!(SandboxPolicy::default().audit(), vec![WEBGL_NOTE.to_string()]);
    assert!(SandboxPolicy::strict().audit().is_empty());
    let lax = SandboxPolicy { enforce_https: false, ..SandboxPolicy::default() };
    assert_eq!(lax.audit(), vec![HTTPS_WARNING.to_string(), WEBGL_NOTE.to_string()]);
}

#[test]
fn sealed_secrets_round_trip() {
    let key = [7u8; 32];
    let nonce = [9u8; 12];
    let value = b"Top Secret Data".to_vec();
    let sealed = seal_secret(&key, &nonce, &value).unwrap();
    assert_eq!(&sealed[..12], &nonce);
    assert_ne!(&sealed[12..], &value[..]);
    assert_eq!(open_secret(&key, &sealed).unwrap(), value);
    // Tampering or the wrong key is refused.
    let mut bad = sealed.clone();
    bad[20] ^= 1;
    assert_eq!(open_secret(&key, &bad), Err("Decryption failure: aead::Error".to_string()));
    assert_eq!(open_secret(&[8u8; 32], &sealed), Err("Decryption failure: aead::Error".to_string()));
    assert_eq!(
        open_secret(&key, &[1, 2, 3]),
        Err("Invalid secret payload: too short for nonce".to_string())
    );
}

#[test]
fn hardware_vault_is_unavailable() {
    let v = HsmVault;
    let msg = "HSM vault is not available in this build (no PKCS#11). Use SoftwareVault.".to_string();
    assert_eq!(v.store_secret("k", vec![1]), Err(msg.clone()));
    assert_eq!(v.get_secret("k"), Err(msg));
}

#[test]
fn privacy_guard_answers() {
    let g = SentinelPrivacyGuard::new();
    assert_eq!(g.hsts_preload, vec!["sentinel.dao".to_string()]);
    assert!(g.prevent_dns_leaks().is_ok());
    assert!(g.block_webrtc_exposure().is_ok());
    assert!(g.enforce_hsts(vec![]).is_ok());
    assert_eq!(
        g.mask_fingerprint(),
        Err("Full fingerprint masking is not available on stock WebView2 (honest limit)".to_string())
    );
    assert!(apply_job_object().is_ok());
}

#[test]
fn fresh_seals_use_new_nonces_and_open_again() {
    let key = [3u8; 32];
    let value = b"vault entry".to_vec();
    let a = seal_secret_fresh(&key, &value).unwrap();
    let b = seal_secret_fresh(&key, &value).unwrap();
    assert_eq!(a.len(), 12 + value.len() + 16);
    assert_ne!(a, b);
    assert_eq!(open_secret(&key, &a).unwrap(), value);
    assert_eq!(open_secret(&key, &b).unwrap(), value);
}

#[test]
fn test_software_vault_encryption() {
    let key = [0u8; 32]; // Test key
    let secret_value = b"Top Secret Data".to_vec();

    // What the vault writes for the secret
    let encrypted_data = seal_secret_fresh(&key, &secret_value).unwrap();
    // It is encrypted (not plain text)
    assert_ne!(encrypted_data, secret_value);

    // Decrypt and verify
    let decrypted_value = open_secret(&key, &encrypted_data).unwrap();
    assert_eq!(decrypted_value, secret_value);
}

#[test]
fn platform_sandboxes_accept_every_profile() {
    assert!(matches!(get_platform_sandbox(TargetOs::Linux), PlatformSandbox::Linux(_)));
    assert!(matches!(get_platform_sandbox(TargetOs::Windows), PlatformSandbox::Windows(_)));
    assert!(matches!(get_platform_sandbox(TargetOs::MacArm), PlatformSandbox::Mac(_)));
    let sb = get_platform_sandbox(TargetOs::MacIntel);
    for p in [ProcessType::Main, ProcessType::Renderer, ProcessType::Network, ProcessType::Plugin] {
        assert_eq!(sb.isolate(p), Ok(()));
    }
    assert_eq!(sb.restrict_network(), Ok(()));
    let manager = SecurityManager::with_parts(Box::new(get_platform_sandbox(TargetOs::Linux)), Box::new(HsmVault));
    assert_eq!(manager.harden_system(), Ok(()));
}

#[test]
fn manager_parts_and_level_changes() {
    let mut manager = SecurityManager::with_parts(Box::new(LinuxSandbox), Box::new(HsmVault));
    assert!(manager.harden_system().is_ok());
    assert!(manager.set_security_level(SecurityLevel::Paranoid).is_ok());
    assert_eq!(manager.current_level, SecurityLevel::Paranoid);
    assert!(manager.harden_system().is_ok());
    assert_eq!(manager.privacy.hsts_preload, vec!["sentinel.dao".to_string()]);
    // The hardware vault refuses; after the swap the new vault answers.
    assert!(manager.vault.get_secret("k").is_err());
    manager.use_software_vault(Box::new(HsmVault));
    assert!(manager.vault.store_secret("k", vec![1]).is_err());
}
