use agent_registry::text::{check_hex_digest, check_model_hash, text_len};
use agent_registry::Principal;

#[test]
fn lengths_are_in_bytes() {
    assert_eq!(text_len(&String::new()), 0);
    assert_eq!(text_len(&"abc".to_string()), 3);
    assert_eq!(text_len(&"é".repeat(32)), 64);
}

#[test]
fn hex_digest_rules() {
    assert!(check_hex_digest(&"0123456789abcdefABCDEF".repeat(3)[..64].to_string()));
    assert!(!check_hex_digest(&"a".repeat(63)));
    assert!(!check_hex_digest(&"a".repeat(65)));
    assert!(!check_hex_digest(&format!("{}z", "a".repeat(63))));
    assert!(!check_hex_digest(&format!("{}é", "a".repeat(62))));
}

#[test]
fn model_hash_rules() {
    assert!(check_model_hash(&format!("sha256:{}", "0".repeat(64))));
    assert!(check_model_hash(&format!("sha256:{}", "0".repeat(80))));
    assert!(!check_model_hash(&format!("sha256:{}", "0".repeat(63))));
    assert!(!check_model_hash(&format!("SHA256:{}", "0".repeat(64))));
    assert!(!check_model_hash(&format!("sha256-{}", "0".repeat(64))));
    assert!(!check_model_hash(&String::new()));
}

#[test]
fn principal_identity() {
    let a = Principal { hi: 5, lo: 6 };
    assert!(a.same(&Principal { hi: 5, lo: 6 }));
    assert!(!a.same(&Principal { hi: 5, lo: 7 }));
    assert!(!a.same(&Principal { hi: 4, lo: 6 }));
    assert!(Principal::zero().same(&Principal { hi: 0, lo: 0 }));
}

#[test]
fn principal_from_key_bytes() {
    let mut key = [0u8; 32];
    for (i, b) in key.iter_mut().enumerate() {
        *b = i as u8;
    }
    let p = Principal::from_bytes(key);
    assert_eq!(p.hi, 0x000102030405060708090a0b0c0d0e0f);
    assert_eq!(p.lo, 0x101112131415161718191a1b1c1d1e1f);
    assert_eq!(Principal::from_bytes([0u8; 32]), Principal::zero());
    assert_eq!(Principal::from_bytes([0xffu8; 32]), Principal { hi: u128::MAX, lo: u128::MAX });
}
