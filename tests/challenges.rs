use agent_registry::{
    close_challenge, create_challenge, create_collection, expire_challenge, initialize,
    register_agent, submit_response, AgentAccount, Challenge, ChallengeKey, ChallengeStatus,
    Principal, RegistryError, RegistryState,
};

fn admin() -> Principal {
    Principal { hi: 1, lo: 1 }
}

fn owner() -> Principal {
    Principal { hi: 2, lo: 7 }
}

fn challenger() -> Principal {
    Principal { hi: 8, lo: 8 }
}

fn stranger() -> Principal {
    Principal { hi: 3, lo: 9 }
}

const T0: i64 = 1_700_000_000;

fn hash_h() -> String {
    "0123456789abcdef".repeat(4)
}

fn wrong_hash() -> String {
    "f".repeat(64)
}

fn setup() -> (RegistryState, AgentAccount) {
    let mut reg = initialize(admin());
    create_collection(&mut reg, admin(), Principal { hi: 40, lo: 41 }).unwrap();
    let a = register_agent(
        &mut reg,
        owner(),
        "scout".to_string(),
        format!("sha256:{}", "ab".repeat(32)),
        "analysis".to_string(),
        Principal { hi: 50, lo: 51 },
        T0,
    )
    .unwrap();
    (reg, a)
}

fn open_challenge(a: &AgentAccount, nonce: u64) -> Challenge {
    create_challenge(challenger(), a, "what is 2+2?".to_string(), hash_h(), nonce, T0).unwrap()
}

#[test]
fn scenario_pass_challenge() {
    let (_reg, mut a) = setup();
    assert_eq!(a.reputation_score, 5000);
    let mut c = open_challenge(&a, 1);
    assert_eq!(submit_response(owner(), &mut a, &mut c, hash_h(), T0 + 10), Ok(()));
    assert_eq!(c.status, ChallengeStatus::Passed);
    assert_eq!(c.responded_at, T0 + 10);
    assert_eq!(a.reputation_score, 5100);
    assert_eq!(a.challenges_passed, 1);
    assert_eq!(a.challenges_failed, 0);
    assert_eq!(a.updated_at, T0 + 10);
}

#[test]
fn scenario_fail_challenge() {
    let (_reg, mut a) = setup();
    let mut c = open_challenge(&a, 1);
    assert_eq!(submit_response(owner(), &mut a, &mut c, wrong_hash(), T0 + 10), Ok(()));
    assert_eq!(c.status, ChallengeStatus::Failed);
    assert_eq!(a.reputation_score, 4950);
    assert_eq!(a.challenges_failed, 1);
    assert_eq!(a.challenges_passed, 0);
}

#[test]
fn scenario_expire_challenge() {
    let (_reg, mut a) = setup();
    let mut c = open_challenge(&a, 1);
    assert_eq!(c.expires_at, T0 + 3600);
    assert_eq!(expire_challenge(&mut a, &mut c, T0 + 3601), Ok(()));
    assert_eq!(c.status, ChallengeStatus::Expired);
    assert_eq!(c.responded_at, T0 + 3601);
    assert_eq!(a.reputation_score, 4950);
    assert_eq!(a.challenges_failed, 1);
    assert_eq!(
        expire_challenge(&mut a, &mut c, T0 + 4000),
        Err(RegistryError::ChallengeNotPending)
    );
    assert_eq!(a.reputation_score, 4950);
    assert_eq!(a.challenges_failed, 1);
}

#[test]
fn create_challenge_fields() {
    let (_reg, a) = setup();
    let c = open_challenge(&a, 42);
    assert_eq!(c.agent_id, a.agent_id);
    assert_eq!(c.challenger, challenger());
    assert_eq!(c.question, "what is 2+2?");
    assert_eq!(c.expected_hash, hash_h());
    assert_eq!(c.status, ChallengeStatus::Pending);
    assert_eq!(c.created_at, T0);
    assert_eq!(c.expires_at, T0 + 3600);
    assert_eq!(c.responded_at, 0);
    assert_eq!(c.nonce, 42);
    assert_eq!(
        c.key(),
        ChallengeKey { agent_id: a.agent_id, challenger: challenger(), nonce: 42 }
    );
    assert_ne!(c.key(), open_challenge(&a, 43).key());
    assert_eq!(ChallengeStatus::default(), ChallengeStatus::Pending);
}

#[test]
fn create_challenge_rejects_bad_fields() {
    let (_reg, a) = setup();
    let r = create_challenge(challenger(), &a, "q".repeat(257), hash_h(), 1, T0);
    assert_eq!(r.err(), Some(RegistryError::QuestionTooLong));
    let r = create_challenge(challenger(), &a, "q".repeat(256), "a".repeat(63), 1, T0);
    assert_eq!(r.err(), Some(RegistryError::InvalidExpectedHash));
    let r = create_challenge(challenger(), &a, "q".repeat(256), "a".repeat(65), 1, T0);
    assert_eq!(r.err(), Some(RegistryError::InvalidExpectedHash));
    assert!(create_challenge(challenger(), &a, "q".repeat(256), hash_h(), 1, T0).is_ok());
}

#[test]
fn respond_requires_owner() {
    let (_reg, mut a) = setup();
    let mut c = open_challenge(&a, 1);
    assert_eq!(
        submit_response(stranger(), &mut a, &mut c, hash_h(), T0 + 1),
        Err(RegistryError::Unauthorized)
    );
    assert_eq!(c.status, ChallengeStatus::Pending);
    assert_eq!(a.reputation_score, 5000);
}

#[test]
fn respond_requires_matching_agent() {
    let (mut reg, mut a) = setup();
    let other = register_agent(
        &mut reg,
        owner(),
        "other".to_string(),
        format!("sha256:{}", "cd".repeat(32)),
        String::new(),
        Principal::zero(),
        T0,
    )
    .unwrap();
    let mut c = open_challenge(&other, 1);
    assert_eq!(
        submit_response(owner(), &mut a, &mut c, hash_h(), T0 + 1),
        Err(RegistryError::ChallengeMismatch)
    );
    assert_eq!(expire_challenge(&mut a, &mut c, T0 + 9999), Err(RegistryError::ChallengeMismatch));
    assert_eq!(c.status, ChallengeStatus::Pending);
}

#[test]
fn respond_after_deadline_fails() {
    let (_reg, mut a) = setup();
    let mut c = open_challenge(&a, 1);
    assert_eq!(
        submit_response(owner(), &mut a, &mut c, hash_h(), T0 + 3601),
        Err(RegistryError::ChallengeExpired)
    );
    assert_eq!(c.status, ChallengeStatus::Pending);
    assert_eq!(submit_response(owner(), &mut a, &mut c, hash_h(), T0 + 3600), Ok(()));
    assert_eq!(c.status, ChallengeStatus::Passed);
}

#[test]
fn respond_rejects_bad_hash_length() {
    let (_reg, mut a) = setup();
    let mut c = open_challenge(&a, 1);
    assert_eq!(
        submit_response(owner(), &mut a, &mut c, "abc".to_string(), T0 + 1),
        Err(RegistryError::InvalidResponseHash)
    );
    assert_eq!(c.status, ChallengeStatus::Pending);
    assert_eq!(c.responded_at, 0);
}

#[test]
fn respond_twice_fails() {
    let (_reg, mut a) = setup();
    let mut c = open_challenge(&a, 1);
    submit_response(owner(), &mut a, &mut c, wrong_hash(), T0 + 1).unwrap();
    assert_eq!(
        submit_response(owner(), &mut a, &mut c, hash_h(), T0 + 2),
        Err(RegistryError::ChallengeNotPending)
    );
    assert_eq!(c.status, ChallengeStatus::Failed);
    assert_eq!(a.reputation_score, 4950);
    assert_eq!(
        expire_challenge(&mut a, &mut c, T0 + 5000),
        Err(RegistryError::ChallengeNotPending)
    );
    assert_eq!(a.reputation_score, 4950);
}

#[test]
fn expire_before_deadline_fails() {
    let (_reg, mut a) = setup();
    let mut c = open_challenge(&a, 1);
    assert_eq!(
        expire_challenge(&mut a, &mut c, T0 + 3600),
        Err(RegistryError::ChallengeNotExpired)
    );
    assert_eq!(c.status, ChallengeStatus::Pending);
    assert_eq!(a.reputation_score, 5000);
}

#[test]
fn close_only_after_resolution_by_challenger() {
    let (_reg, mut a) = setup();
    let mut c = open_challenge(&a, 1);
    assert_eq!(close_challenge(challenger(), &c), Err(RegistryError::ChallengeStillPending));
    submit_response(owner(), &mut a, &mut c, hash_h(), T0 + 1).unwrap();
    assert_eq!(close_challenge(stranger(), &c), Err(RegistryError::Unauthorized));
    assert_eq!(close_challenge(owner(), &c), Err(RegistryError::Unauthorized));
    assert_eq!(close_challenge(challenger(), &c), Ok(()));
    assert_eq!(a.reputation_score, 5100);
}

#[test]
fn concurrent_challenges_by_nonce() {
    let (_reg, mut a) = setup();
    let mut c1 = open_challenge(&a, 1);
    let mut c2 = open_challenge(&a, 2);
    submit_response(owner(), &mut a, &mut c1, hash_h(), T0 + 1).unwrap();
    submit_response(owner(), &mut a, &mut c2, hash_h(), T0 + 2).unwrap();
    assert_eq!(a.reputation_score, 5200);
    assert_eq!(a.challenges_passed, 2);
}

#[test]
fn pass_clamps_at_maximum() {
    let (_reg, mut a) = setup();
    a.reputation_score = 9950;
    let mut c = open_challenge(&a, 1);
    submit_response(owner(), &mut a, &mut c, hash_h(), T0 + 1).unwrap();
    assert_eq!(a.reputation_score, 10000);
    a.reputation_score = 20;
    let mut c = open_challenge(&a, 2);
    expire_challenge(&mut a, &mut c, T0 + 3601).unwrap();
    assert_eq!(a.reputation_score, 0);
}

#[test]
fn expiry_check() {
    let (_reg, a) = setup();
    let c = open_challenge(&a, 1);
    assert!(!c.is_expired(T0 + 3600));
    assert!(c.is_expired(T0 + 3601));
}
