use conductor_gate::authorize::{
    authorize, find_grant, AuthorizationError, CapAccess, CapabilityGrant, NonceRecord,
};
use conductor_gate::bytes::{bytes_eq, secret_eq};
use conductor_gate::call::{CellId, SigningError, ZomeCall, ZomeCallUnsigned};

fn cell() -> CellId {
    CellId { dna_hash: [1; 36], agent_pub_key: [2; 36] }
}

fn call_with(nonce: u8, expires_at: i64, cap_secret: Option<[u8; 64]>) -> ZomeCall {
    ZomeCall {
        cell_id: cell(),
        zome_name: "zome".to_string(),
        fn_name: "create".to_string(),
        payload: vec![0xc0],
        cap_secret,
        provenance: [9; 36],
        signature: [7; 64],
        nonce: [nonce; 32],
        expires_at,
    }
}

fn grant(access: CapAccess) -> CapabilityGrant {
    CapabilityGrant {
        cell_id: cell(),
        zome_name: "zome".to_string(),
        fn_name: "create".to_string(),
        access,
    }
}

#[test]
fn expired_call_is_rejected_and_keeps_its_nonce() {
    let grants = vec![grant(CapAccess::Unrestricted)];
    let mut record = NonceRecord::new();
    let result = authorize(call_with(1, 100, None), &grants, &mut record, 101, true);
    assert_eq!(result.unwrap_err(), AuthorizationError::Expired);
    assert_eq!(record.len(), 0);
    assert!(!record.contains(&[9; 36], &[1; 32]));
}

#[test]
fn call_at_its_expiry_is_still_good() {
    let grants = vec![grant(CapAccess::Unrestricted)];
    let mut record = NonceRecord::new();
    let authorized = authorize(call_with(1, 100, None), &grants, &mut record, 100, true).unwrap();
    assert_eq!(authorized.call().nonce, [1; 32]);
    assert_eq!(authorized.into_call().expires_at, 100);
    assert_eq!(record.len(), 1);
    assert_eq!(record.expiry_of(&[9; 36], &[1; 32]), Some(100));
}

#[test]
fn second_call_with_the_same_nonce_is_replayed() {
    let grants = vec![grant(CapAccess::Unrestricted)];
    let mut record = NonceRecord::new();
    assert!(authorize(call_with(1, 100, None), &grants, &mut record, 10, true).is_ok());
    let second = authorize(call_with(1, 500, None), &grants, &mut record, 20, true);
    assert_eq!(second.unwrap_err(), AuthorizationError::Replayed);
    assert_eq!(record.len(), 1);
    assert_eq!(record.expiry_of(&[9; 36], &[1; 32]), Some(100));
    assert!(authorize(call_with(2, 100, None), &grants, &mut record, 20, true).is_ok());
    assert_eq!(record.len(), 2);
}

#[test]
fn replay_is_rejected_in_either_order() {
    let grants = vec![grant(CapAccess::Unrestricted)];
    let mut record = NonceRecord::new();
    assert!(authorize(call_with(1, 500, None), &grants, &mut record, 20, true).is_ok());
    let other = authorize(call_with(1, 100, None), &grants, &mut record, 10, true);
    assert_eq!(other.unwrap_err(), AuthorizationError::Replayed);
}

#[test]
fn same_nonce_of_another_caller_is_new() {
    let grants = vec![grant(CapAccess::Unrestricted)];
    let mut record = NonceRecord::new();
    assert!(authorize(call_with(1, 100, None), &grants, &mut record, 10, true).is_ok());
    let mut other = call_with(1, 100, None);
    other.provenance = [8; 36];
    assert!(authorize(other, &grants, &mut record, 10, true).is_ok());
}

#[test]
fn bad_signature_is_rejected_after_the_nonce_is_used() {
    let grants = vec![grant(CapAccess::Unrestricted)];
    let mut record = NonceRecord::new();
    let result = authorize(call_with(1, 100, None), &grants, &mut record, 10, false);
    assert_eq!(result.unwrap_err(), AuthorizationError::BadSignature);
    assert!(record.contains(&[9; 36], &[1; 32]));
    let again = authorize(call_with(1, 100, None), &grants, &mut record, 10, true);
    assert_eq!(again.unwrap_err(), AuthorizationError::Replayed);
}

#[test]
fn expiry_is_checked_before_everything_else() {
    let mut record = NonceRecord::new();
    assert!(record.consume(&[9; 36], &[1; 32], 100));
    let result = authorize(call_with(1, 100, None), &[], &mut record, 101, false);
    assert_eq!(result.unwrap_err(), AuthorizationError::Expired);
}

#[test]
fn unrestricted_grant_needs_no_secret() {
    let grants = vec![grant(CapAccess::Unrestricted)];
    let mut record = NonceRecord::new();
    assert!(authorize(call_with(1, 100, None), &grants, &mut record, 10, true).is_ok());
    assert!(authorize(call_with(2, 100, Some([3; 64])), &grants, &mut record, 10, true).is_ok());
}

#[test]
fn secret_grant_wants_the_secret() {
    let grants = vec![grant(CapAccess::Secret { expected: [5; 64], assignee: None })];
    let mut record = NonceRecord::new();
    let missing = authorize(call_with(1, 100, None), &grants, &mut record, 10, true);
    assert_eq!(missing.unwrap_err(), AuthorizationError::Unauthorized);
    let mut wrong_secret = [5; 64];
    wrong_secret[63] = 6;
    let wrong = authorize(call_with(2, 100, Some(wrong_secret)), &grants, &mut record, 10, true);
    assert_eq!(wrong.unwrap_err(), AuthorizationError::Unauthorized);
    let right = authorize(call_with(3, 100, Some([5; 64])), &grants, &mut record, 10, true);
    assert_eq!(right.unwrap().call().cap_secret, Some([5; 64]));
}

#[test]
fn secret_grant_with_assignee_wants_that_caller() {
    let grants = vec![grant(CapAccess::Secret { expected: [5; 64], assignee: Some([8; 36]) })];
    let mut record = NonceRecord::new();
    let stranger = authorize(call_with(1, 100, Some([5; 64])), &grants, &mut record, 10, true);
    assert_eq!(stranger.unwrap_err(), AuthorizationError::Unauthorized);
    let mut call = call_with(2, 100, Some([5; 64]));
    call.provenance = [8; 36];
    assert!(authorize(call, &grants, &mut record, 10, true).is_ok());
}

#[test]
fn function_without_grant_is_unauthorized() {
    let mut other = grant(CapAccess::Unrestricted);
    other.fn_name = "delete".to_string();
    let mut record = NonceRecord::new();
    let none = authorize(call_with(1, 100, None), &[], &mut record, 10, true);
    assert_eq!(none.unwrap_err(), AuthorizationError::Unauthorized);
    let elsewhere = authorize(call_with(2, 100, None), &[other], &mut record, 10, true);
    assert_eq!(elsewhere.unwrap_err(), AuthorizationError::Unauthorized);
}

#[test]
fn first_covering_grant_decides() {
    let grants = vec![
        grant(CapAccess::Secret { expected: [5; 64], assignee: None }),
        grant(CapAccess::Unrestricted),
    ];
    let found = find_grant(&grants, &call_with(1, 100, None));
    assert!(matches!(found, Some(CapAccess::Secret { .. })));
    let mut record = NonceRecord::new();
    let result = authorize(call_with(1, 100, None), &grants, &mut record, 10, true);
    assert_eq!(result.unwrap_err(), AuthorizationError::Unauthorized);
}

#[test]
fn pruning_forgets_only_what_has_expired() {
    let mut record = NonceRecord::new();
    assert!(record.consume(&[9; 36], &[1; 32], 100));
    assert!(record.consume(&[9; 36], &[2; 32], 200));
    assert!(record.consume(&[9; 36], &[3; 32], 300));
    assert!(!record.consume(&[9; 36], &[2; 32], 900));
    record.prune(200);
    assert_eq!(record.len(), 2);
    assert!(!record.contains(&[9; 36], &[1; 32]));
    assert_eq!(record.expiry_of(&[9; 36], &[2; 32]), Some(200));
    assert_eq!(record.expiry_of(&[9; 36], &[3; 32]), Some(300));
    let grants = vec![grant(CapAccess::Unrestricted)];
    let replay = authorize(call_with(2, 200, None), &grants, &mut record, 200, true);
    assert_eq!(replay.unwrap_err(), AuthorizationError::Replayed);
}

#[test]
fn byte_comparisons() {
    assert!(bytes_eq(&[], &[]));
    assert!(bytes_eq(&[1, 2, 3], &[1, 2, 3]));
    assert!(!bytes_eq(&[1, 2, 3], &[1, 2]));
    assert!(!bytes_eq(&[1, 2, 3], &[1, 2, 4]));
    assert!(secret_eq(&[], &[]));
    assert!(secret_eq(&[1, 2, 3], &[1, 2, 3]));
    assert!(!secret_eq(&[1, 2, 3], &[1, 2]));
    assert!(!secret_eq(&[0, 2, 3], &[1, 2, 3]));
    assert!(!secret_eq(&[1, 2, 0x80], &[1, 2, 0]));
}

fn unsigned() -> ZomeCallUnsigned {
    ZomeCallUnsigned {
        provenance: [9; 36],
        cell_id: cell(),
        zome_name: "zome".to_string(),
        fn_name: "create".to_string(),
        cap_secret: None,
        payload: vec![0xc0],
        nonce: [4; 32],
        expires_at: 1000,
    }
}

fn outside_digest(call: &ZomeCallUnsigned) -> Vec<u8> {
    let outside = holochain_zome_types::zome_io::ZomeCallUnsigned {
        provenance: holo_hash::AgentPubKey::from_raw_36(call.provenance.to_vec()),
        cell_id: holochain_zome_types::cell::CellId::new(
            holo_hash::DnaHash::from_raw_36(call.cell_id.dna_hash.to_vec()),
            holo_hash::AgentPubKey::from_raw_36(call.cell_id.agent_pub_key.to_vec()),
        ),
        zome_name: call.zome_name.clone().into(),
        fn_name: call.fn_name.clone().into(),
        cap_secret: call.cap_secret.map(|secret| secret.into()),
        payload: call.payload.clone().into(),
        nonce: call.nonce.into(),
        expires_at: holochain_zome_types::timestamp::Timestamp::from_micros(call.expires_at),
    };
    outside.data_to_sign().unwrap().to_vec()
}

#[test]
fn data_to_sign_is_the_digest_of_the_fields() {
    let call = unsigned();
    let digest = call.data_to_sign().unwrap();
    assert_eq!(digest.len(), 32);
    assert_eq!(digest, outside_digest(&call));
    assert_eq!(digest, unsigned().data_to_sign().unwrap());
    assert_ne!(digest, call.payload);
}

#[test]
fn data_to_sign_changes_with_every_field() {
    let base = unsigned().data_to_sign().unwrap();
    let mut changed = Vec::new();
    let mut call = unsigned();
    call.provenance[0] = 0;
    changed.push(call);
    let mut call = unsigned();
    call.cell_id.dna_hash[35] = 0;
    changed.push(call);
    let mut call = unsigned();
    call.cell_id.agent_pub_key[1] = 0;
    changed.push(call);
    let mut call = unsigned();
    call.zome_name = "zone".to_string();
    changed.push(call);
    let mut call = unsigned();
    call.fn_name = "delete".to_string();
    changed.push(call);
    let mut call = unsigned();
    call.cap_secret = Some([0; 64]);
    changed.push(call);
    let mut call = unsigned();
    call.payload = vec![0xc0, 0xc0];
    changed.push(call);
    let mut call = unsigned();
    call.nonce[31] = 0;
    changed.push(call);
    let mut call = unsigned();
    call.expires_at = 1001;
    changed.push(call);
    for call in changed.iter() {
        let digest = call.data_to_sign().unwrap();
        assert_ne!(digest, base);
        assert_eq!(digest, outside_digest(call));
    }
}

#[test]
fn signing_keeps_every_field() {
    let call = ZomeCall::try_from_unsigned_zome_call(unsigned(), Ok([6; 64])).unwrap();
    assert_eq!(call.signature, [6; 64]);
    assert_eq!(call.provenance, [9; 36]);
    assert_eq!(call.cell_id.dna_hash, [1; 36]);
    assert_eq!(call.cell_id.agent_pub_key, [2; 36]);
    assert_eq!(call.zome_name, "zome");
    assert_eq!(call.fn_name, "create");
    assert_eq!(call.cap_secret, None);
    assert_eq!(call.payload, vec![0xc0]);
    assert_eq!(call.nonce, [4; 32]);
    assert_eq!(call.expires_at, 1000);
    let back = ZomeCallUnsigned::from(call);
    assert_eq!(back.data_to_sign().unwrap(), unsigned().data_to_sign().unwrap());
}

#[test]
fn keystore_error_is_handed_on() {
    let failed = ZomeCall::try_from_unsigned_zome_call(unsigned(), Err("locked".to_string()));
    match failed {
        Err(SigningError::Keystore(message)) => assert_eq!(message, "locked"),
        other => panic!("unexpected: {:?}", other),
    }
}

#[test]
fn resigning_replaces_provenance_and_signature() {
    let call = ZomeCall::with_signature(unsigned(), [6; 64]);
    let resigned = call.resign_zome_call([3; 36], Ok([8; 64])).unwrap();
    assert_eq!(resigned.provenance, [3; 36]);
    assert_eq!(resigned.signature, [8; 64]);
    assert_eq!(resigned.nonce, [4; 32]);
    assert_eq!(resigned.cell_id.agent_pub_key, [2; 36]);
    let call = ZomeCall::with_signature(unsigned(), [6; 64]);
    let to_sign = call.unsigned_for([3; 36]);
    assert_eq!(to_sign.provenance, [3; 36]);
    assert_ne!(to_sign.data_to_sign().unwrap(), unsigned().data_to_sign().unwrap());
}

#[test]
fn cell_ids_compare_by_both_hashes() {
    assert!(cell().same_as(&cell()));
    assert!(!cell().same_as(&CellId { dna_hash: [1; 36], agent_pub_key: [3; 36] }));
    assert!(!cell().same_as(&CellId { dna_hash: [0; 36], agent_pub_key: [2; 36] }));
}
