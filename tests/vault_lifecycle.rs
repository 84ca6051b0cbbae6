use anchor_lang::solana_program::pubkey::Pubkey;
use emblem_vault_solana::emblem_vault_solana::COLLECTION_URI;
use emblem_vault_solana::{
    attested_key, authority_address, claim_vault, collection_address, create_collection,
    find_vault, get_base_uri, get_claimer, get_vault_owner, initialize_program, is_claimed,
    mint_vault, set_base_uri, update_signer_public_key, vault_address, verify_approval,
    ClaimVault, CreateCollection, GetBaseUri, InitializeProgram, Key, Ledger, MintVault,
    SetBaseUri, SignatureDirective, UpdateSignerPublicKey, VaultError,
};

const NOW: i64 = 1_700_000_000;

fn key(n: u8) -> Key {
    Key { bytes: [n; 32] }
}

fn program_id() -> Key {
    key(1)
}

fn sig_program() -> Key {
    key(2)
}

fn signer() -> Key {
    key(3)
}

fn authority() -> Key {
    key(4)
}

fn payer() -> Key {
    key(5)
}

fn fee_receiver() -> Key {
    key(6)
}

fn collection() -> Key {
    key(7)
}

fn claimer() -> Key {
    key(8)
}

/// A signature check's payload: a 16-byte header, the signer's key, then a
/// signature.
fn payload(signer: &Key) -> Vec<u8> {
    let mut data = vec![0xAAu8; 16];
    data.extend_from_slice(&signer.bytes);
    data.extend_from_slice(&[0x55u8; 64]);
    data
}

fn check_by(signer: &Key) -> Option<SignatureDirective> {
    Some(SignatureDirective { program_id: sig_program(), data: payload(signer) })
}

fn mint_accounts(current_time: i64) -> MintVault {
    MintVault {
        payer: payer(),
        fee_receiver: fee_receiver(),
        collection: collection(),
        signature_check: check_by(&signer()),
        current_time,
    }
}

fn claim_accounts(current_time: i64) -> ClaimVault {
    ClaimVault {
        claimer: claimer(),
        fee_receiver: fee_receiver(),
        collection: collection(),
        signature_check: check_by(&signer()),
        current_time,
    }
}

fn initialized() -> Ledger {
    let mut ledger = Ledger::new(program_id(), sig_program());
    initialize_program(
        &mut ledger,
        &InitializeProgram { authority: authority() },
        "https://x/".to_string(),
        signer(),
    )
    .unwrap();
    ledger
}

fn minted() -> Ledger {
    let mut ledger = initialized();
    mint_vault(&mut ledger, &mint_accounts(NOW), "tok1".to_string(), 100, NOW).unwrap();
    ledger
}

fn tok1() -> String {
    "tok1".to_string()
}

#[test]
fn mint_creates_vault_and_asset() {
    let mut ledger = initialized();
    let fx = mint_vault(&mut ledger, &mint_accounts(NOW), tok1(), 100, NOW).unwrap();
    assert_eq!(fx.asset.uri, "https://x/tok1");
    assert_eq!(fx.asset.name, "Emblem Vault tok1");
    assert_eq!(fx.fee.from, payer());
    assert_eq!(fx.fee.to, fee_receiver());
    assert_eq!(fx.fee.amount, 100);
    assert_eq!(fx.asset.collection, collection());
    assert_eq!(fx.asset.payer, payer());
    assert_eq!(Some(fx.asset.authority), authority_address(&program_id()));
    let attributes: Vec<(String, String)> =
        fx.asset.attributes.iter().map(|a| (a.key.clone(), a.value.clone())).collect();
    assert_eq!(
        attributes,
        vec![
            ("is_minted".to_string(), "true".to_string()),
            ("is_claimed".to_string(), "false".to_string()),
            ("external_token_id".to_string(), "tok1".to_string()),
        ]
    );
    let v = find_vault(&ledger, &collection(), &tok1()).unwrap();
    assert!(v.is_minted);
    assert!(!v.is_claimed);
    assert_eq!(v.claimer, None);
    assert_eq!(v.owner, payer());
    assert_eq!(v.external_token_id, "tok1");
    assert_eq!(Some(v.asset), vault_address(&program_id(), &collection(), &tok1()));
    assert_eq!(v.asset, fx.asset.asset);
}

#[test]
fn second_mint_fails() {
    let mut ledger = minted();
    let r = mint_vault(&mut ledger, &mint_accounts(NOW + 10), tok1(), 100, NOW + 5);
    assert_eq!(r.unwrap_err(), VaultError::VaultAlreadyExists);
    let v = find_vault(&ledger, &collection(), &tok1()).unwrap();
    assert!(v.is_minted);
    assert!(!v.is_claimed);
    assert_eq!(v.owner, payer());
}

#[test]
fn expired_claim_leaves_vault_minted() {
    let mut ledger = minted();
    let r = claim_vault(&mut ledger, &claim_accounts(NOW + 901), tok1(), 50, NOW);
    assert_eq!(r.unwrap_err(), VaultError::ApprovalExpired);
    assert_eq!(is_claimed(&ledger, &collection(), &tok1()), Ok(false));
    assert_eq!(get_claimer(&ledger, &collection(), &tok1()), Ok(None));
}

#[test]
fn claim_burns_asset() {
    let mut ledger = minted();
    let fx = claim_vault(&mut ledger, &claim_accounts(NOW + 100), tok1(), 50, NOW).unwrap();
    assert_eq!(fx.fee.from, claimer());
    assert_eq!(fx.fee.to, fee_receiver());
    assert_eq!(fx.fee.amount, 50);
    assert_eq!(Some(fx.burn.asset), vault_address(&program_id(), &collection(), &tok1()));
    assert_eq!(fx.burn.collection, collection());
    assert_eq!(fx.burn.payer, claimer());
    assert_eq!(Some(fx.burn.authority), authority_address(&program_id()));
    assert_eq!(is_claimed(&ledger, &collection(), &tok1()), Ok(true));
    assert_eq!(get_claimer(&ledger, &collection(), &tok1()), Ok(Some(claimer())));
    assert_eq!(get_vault_owner(&ledger, &collection(), &tok1()), Ok(payer()));
}

#[test]
fn second_claim_fails_already_claimed() {
    let mut ledger = minted();
    claim_vault(&mut ledger, &claim_accounts(NOW + 100), tok1(), 50, NOW).unwrap();
    let r = claim_vault(&mut ledger, &claim_accounts(NOW + 200), tok1(), 50, NOW + 150);
    assert_eq!(r.unwrap_err(), VaultError::AlreadyClaimed);
    let m = mint_vault(&mut ledger, &mint_accounts(NOW + 200), tok1(), 100, NOW + 150);
    assert_eq!(m.unwrap_err(), VaultError::VaultAlreadyExists);
}

#[test]
fn claim_before_mint_fails_not_minted() {
    let mut ledger = initialized();
    let r = claim_vault(&mut ledger, &claim_accounts(NOW), tok1(), 50, NOW);
    assert_eq!(r.unwrap_err(), VaultError::NotMinted);
    assert_eq!(is_claimed(&ledger, &collection(), &tok1()), Err(VaultError::NotMinted));
    assert_eq!(get_vault_owner(&ledger, &collection(), &tok1()), Err(VaultError::NotMinted));
}

#[test]
fn approval_window_boundary() {
    let s = signer();
    let d = check_by(&s);
    assert_eq!(verify_approval(&d, &sig_program(), &s, NOW + 900, NOW), Ok(()));
    assert_eq!(verify_approval(&d, &sig_program(), &s, NOW + 901, NOW), Err(VaultError::ApprovalExpired));
    assert_eq!(verify_approval(&d, &sig_program(), &s, NOW - 50, NOW), Ok(()));
    assert_eq!(verify_approval(&d, &sig_program(), &s, i64::MAX, i64::MIN), Err(VaultError::ApprovalExpired));
    assert_eq!(verify_approval(&d, &sig_program(), &s, i64::MIN, i64::MAX), Ok(()));
}

#[test]
fn mint_at_window_edges() {
    let mut ledger = initialized();
    let r = mint_vault(&mut ledger, &mint_accounts(NOW + 901), tok1(), 100, NOW);
    assert_eq!(r.unwrap_err(), VaultError::ApprovalExpired);
    assert!(find_vault(&ledger, &collection(), &tok1()).is_none());
    assert!(mint_vault(&mut ledger, &mint_accounts(NOW + 900), tok1(), 100, NOW).is_ok());
}

#[test]
fn other_signer_rejected_whatever_the_time() {
    let mut ledger = initialized();
    let mut accounts = mint_accounts(NOW);
    accounts.signature_check = check_by(&key(9));
    let r = mint_vault(&mut ledger, &accounts, tok1(), 100, NOW);
    assert_eq!(r.unwrap_err(), VaultError::InvalidSigner);
    accounts.current_time = NOW + 5000;
    let r = mint_vault(&mut ledger, &accounts, tok1(), 0, NOW);
    assert_eq!(r.unwrap_err(), VaultError::InvalidSigner);
    let mut claim = claim_accounts(NOW + 5000);
    claim.signature_check = check_by(&key(9));
    let r = claim_vault(&mut ledger, &claim, tok1(), 50, NOW);
    assert_eq!(r.unwrap_err(), VaultError::InvalidSigner);
}

#[test]
fn missing_or_foreign_signature_check() {
    let mut ledger = initialized();
    let mut accounts = mint_accounts(NOW);
    accounts.signature_check = None;
    assert_eq!(mint_vault(&mut ledger, &accounts, tok1(), 100, NOW).unwrap_err(), VaultError::InvalidSignature);
    accounts.signature_check = Some(SignatureDirective { program_id: key(10), data: payload(&signer()) });
    assert_eq!(mint_vault(&mut ledger, &accounts, tok1(), 100, NOW).unwrap_err(), VaultError::InvalidSignature);
    let mut claim = claim_accounts(NOW);
    claim.signature_check = None;
    assert_eq!(claim_vault(&mut ledger, &claim, tok1(), 50, NOW).unwrap_err(), VaultError::InvalidSignature);
}

#[test]
fn short_payload_is_malformed() {
    let mut ledger = initialized();
    let mut accounts = mint_accounts(NOW);
    accounts.signature_check = Some(SignatureDirective { program_id: sig_program(), data: vec![0u8; 47] });
    assert_eq!(
        mint_vault(&mut ledger, &accounts, tok1(), 100, NOW).unwrap_err(),
        VaultError::MalformedAttestation
    );
    assert_eq!(attested_key(&vec![1u8; 47]), Err(VaultError::MalformedAttestation));
}

#[test]
fn attested_key_reads_offset_sixteen() {
    let data: Vec<u8> = (0u8..48).collect();
    let k = attested_key(&data).unwrap();
    let expected: Vec<u8> = (16u8..48).collect();
    assert_eq!(k.bytes.to_vec(), expected);
}

#[test]
fn admin_changes_need_authority() {
    let mut ledger = initialized();
    let stranger = key(11);
    assert_eq!(
        set_base_uri(&mut ledger, &SetBaseUri { authority: stranger }, "https://evil/".to_string()),
        Err(VaultError::Unauthorized)
    );
    assert_eq!(
        update_signer_public_key(&mut ledger, &UpdateSignerPublicKey { authority: stranger }, key(12)),
        Err(VaultError::Unauthorized)
    );
    assert_eq!(get_base_uri(&ledger, &GetBaseUri {}), Ok("https://x/".to_string()));
    let state = ledger.program_state().unwrap();
    assert_eq!(state.signer_public_key, signer());
    assert_eq!(state.authority, authority());

    assert_eq!(
        set_base_uri(&mut ledger, &SetBaseUri { authority: authority() }, "https://y/".to_string()),
        Ok(())
    );
    assert_eq!(get_base_uri(&ledger, &GetBaseUri {}), Ok("https://y/".to_string()));
    assert_eq!(
        update_signer_public_key(&mut ledger, &UpdateSignerPublicKey { authority: authority() }, key(12)),
        Ok(())
    );
    assert_eq!(ledger.program_state().unwrap().signer_public_key, key(12));
}

#[test]
fn new_signer_and_base_uri_apply_to_mints() {
    let mut ledger = initialized();
    set_base_uri(&mut ledger, &SetBaseUri { authority: authority() }, "ipfs://z/".to_string()).unwrap();
    update_signer_public_key(&mut ledger, &UpdateSignerPublicKey { authority: authority() }, key(12)).unwrap();
    let r = mint_vault(&mut ledger, &mint_accounts(NOW), tok1(), 100, NOW);
    assert_eq!(r.unwrap_err(), VaultError::InvalidSigner);
    let mut accounts = mint_accounts(NOW);
    accounts.signature_check = check_by(&key(12));
    let fx = mint_vault(&mut ledger, &accounts, tok1(), 100, NOW).unwrap();
    assert_eq!(fx.asset.uri, "ipfs://z/tok1");
}

#[test]
fn initialize_only_once() {
    let mut ledger = initialized();
    let r = initialize_program(
        &mut ledger,
        &InitializeProgram { authority: key(11) },
        "https://other/".to_string(),
        key(12),
    );
    assert_eq!(r, Err(VaultError::AlreadyInitialized));
    assert_eq!(ledger.program_state().unwrap().authority, authority());
    assert_eq!(get_base_uri(&ledger, &GetBaseUri {}), Ok("https://x/".to_string()));
}

#[test]
fn operations_before_initialize() {
    let mut ledger = Ledger::new(program_id(), sig_program());
    assert_eq!(get_base_uri(&ledger, &GetBaseUri {}), Err(VaultError::NotInitialized));
    assert_eq!(
        set_base_uri(&mut ledger, &SetBaseUri { authority: authority() }, "a".to_string()),
        Err(VaultError::NotInitialized)
    );
    assert_eq!(
        update_signer_public_key(&mut ledger, &UpdateSignerPublicKey { authority: authority() }, key(12)),
        Err(VaultError::NotInitialized)
    );
    assert_eq!(
        mint_vault(&mut ledger, &mint_accounts(NOW), tok1(), 100, NOW).unwrap_err(),
        VaultError::NotInitialized
    );
    assert_eq!(
        claim_vault(&mut ledger, &claim_accounts(NOW), tok1(), 100, NOW).unwrap_err(),
        VaultError::NotInitialized
    );
}

#[test]
fn long_token_id_has_no_address() {
    let mut ledger = initialized();
    let long = "x".repeat(33);
    assert_eq!(vault_address(&program_id(), &collection(), &long), None);
    assert_eq!(
        mint_vault(&mut ledger, &mint_accounts(NOW), long.clone(), 100, NOW).unwrap_err(),
        VaultError::AddressUnavailable
    );
    assert_eq!(
        claim_vault(&mut ledger, &claim_accounts(NOW), long, 100, NOW).unwrap_err(),
        VaultError::NotMinted
    );
    let max = "x".repeat(32);
    assert!(mint_vault(&mut ledger, &mint_accounts(NOW), max, 100, NOW).is_ok());
}

#[test]
fn vaults_are_per_token_and_collection() {
    let mut ledger = initialized();
    mint_vault(&mut ledger, &mint_accounts(NOW), tok1(), 100, NOW).unwrap();
    mint_vault(&mut ledger, &mint_accounts(NOW), "tok2".to_string(), 100, NOW).unwrap();
    let mut other = mint_accounts(NOW);
    other.collection = key(20);
    mint_vault(&mut ledger, &other, tok1(), 100, NOW).unwrap();
    let a = vault_address(&program_id(), &collection(), &tok1()).unwrap();
    let b = vault_address(&program_id(), &collection(), &"tok2".to_string()).unwrap();
    let c = vault_address(&program_id(), &key(20), &tok1()).unwrap();
    assert_ne!(a, b);
    assert_ne!(a, c);
    claim_vault(&mut ledger, &claim_accounts(NOW), tok1(), 1, NOW).unwrap();
    assert_eq!(is_claimed(&ledger, &collection(), &"tok2".to_string()), Ok(false));
    assert_eq!(is_claimed(&ledger, &key(20), &tok1()), Ok(false));
}

#[test]
fn addresses_match_the_runtime_derivation() {
    let program = Pubkey::new_from_array(program_id().bytes);
    let (vault, _) = Pubkey::find_program_address(
        &[b"vault", &collection().bytes, b"tok1"],
        &program,
    );
    assert_eq!(vault_address(&program_id(), &collection(), &tok1()), Some(Key { bytes: vault.to_bytes() }));
    let (auth, _) = Pubkey::find_program_address(&[b"authority"], &program);
    assert_eq!(authority_address(&program_id()), Some(Key { bytes: auth.to_bytes() }));
    let (coll, _) = Pubkey::find_program_address(&[b"collection", b"art", b"2"], &program);
    assert_eq!(
        collection_address(&program_id(), &"art".to_string()),
        Some(Key { bytes: coll.to_bytes() })
    );
    assert_ne!(vault.to_bytes(), program_id().bytes);
}

#[test]
fn collection_creation_is_idempotent() {
    let mut ledger = Ledger::new(program_id(), sig_program());
    let accounts = CreateCollection { payer: payer() };
    let created = create_collection(&mut ledger, &accounts, "art".to_string()).unwrap().unwrap();
    assert_eq!(created.name, "Emblem art Vaults");
    assert_eq!(created.uri, COLLECTION_URI);
    assert_eq!(created.payer, payer());
    assert_eq!(Some(created.authority), authority_address(&program_id()));
    assert_eq!(Some(created.collection), collection_address(&program_id(), &"art".to_string()));
    let again = create_collection(&mut ledger, &accounts, "art".to_string()).unwrap();
    assert!(again.is_none());
    let record = ledger.collection(&created.collection).unwrap();
    assert_eq!(record.name, "Emblem art Vaults");
    assert_eq!(record.delegate, created.authority);
    let other = create_collection(&mut ledger, &accounts, "music".to_string()).unwrap().unwrap();
    assert_ne!(other.collection, created.collection);
}

#[test]
fn long_collection_type_has_no_address() {
    let mut ledger = Ledger::new(program_id(), sig_program());
    let r = create_collection(&mut ledger, &CreateCollection { payer: payer() }, "c".repeat(33));
    assert_eq!(r, Err(VaultError::AddressUnavailable));
}

#[test]
fn keys_compare_by_bytes() {
    assert!(key(3).same_as(&key(3)));
    assert!(!key(3).same_as(&key(4)));
    let mut k = key(3);
    k.bytes[31] = 0;
    assert!(!k.same_as(&key(3)));
    assert_eq!(key(3).to_vec(), vec![3u8; 32]);
}

#[test]
fn stored_records_load_once() {
    let mut ledger = Ledger::new(program_id(), sig_program());
    ledger.load_state(emblem_vault_solana::ProgramState {
        base_uri: "https://x/".to_string(),
        authority: authority(),
        signer_public_key: signer(),
    });
    let address = vault_address(&program_id(), &collection(), &tok1()).unwrap();
    let stored = emblem_vault_solana::Vault {
        owner: payer(),
        external_token_id: tok1(),
        is_minted: true,
        is_claimed: false,
        claimer: None,
        asset: address,
    };
    assert!(ledger.load_vault(stored.clone()));
    assert!(!ledger.load_vault(stored));
    assert_eq!(ledger.vault(&address).unwrap().owner, payer());
    let r = mint_vault(&mut ledger, &mint_accounts(NOW), tok1(), 100, NOW);
    assert_eq!(r.unwrap_err(), VaultError::VaultAlreadyExists);
    let fx = claim_vault(&mut ledger, &claim_accounts(NOW), tok1(), 7, NOW).unwrap();
    assert_eq!(fx.burn.asset, address);
    assert_eq!(fx.fee.amount, 7);
}

#[test]
fn stored_collection_makes_creation_a_no_op() {
    let mut ledger = Ledger::new(program_id(), sig_program());
    let address = collection_address(&program_id(), &"art".to_string()).unwrap();
    let stored = emblem_vault_solana::Collection {
        address,
        name: "Emblem art Vaults".to_string(),
        uri: COLLECTION_URI.to_string(),
        delegate: authority_address(&program_id()).unwrap(),
    };
    assert!(ledger.load_collection(stored.clone()));
    assert!(!ledger.load_collection(stored));
    let r = create_collection(&mut ledger, &CreateCollection { payer: payer() }, "art".to_string());
    assert_eq!(r, Ok(None));
}
