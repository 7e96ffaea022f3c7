use solana_program::pubkey::Pubkey;
use teleport::address::Address;
use teleport::error::{CloseError, TeleportError};
use teleport::instruction::AccountMeta;
use teleport::processor::{Collaborators, Processor, TeleportInAccounts, TeleportOutAccounts};
use teleport::state::{Account, Admin, Config, Deployment, TeleportOutRecord, CONFIG_LEN, MAX_ADMINS, RECORD_LEN};

fn addr(b: u8) -> Address {
    Address::new([b; 32])
}

fn deployment() -> Deployment {
    Deployment {
        program_id: addr(1),
        owner: addr(2),
        multisig_program: addr(3),
        token_program: addr(4),
        system_program: addr(5),
        mint: addr(6),
    }
}

fn collaborators(d: &Deployment) -> Collaborators {
    Collaborators {
        wallet_program: d.multisig_program,
        token_program: d.token_program,
        system_program: d.system_program,
        teleport_program: d.program_id,
        mint: d.mint,
    }
}

fn in_accounts() -> TeleportInAccounts {
    TeleportInAccounts { wallet: addr(20), wallet_pda: addr(21), wallet_signer: addr(22), from: addr(23), from_auth: addr(24) }
}

fn out_accounts() -> TeleportOutAccounts {
    TeleportOutAccounts { wallet: addr(20), wallet_signer: addr(22), fee_payer: addr(25), to: addr(26), mint_authority: addr(27) }
}

fn signer(key: Address) -> Account {
    Account { key, owner: addr(0), is_signer: true, lamports: 0, data_len: 0 }
}

fn config_info(d: &Deployment, lamports: u64) -> Account {
    Account { key: addr(7), owner: d.program_id, is_signer: false, lamports, data_len: CONFIG_LEN }
}

fn record_key(d: &Deployment, hash: &[u8; 32]) -> Address {
    let (key, _) = Pubkey::find_program_address(&[&hash[..]], &Pubkey::new_from_array(d.program_id.to_bytes()));
    Address::new(key.to_bytes())
}

/// An unused slot: no balance, no payload, held by the system program.
fn empty_slot(key: Address) -> Account {
    Account { key, owner: addr(5), is_signer: false, lamports: 0, data_len: 0 }
}

fn ready_config(d: &Deployment, admin_key: &Address) -> Config {
    let mut config = Config::new();
    let owner = signer(d.owner);
    Processor::process_init_config(d, &owner, &config_info(d, 100), &mut config, 100).unwrap();
    Processor::process_add_admin(d, &owner, &mut config, admin_key).unwrap();
    config
}

fn burn_data(amount: u64, decimals: u8) -> Vec<u8> {
    let mut v = vec![3, 3, 3, 0, 5, 1, 6, 1, 7, 2, 14];
    v.extend(amount.to_le_bytes().iter().cloned());
    v.push(decimals);
    v
}

#[test]
fn bridge_scenario() {
    let d = deployment();
    let owner = signer(d.owner);
    let admin_key = addr(8);
    let auth = signer(addr(9));
    let c = collaborators(&d);
    let info = config_info(&d, 100);
    let config = ready_config(&d, &admin_key);

    let mut admin = Admin::new();
    Processor::process_init_admin(&d, &owner, &mut admin, &auth.key, 100).unwrap();
    Processor::process_deposit_allowance(&d, &owner, &mut admin, 50).unwrap();
    assert_eq!(admin.allowance, 150);

    let h1 = [0xa1u8; 32];
    let mut slot1 = empty_slot(record_key(&d, &h1));
    let mut record1 = TeleportOutRecord { is_init: false };
    let call = Processor::process_teleport_out(&d, &info, &config, &admin_key, &mut admin, &auth, &mut slot1, &mut record1, &c, &out_accounts(), &h1, 120, 9, 890)
        .unwrap();
    assert_eq!(call.data, burn_data(120, 9));
    assert_eq!(call.program_id, d.multisig_program);
    let meta = |k: u8, is_signer: bool, is_writable: bool| AccountMeta { pubkey: addr(k), is_signer, is_writable };
    assert_eq!(
        call.accounts,
        vec![meta(20, false, true), meta(27, false, false), meta(25, false, false), meta(4, false, false), meta(22, true, false), meta(6, false, true), meta(26, false, true), meta(27, false, false)]
    );
    assert_eq!(admin.allowance, 30);
    assert!(record1.is_init);
    assert_eq!(slot1.lamports, 890);
    assert_eq!(slot1.data_len, RECORD_LEN);
    assert!(slot1.owner.same_as(&d.program_id));

    let r = Processor::process_teleport_out(&d, &info, &config, &admin_key, &mut admin, &auth, &mut slot1, &mut record1, &c, &out_accounts(), &h1, 10, 9, 890);
    assert_eq!(r, Err(TeleportError::AlreadyInUse));
    assert_eq!(admin.allowance, 30);

    let h2 = [0xb2u8; 32];
    let mut slot2 = empty_slot(record_key(&d, &h2));
    let mut record2 = TeleportOutRecord { is_init: false };
    let r = Processor::process_teleport_out(&d, &info, &config, &admin_key, &mut admin, &auth, &mut slot2, &mut record2, &c, &out_accounts(), &h2, 40, 9, 890);
    assert_eq!(r, Err(TeleportError::UnexpectedError));
    assert_eq!(admin.allowance, 30);
    assert!(!record2.is_init);
    assert_eq!(slot2.data_len, 0);
}

#[test]
fn init_config_twice_is_refused() {
    let d = deployment();
    let owner = signer(d.owner);
    let info = config_info(&d, 100);
    let mut config = Config::new();
    assert_eq!(Processor::process_init_config(&d, &owner, &info, &mut config, 100), Ok(()));
    assert!(config.is_init);
    assert_eq!(Processor::process_init_config(&d, &owner, &info, &mut config, 100), Err(TeleportError::AlreadyInUse));
    assert!(config.is_init);
    assert!(!config.is_frozen);
    assert_eq!(config.admins.len(), 0);
}

#[test]
fn init_config_checks_owner_and_rent() {
    let d = deployment();
    let mut config = Config::new();
    let stranger = signer(addr(42));
    assert_eq!(Processor::process_init_config(&d, &stranger, &config_info(&d, 100), &mut config, 100), Err(TeleportError::AuthFailed));
    let mut unsigned = signer(d.owner);
    unsigned.is_signer = false;
    assert_eq!(Processor::process_init_config(&d, &unsigned, &config_info(&d, 100), &mut config, 100), Err(TeleportError::AuthFailed));
    let owner = signer(d.owner);
    assert_eq!(Processor::process_init_config(&d, &owner, &config_info(&d, 99), &mut config, 100), Err(TeleportError::NotRentExempt));
    assert!(!config.is_init);
}

#[test]
fn replay_with_other_amount_is_refused() {
    let d = deployment();
    let owner = signer(d.owner);
    let admin_key = addr(8);
    let auth = signer(addr(9));
    let c = collaborators(&d);
    let info = config_info(&d, 100);
    let config = ready_config(&d, &admin_key);
    let mut admin = Admin::new();
    Processor::process_init_admin(&d, &owner, &mut admin, &auth.key, 1000).unwrap();
    let h = [7u8; 32];
    let mut slot = empty_slot(record_key(&d, &h));
    let mut record = TeleportOutRecord { is_init: false };
    assert!(Processor::process_teleport_out(&d, &info, &config, &admin_key, &mut admin, &auth, &mut slot, &mut record, &c, &out_accounts(), &h, 300, 6, 0).is_ok());
    assert_eq!(admin.allowance, 700);
    // a zero rent still leaves the slot occupied
    let r = Processor::process_teleport_out(&d, &info, &config, &admin_key, &mut admin, &auth, &mut slot, &mut record, &c, &out_accounts(), &h, 1, 6, 0);
    assert_eq!(r, Err(TeleportError::AlreadyInUse));
    assert_eq!(admin.allowance, 700);
}

#[test]
fn teleport_out_needs_the_derived_record() {
    let d = deployment();
    let owner = signer(d.owner);
    let admin_key = addr(8);
    let auth = signer(addr(9));
    let c = collaborators(&d);
    let info = config_info(&d, 100);
    let config = ready_config(&d, &admin_key);
    let mut admin = Admin::new();
    Processor::process_init_admin(&d, &owner, &mut admin, &auth.key, 10).unwrap();
    let h = [7u8; 32];
    // the hash itself is not the record's address
    let mut slot = empty_slot(Address::new(h));
    let mut record = TeleportOutRecord { is_init: false };
    let r = Processor::process_teleport_out(&d, &info, &config, &admin_key, &mut admin, &auth, &mut slot, &mut record, &c, &out_accounts(), &h, 1, 6, 5);
    assert_eq!(r, Err(TeleportError::UnexpectedError));
    assert_eq!(admin.allowance, 10);
    let other = record_key(&d, &[8u8; 32]);
    let mut slot = empty_slot(other);
    let r = Processor::process_teleport_out(&d, &info, &config, &admin_key, &mut admin, &auth, &mut slot, &mut record, &c, &out_accounts(), &h, 1, 6, 5);
    assert_eq!(r, Err(TeleportError::UnexpectedError));
}

#[test]
fn teleport_out_admin_checks() {
    let d = deployment();
    let owner = signer(d.owner);
    let admin_key = addr(8);
    let auth = signer(addr(9));
    let c = collaborators(&d);
    let info = config_info(&d, 100);
    let config = ready_config(&d, &admin_key);
    let h = [3u8; 32];
    let mut slot = empty_slot(record_key(&d, &h));
    let mut record = TeleportOutRecord { is_init: false };

    let mut fresh = Admin::new();
    let r = Processor::process_teleport_out(&d, &info, &config, &admin_key, &mut fresh, &auth, &mut slot, &mut record, &c, &out_accounts(), &h, 0, 6, 5);
    assert_eq!(r, Err(TeleportError::UninitializedAccount));

    let mut admin = Admin::new();
    Processor::process_init_admin(&d, &owner, &mut admin, &auth.key, 10).unwrap();
    let wrong_auth = signer(addr(10));
    let r = Processor::process_teleport_out(&d, &info, &config, &admin_key, &mut admin, &wrong_auth, &mut slot, &mut record, &c, &out_accounts(), &h, 1, 6, 5);
    assert_eq!(r, Err(TeleportError::UnexpectedError));
    let mut unsigned = auth;
    unsigned.is_signer = false;
    let r = Processor::process_teleport_out(&d, &info, &config, &admin_key, &mut admin, &unsigned, &mut slot, &mut record, &c, &out_accounts(), &h, 1, 6, 5);
    assert_eq!(r, Err(TeleportError::MissingRequiredSignature));
    let r = Processor::process_teleport_out(&d, &info, &config, &addr(11), &mut admin, &auth, &mut slot, &mut record, &c, &out_accounts(), &h, 1, 6, 5);
    assert_eq!(r, Err(TeleportError::UnexpectedError));
    assert_eq!(admin.allowance, 10);
    assert!(!record.is_init);
}

#[test]
fn teleport_out_checks_collaborators() {
    let d = deployment();
    let owner = signer(d.owner);
    let admin_key = addr(8);
    let auth = signer(addr(9));
    let info = config_info(&d, 100);
    let config = ready_config(&d, &admin_key);
    let mut admin = Admin::new();
    Processor::process_init_admin(&d, &owner, &mut admin, &auth.key, 10).unwrap();
    let h = [3u8; 32];
    let mut slot = empty_slot(record_key(&d, &h));
    let mut record = TeleportOutRecord { is_init: false };
    for i in 0..4 {
        let mut c = collaborators(&d);
        match i {
            0 => c.wallet_program = addr(50),
            1 => c.token_program = addr(50),
            2 => c.system_program = addr(50),
            _ => c.teleport_program = addr(50),
        }
        let r = Processor::process_teleport_out(&d, &info, &config, &admin_key, &mut admin, &auth, &mut slot, &mut record, &c, &out_accounts(), &h, 1, 6, 5);
        assert_eq!(r, Err(TeleportError::UnexpectedError));
    }
    assert_eq!(admin.allowance, 10);
}

#[test]
fn config_account_checks() {
    let d = deployment();
    let c = collaborators(&d);
    let config = ready_config(&d, &addr(8));
    let mut foreign = config_info(&d, 100);
    foreign.owner = addr(60);
    assert_eq!(Processor::process_teleport_in(&d, &foreign, &config, &c, &in_accounts(), 1, 6), Err(TeleportError::IncorrectProgramAccount));
    let mut short = config_info(&d, 100);
    short.data_len = CONFIG_LEN - 1;
    assert_eq!(Processor::process_teleport_in(&d, &short, &config, &c, &in_accounts(), 1, 6), Err(TeleportError::IncorrectProgramAccount));
    let fresh = Config::new();
    assert_eq!(Processor::process_teleport_in(&d, &config_info(&d, 100), &fresh, &c, &in_accounts(), 1, 6), Err(TeleportError::UninitializedAccount));
}

#[test]
fn teleport_in_builds_mint_call() {
    let d = deployment();
    let c = collaborators(&d);
    let config = ready_config(&d, &addr(8));
    let call = Processor::process_teleport_in(&d, &config_info(&d, 100), &config, &c, &in_accounts(), 0x0102030405060708, 9).unwrap();
    assert_eq!(call.data, vec![3, 2, 3, 0, 4, 1, 5, 1, 6, 2, 15, 8, 7, 6, 5, 4, 3, 2, 1, 9]);
    assert_eq!(call.program_id, d.multisig_program);
    let meta = |k: u8, is_signer: bool, is_writable: bool| AccountMeta { pubkey: addr(k), is_signer, is_writable };
    assert_eq!(
        call.accounts,
        vec![meta(20, false, true), meta(21, false, false), meta(4, false, false), meta(22, true, false), meta(23, false, true), meta(6, false, true), meta(24, true, false)]
    );
    for i in 0..3 {
        let mut c = collaborators(&d);
        match i {
            0 => c.wallet_program = addr(50),
            1 => c.token_program = addr(50),
            _ => c.mint = addr(50),
        }
        assert_eq!(Processor::process_teleport_in(&d, &config_info(&d, 100), &config, &c, &in_accounts(), 1, 9), Err(TeleportError::UnexpectedError));
    }
}

#[test]
fn freeze_gates_transfers_only() {
    let d = deployment();
    let owner = signer(d.owner);
    let admin_key = addr(8);
    let auth = signer(addr(9));
    let c = collaborators(&d);
    let info = config_info(&d, 100);
    let mut config = ready_config(&d, &admin_key);
    let mut admin = Admin::new();
    Processor::process_init_admin(&d, &owner, &mut admin, &auth.key, 10).unwrap();
    assert_eq!(Processor::process_freeze(&d, &owner, &mut config), Ok(()));
    assert!(config.is_frozen);
    assert_eq!(Processor::process_teleport_in(&d, &info, &config, &c, &in_accounts(), 1, 6), Err(TeleportError::Freeze));
    let h = [3u8; 32];
    let mut slot = empty_slot(record_key(&d, &h));
    let mut record = TeleportOutRecord { is_init: false };
    let r = Processor::process_teleport_out(&d, &info, &config, &admin_key, &mut admin, &auth, &mut slot, &mut record, &c, &out_accounts(), &h, 1, 6, 5);
    assert_eq!(r, Err(TeleportError::Freeze));
    assert_eq!(admin.allowance, 10);
    assert_eq!(Processor::process_add_admin(&d, &owner, &mut config, &addr(20)), Ok(()));
    assert_eq!(Processor::process_remove_admin(&d, &owner, &mut config, &addr(20)), Ok(()));
    assert_eq!(Processor::process_freeze(&d, &owner, &mut config), Ok(()));
    assert_eq!(Processor::process_unfreeze(&d, &owner, &mut config), Ok(()));
    assert!(!config.is_frozen);
    assert!(Processor::process_teleport_out(&d, &info, &config, &admin_key, &mut admin, &auth, &mut slot, &mut record, &c, &out_accounts(), &h, 1, 6, 5).is_ok());
    assert_eq!(admin.allowance, 9);
}

#[test]
fn removed_admin_cannot_teleport_out() {
    let d = deployment();
    let owner = signer(d.owner);
    let admin_key = addr(8);
    let auth = signer(addr(9));
    let c = collaborators(&d);
    let info = config_info(&d, 100);
    let mut config = ready_config(&d, &admin_key);
    let mut admin = Admin::new();
    Processor::process_init_admin(&d, &owner, &mut admin, &auth.key, 500).unwrap();
    assert_eq!(Processor::process_remove_admin(&d, &owner, &mut config, &admin_key), Ok(()));
    assert!(!config.contain_admin(&admin_key));
    let h = [4u8; 32];
    let mut slot = empty_slot(record_key(&d, &h));
    let mut record = TeleportOutRecord { is_init: false };
    let r = Processor::process_teleport_out(&d, &info, &config, &admin_key, &mut admin, &auth, &mut slot, &mut record, &c, &out_accounts(), &h, 1, 6, 5);
    assert_eq!(r, Err(TeleportError::UnexpectedError));
    assert_eq!(admin.allowance, 500);
    assert!(admin.is_init);
}

#[test]
fn admin_set_add_and_remove() {
    let d = deployment();
    let owner = signer(d.owner);
    let mut config = Config::new();
    assert_eq!(Processor::process_add_admin(&d, &owner, &mut config, &addr(1)), Err(TeleportError::IncorrectProgramAccount));
    assert_eq!(Processor::process_freeze(&d, &owner, &mut config), Err(TeleportError::IncorrectProgramAccount));
    Processor::process_init_config(&d, &owner, &config_info(&d, 0), &mut config, 0).unwrap();
    assert_eq!(Processor::process_add_admin(&d, &signer(addr(99)), &mut config, &addr(1)), Err(TeleportError::AuthFailed));
    assert_eq!(Processor::process_add_admin(&d, &owner, &mut config, &addr(1)), Ok(()));
    // a second add of the same identity changes nothing
    assert_eq!(Processor::process_add_admin(&d, &owner, &mut config, &addr(1)), Ok(()));
    assert_eq!(config.admins.len(), 1);
    // removing an absent identity changes nothing
    assert_eq!(Processor::process_remove_admin(&d, &owner, &mut config, &addr(2)), Ok(()));
    assert_eq!(config.admins.len(), 1);
    for i in 2..(MAX_ADMINS as u8 + 1) {
        assert_eq!(Processor::process_add_admin(&d, &owner, &mut config, &addr(i)), Ok(()));
    }
    assert_eq!(config.admins.len(), MAX_ADMINS);
    assert_eq!(Processor::process_add_admin(&d, &owner, &mut config, &addr(200)), Err(TeleportError::UnexpectedError));
    assert_eq!(config.admins.len(), MAX_ADMINS);
    assert_eq!(Processor::process_add_admin(&d, &owner, &mut config, &addr(3)), Ok(()));
    assert_eq!(Processor::process_remove_admin(&d, &owner, &mut config, &addr(3)), Ok(()));
    assert!(!config.contain_admin(&addr(3)));
    assert!(config.contain_admin(&addr(4)));
    assert_eq!(config.admins.len(), MAX_ADMINS - 1);
}

#[test]
fn deposit_allowance_rules() {
    let d = deployment();
    let owner = signer(d.owner);
    let mut admin = Admin::new();
    assert_eq!(Processor::process_deposit_allowance(&d, &owner, &mut admin, 5), Err(TeleportError::UninitializedAccount));
    Processor::process_init_admin(&d, &owner, &mut admin, &addr(9), u64::MAX - 1).unwrap();
    assert_eq!(Processor::process_init_admin(&d, &owner, &mut admin, &addr(9), 0), Err(TeleportError::AlreadyInUse));
    assert_eq!(Processor::process_deposit_allowance(&d, &signer(addr(5)), &mut admin, 1), Err(TeleportError::AuthFailed));
    assert_eq!(Processor::process_deposit_allowance(&d, &owner, &mut admin, 2), Err(TeleportError::UnexpectedError));
    assert_eq!(admin.allowance, u64::MAX - 1);
    assert_eq!(Processor::process_deposit_allowance(&d, &owner, &mut admin, 1), Ok(()));
    assert_eq!(admin.allowance, u64::MAX);
}

#[test]
fn close_record_moves_balance() {
    let d = deployment();
    let owner = signer(d.owner);
    let admin_key = addr(8);
    let auth = signer(addr(9));
    let c = collaborators(&d);
    let info = config_info(&d, 100);
    let config = ready_config(&d, &admin_key);
    let mut admin = Admin::new();
    Processor::process_init_admin(&d, &owner, &mut admin, &auth.key, 10).unwrap();
    let h = [5u8; 32];
    let mut slot = empty_slot(record_key(&d, &h));
    let mut record = TeleportOutRecord { is_init: false };
    let mut target = empty_slot(addr(30));
    target.lamports = 7;
    assert_eq!(
        Processor::process_close_teleport_out_record(&d, &info, &config, &admin_key, &admin, &auth, &mut slot, &record, &mut target),
        Err(CloseError::Refused(TeleportError::IncorrectProgramAccount))
    );
    Processor::process_teleport_out(&d, &info, &config, &admin_key, &mut admin, &auth, &mut slot, &mut record, &c, &out_accounts(), &h, 1, 6, 890).unwrap();
    assert_eq!(
        Processor::process_close_teleport_out_record(&d, &info, &config, &admin_key, &admin, &auth, &mut slot, &record, &mut target),
        Ok(())
    );
    assert_eq!(target.lamports, 897);
    assert_eq!(slot.lamports, 0);
    let uninit = TeleportOutRecord { is_init: false };
    assert_eq!(
        Processor::process_close_teleport_out_record(&d, &info, &config, &admin_key, &admin, &auth, &mut slot, &uninit, &mut target),
        Err(CloseError::Refused(TeleportError::UninitializedAccount))
    );
    slot.lamports = 1;
    target.lamports = u64::MAX;
    assert_eq!(
        Processor::process_close_teleport_out_record(&d, &info, &config, &admin_key, &admin, &auth, &mut slot, &record, &mut target),
        Err(CloseError::InvalidAccountData)
    );
    assert_eq!(slot.lamports, 1);
    assert_eq!(target.lamports, u64::MAX);
}

#[test]
fn init_record_once() {
    let mut record = TeleportOutRecord { is_init: false };
    assert_eq!(Processor::process_init_teleport_out_record(&mut record), Ok(()));
    assert!(record.is_init);
    assert_eq!(Processor::process_init_teleport_out_record(&mut record), Err(TeleportError::AlreadyInUse));
}

#[test]
fn error_codes() {
    assert_eq!(TeleportError::AuthFailed.code(), 0);
    assert_eq!(TeleportError::Freeze.code(), 7);
    assert_eq!(TeleportError::from_code(2), Some(TeleportError::NotRentExempt));
    assert_eq!(TeleportError::from_code(8), None);
}

#[test]
fn address_equality() {
    let mut b = [1u8; 32];
    assert!(addr(1).same_as(&Address::new(b)));
    b[31] = 2;
    assert!(!addr(1).same_as(&Address::new(b)));
    assert_eq!(Address::new(b).to_bytes(), b);
}

#[test]
fn allowance_over_a_sequence() {
    let d = deployment();
    let owner = signer(d.owner);
    let admin_key = addr(8);
    let auth = signer(addr(9));
    let c = collaborators(&d);
    let info = config_info(&d, 100);
    let config = ready_config(&d, &admin_key);
    let mut admin = Admin::new();
    Processor::process_init_admin(&d, &owner, &mut admin, &auth.key, 10).unwrap();
    let mut expected: u64 = 10;
    for (i, (deposit, spend)) in [(5u64, 12u64), (0, 3), (100, 50), (1, 60)].iter().enumerate() {
        Processor::process_deposit_allowance(&d, &owner, &mut admin, *deposit).unwrap();
        expected += deposit;
        let h = [i as u8 + 100; 32];
        let mut slot = empty_slot(record_key(&d, &h));
        let mut record = TeleportOutRecord { is_init: false };
        let r = Processor::process_teleport_out(&d, &info, &config, &admin_key, &mut admin, &auth, &mut slot, &mut record, &c, &out_accounts(), &h, *spend, 6, 1);
        if *spend <= expected {
            assert!(r.is_ok());
            expected -= spend;
        } else {
            assert_eq!(r, Err(TeleportError::UnexpectedError));
        }
        assert_eq!(admin.allowance, expected);
    }
    assert_eq!(expected, 10 + 5 + 0 + 100 + 1 - 12 - 3 - 50);
}

#[test]
fn closed_record_cannot_be_reused() {
    let d = deployment();
    let owner = signer(d.owner);
    let admin_key = addr(8);
    let auth = signer(addr(9));
    let c = collaborators(&d);
    let info = config_info(&d, 100);
    let config = ready_config(&d, &admin_key);
    let mut admin = Admin::new();
    Processor::process_init_admin(&d, &owner, &mut admin, &auth.key, 10).unwrap();
    let h = [12u8; 32];
    let mut slot = empty_slot(record_key(&d, &h));
    let mut record = TeleportOutRecord { is_init: false };
    Processor::process_teleport_out(&d, &info, &config, &admin_key, &mut admin, &auth, &mut slot, &mut record, &c, &out_accounts(), &h, 2, 6, 5).unwrap();
    let mut target = empty_slot(addr(31));
    Processor::process_close_teleport_out_record(&d, &info, &config, &admin_key, &admin, &auth, &mut slot, &record, &mut target).unwrap();
    assert_eq!(target.lamports, 5);
    let r = Processor::process_teleport_out(&d, &info, &config, &admin_key, &mut admin, &auth, &mut slot, &mut record, &c, &out_accounts(), &h, 2, 6, 5);
    assert_eq!(r, Err(TeleportError::AlreadyInUse));
    assert_eq!(admin.allowance, 8);
}

#[test]
fn teleport_out_needs_an_unowned_slot() {
    let d = deployment();
    let owner = signer(d.owner);
    let admin_key = addr(8);
    let auth = signer(addr(9));
    let c = collaborators(&d);
    let info = config_info(&d, 100);
    let config = ready_config(&d, &admin_key);
    let mut admin = Admin::new();
    Processor::process_init_admin(&d, &owner, &mut admin, &auth.key, 10).unwrap();
    let h = [13u8; 32];
    let mut slot = empty_slot(record_key(&d, &h));
    slot.owner = addr(77);
    let mut record = TeleportOutRecord { is_init: false };
    let r = Processor::process_teleport_out(&d, &info, &config, &admin_key, &mut admin, &auth, &mut slot, &mut record, &c, &out_accounts(), &h, 1, 6, 5);
    assert_eq!(r, Err(TeleportError::AlreadyInUse));
    assert_eq!(admin.allowance, 10);
    assert!(!record.is_init);
}

#[test]
fn close_checks_config_and_admin() {
    let d = deployment();
    let owner = signer(d.owner);
    let admin_key = addr(8);
    let auth = signer(addr(9));
    let info = config_info(&d, 100);
    let mut config = ready_config(&d, &admin_key);
    let mut admin = Admin::new();
    Processor::process_init_admin(&d, &owner, &mut admin, &auth.key, 10).unwrap();
    let mut slot = Account { key: addr(40), owner: d.program_id, is_signer: false, lamports: 3, data_len: RECORD_LEN };
    let record = TeleportOutRecord { is_init: true };
    let mut target = empty_slot(addr(41));
    let stranger = signer(addr(42));
    assert_eq!(
        Processor::process_close_teleport_out_record(&d, &info, &config, &admin_key, &admin, &stranger, &mut slot, &record, &mut target),
        Err(CloseError::Refused(TeleportError::UnexpectedError))
    );
    Processor::process_freeze(&d, &owner, &mut config).unwrap();
    assert_eq!(
        Processor::process_close_teleport_out_record(&d, &info, &config, &admin_key, &admin, &auth, &mut slot, &record, &mut target),
        Err(CloseError::Refused(TeleportError::Freeze))
    );
    assert_eq!(slot.lamports, 3);
    assert_eq!(target.lamports, 0);
}

#[test]
fn config_account_gate() {
    let d = deployment();
    assert_eq!(Processor::check_config_account(&d, &config_info(&d, 0)), Ok(()));
    let mut wrong = config_info(&d, 0);
    wrong.data_len = 1;
    assert_eq!(Processor::check_config_account(&d, &wrong), Err(TeleportError::IncorrectProgramAccount));
}
