use teleport::address::Address;
use teleport::error::TeleportError;
use teleport::instruction::{get_owner, init_config, AccountMeta, TeleportInstruction};

fn addr(b: u8) -> Address {
    Address::new([b; 32])
}

fn all_instructions() -> Vec<TeleportInstruction> {
    vec![
        TeleportInstruction::GetOwner,
        TeleportInstruction::InitConfig,
        TeleportInstruction::InitAdmin { auth: addr(3), allowance: 100 },
        TeleportInstruction::InitTeleportOutRecord,
        TeleportInstruction::AddAdmin { admin: addr(4) },
        TeleportInstruction::RemoveAdmin { admin: addr(5) },
        TeleportInstruction::Freeze,
        TeleportInstruction::Unfreeze,
        TeleportInstruction::TeleportIn { amount: 77, decimals: 8, to: addr(6) },
        TeleportInstruction::TeleportOut { tx_hash: [9u8; 32], amount: u64::MAX, decimals: 18 },
        TeleportInstruction::DepositAllowance { allowance: 50 },
        TeleportInstruction::CloseTeleportOutRecord,
    ]
}

#[test]
fn pack_then_unpack_gives_back_the_instruction() {
    for ins in all_instructions() {
        let bytes = ins.pack();
        assert_eq!(TeleportInstruction::unpack(&bytes), Some(ins));
    }
}

#[test]
fn pack_layout() {
    assert_eq!(TeleportInstruction::GetOwner.pack(), vec![0]);
    assert_eq!(TeleportInstruction::CloseTeleportOutRecord.pack(), vec![11]);
    let mut expected = vec![2];
    expected.extend([3u8; 32].iter().cloned());
    expected.extend(0x0102u64.to_le_bytes().iter().cloned());
    assert_eq!(TeleportInstruction::InitAdmin { auth: addr(3), allowance: 0x0102 }.pack(), expected);
    let mut expected = vec![9];
    expected.extend([9u8; 32].iter().cloned());
    expected.extend([5, 0, 0, 0, 0, 0, 0, 0, 6]);
    assert_eq!(TeleportInstruction::TeleportOut { tx_hash: [9u8; 32], amount: 5, decimals: 6 }.pack(), expected);
    let mut expected = vec![8, 1, 1, 0, 0, 0, 0, 0, 0, 2];
    expected.extend([6u8; 32].iter().cloned());
    assert_eq!(TeleportInstruction::TeleportIn { amount: 257, decimals: 2, to: addr(6) }.pack(), expected);
    assert_eq!(TeleportInstruction::DepositAllowance { allowance: 1 }.pack(), vec![10, 1, 0, 0, 0, 0, 0, 0, 0]);
}

#[test]
fn unpack_refuses_malformed_input() {
    assert_eq!(TeleportInstruction::unpack(&[]), None);
    assert_eq!(TeleportInstruction::unpack(&[12]), None);
    assert_eq!(TeleportInstruction::unpack(&[255]), None);
    assert_eq!(TeleportInstruction::unpack(&[0, 0]), None);
    assert_eq!(TeleportInstruction::unpack(&[10, 1, 0, 0]), None);
    let mut long = TeleportInstruction::DepositAllowance { allowance: 1 }.pack();
    long.push(0);
    assert_eq!(TeleportInstruction::unpack(&long), None);
    assert_eq!(TeleportInstruction::unpack(&[6]), Some(TeleportInstruction::Freeze));
}

#[test]
fn get_owner_instruction() {
    let ins = get_owner(&addr(1));
    assert_eq!(ins.program_id, addr(1));
    assert!(ins.accounts.is_empty());
    assert_eq!(ins.data, vec![0]);
}

#[test]
fn init_config_instruction() {
    let ins = init_config(&addr(1), &addr(2), &addr(3));
    assert_eq!(ins.program_id, addr(1));
    assert_eq!(ins.data, vec![1]);
    assert_eq!(ins.accounts.len(), 3);
    assert_eq!(ins.accounts[0], AccountMeta { pubkey: addr(2), is_signer: true, is_writable: true });
    assert_eq!(ins.accounts[1], AccountMeta { pubkey: addr(3), is_signer: false, is_writable: true });
    let rent = solana_program::sysvar::rent::id();
    assert_eq!(rent.to_string(), "SysvarRent111111111111111111111111111111111");
    assert_eq!(
        ins.accounts[2].pubkey.to_bytes(),
        [6, 167, 213, 23, 25, 44, 92, 81, 33, 140, 201, 76, 61, 74, 241, 127, 88, 218, 238, 8, 155, 161, 253, 68, 227, 219, 217, 138, 0, 0, 0, 0]
    );
    assert_eq!(ins.accounts[2], AccountMeta { pubkey: Address::new(rent.to_bytes()), is_signer: false, is_writable: false });
}

#[test]
fn error_messages() {
    assert_eq!(TeleportError::AuthFailed.message(), "Auth Failed");
    assert_eq!(TeleportError::AlreadyInUse.message(), "Already In Use");
    assert_eq!(TeleportError::NotRentExempt.message(), "Not Rent Exempt");
}
