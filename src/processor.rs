use vstd::prelude::*;
use crate::address::{Address, derived_address, find_record_address};
use crate::error::{CloseError, TeleportError};
use crate::instruction::{AccountMeta, Instruction};
use crate::state::{
    listed, Account, Admin, Config, Deployment, TeleportOutRecord, CONFIG_LEN, MAX_ADMINS, RECORD_LEN,
};

verus! {

/// Custody-program instruction that invokes another program.
pub const WALLET_INVOKE: u8 = 3;

/// Token-program instruction that mints to an account, with decimals check.
pub const TOKEN_MINT_TO_CHECKED: u8 = 15;

/// Token-program instruction that burns from an account, with decimals check.
pub const TOKEN_BURN_CHECKED: u8 = 14;

/// The identities of the collaborators named in a transfer request.
#[derive(Clone, Copy, Debug)]
pub struct Collaborators {
    /// The custody (multi-signature wallet) program.
    pub wallet_program: Address,
    /// The token program.
    pub token_program: Address,
    /// The system allocator program.
    pub system_program: Address,
    /// The program that is being invoked.
    pub teleport_program: Address,
    /// The asset's mint.
    pub mint: Address,
}

/// The custody-side accounts of an inbound transfer.
#[derive(Clone, Copy, Debug)]
pub struct TeleportInAccounts {
    pub wallet: Address,
    pub wallet_pda: Address,
    pub wallet_signer: Address,
    /// The token account minted to.
    pub from: Address,
    /// The authority of `from`, a signer.
    pub from_auth: Address,
}

/// The custody-side accounts of an outbound transfer.
#[derive(Clone, Copy, Debug)]
pub struct TeleportOutAccounts {
    pub wallet: Address,
    pub wallet_signer: Address,
    pub fee_payer: Address,
    /// The token account burnt from.
    pub to: Address,
    pub mint_authority: Address,
}

/// An account entry of a call.
pub open spec fn meta(pubkey: Address, is_signer: bool, is_writable: bool) -> AccountMeta {
    AccountMeta { pubkey, is_signer, is_writable }
}

/// The accounts of the custody call of an inbound transfer, in order.
pub open spec fn mint_call_accounts(c: Collaborators, a: TeleportInAccounts) -> Seq<AccountMeta> {
    seq![
        meta(a.wallet, false, true),
        meta(a.wallet_pda, false, false),
        meta(c.token_program, false, false),
        meta(a.wallet_signer, true, false),
        meta(a.from, false, true),
        meta(c.mint, false, true),
        meta(a.from_auth, true, false),
    ]
}

/// The accounts of the custody call of an outbound transfer, in order.
pub open spec fn burn_call_accounts(c: Collaborators, a: TeleportOutAccounts) -> Seq<AccountMeta> {
    seq![
        meta(a.wallet, false, true),
        meta(a.mint_authority, false, false),
        meta(a.fee_payer, false, false),
        meta(c.token_program, false, false),
        meta(a.wallet_signer, true, false),
        meta(c.mint, false, true),
        meta(a.to, false, true),
        meta(a.mint_authority, false, false),
    ]
}

/// The little-endian bytes of `x`.
pub open spec fn le_bytes(x: u64) -> Seq<u8> {
    Seq::new(8, |i: int| ((x >> ((8 * i) as u64)) & 0xff) as u8)
}

/// Data of a custody-program call that runs token instruction `op` over the
/// three accounts from index `first` on, the last of them a signer.
pub open spec fn custody_data(program_idx: u8, first: u8, op: u8, amount: u64, decimals: u8) -> Seq<u8> {
    seq![WALLET_INVOKE, program_idx, 3u8, 0u8, first, 1u8, (first + 1) as u8, 1u8, (first + 2) as u8, 2u8, op]
        + le_bytes(amount) + seq![decimals]
}

/// The custody call of an inbound transfer: mint `amount`.
pub open spec fn mint_call_data(amount: u64, decimals: u8) -> Seq<u8> {
    custody_data(2, 4, TOKEN_MINT_TO_CHECKED, amount, decimals)
}

/// The custody call of an outbound transfer: burn `amount`.
pub open spec fn burn_call_data(amount: u64, decimals: u8) -> Seq<u8> {
    custody_data(3, 5, TOKEN_BURN_CHECKED, amount, decimals)
}

/// The owner gate: the caller is the owner and signed.
pub open spec fn owner_outcome(d: Deployment, caller: Account) -> Result<(), TeleportError> {
    if caller.key@ != d.owner@ || !caller.is_signer {
        Err(TeleportError::AuthFailed)
    } else {
        Ok(())
    }
}

/// The configuration account gate: owned by this program and of the right
/// size.
pub open spec fn config_account_outcome(d: Deployment, info: Account) -> Result<(), TeleportError> {
    if info.owner@ != d.program_id@ || info.data_len != CONFIG_LEN {
        Err(TeleportError::IncorrectProgramAccount)
    } else {
        Ok(())
    }
}

/// The configuration gate: owned by this program, of the right size, and
/// initialized.
pub open spec fn config_outcome(d: Deployment, info: Account, config: Config) -> Result<(), TeleportError> {
    if config_account_outcome(d, info) is Err {
        Err(TeleportError::IncorrectProgramAccount)
    } else if !config.is_init {
        Err(TeleportError::UninitializedAccount)
    } else {
        Ok(())
    }
}

/// The admin gate: the admin is listed and initialized, and its auth
/// identity signed.
pub open spec fn admin_outcome(config: Config, admin_key: Address, admin: Admin, auth: Account) -> Result<(), TeleportError> {
    if !listed(config.admins@, admin_key@) {
        Err(TeleportError::UnexpectedError)
    } else if !admin.is_init {
        Err(TeleportError::UninitializedAccount)
    } else if auth.key@ != admin.auth@ {
        Err(TeleportError::UnexpectedError)
    } else if !auth.is_signer {
        Err(TeleportError::MissingRequiredSignature)
    } else {
        Ok(())
    }
}

/// The record gate of a close: owned by this program, of the right size,
/// and initialized.
pub open spec fn record_outcome(d: Deployment, info: Account, record: TeleportOutRecord) -> Result<(), TeleportError> {
    if info.owner@ != d.program_id@ || info.data_len != RECORD_LEN {
        Err(TeleportError::IncorrectProgramAccount)
    } else if !record.is_init {
        Err(TeleportError::UninitializedAccount)
    } else {
        Ok(())
    }
}

/// The outcome of a configuration-management request on an initialized
/// configuration.
pub open spec fn manage_outcome(d: Deployment, owner: Account, config: Config) -> Result<(), TeleportError> {
    match owner_outcome(d, owner) {
        Err(e) => Err(e),
        Ok(_) => if !config.is_init {
            Err(TeleportError::IncorrectProgramAccount)
        } else {
            Ok(())
        },
    }
}

/// The outcome of adding `x` to the admin set: a listed identity is a
/// no-op, a new one needs room in the list.
pub open spec fn add_admin_outcome(d: Deployment, owner: Account, config: Config, x: Seq<u8>) -> Result<(), TeleportError> {
    match manage_outcome(d, owner, config) {
        Err(e) => Err(e),
        Ok(_) => if listed(config.admins@, x) || config.admins@.len() < MAX_ADMINS {
            Ok(())
        } else {
            Err(TeleportError::UnexpectedError)
        },
    }
}

/// `admin` after `amount` was added to its allowance.
pub open spec fn deposited(admin: Admin, amount: u64) -> Admin {
    Admin { allowance: (admin.allowance + amount) as u64, ..admin }
}

/// `admin` after `amount` was debited from its allowance.
pub open spec fn debited(admin: Admin, amount: u64) -> Admin {
    Admin { allowance: (admin.allowance - amount) as u64, ..admin }
}

/// A record slot after the record was created in it for `program`.
pub open spec fn created(info: Account, program: Address, rent_minimum: u64) -> Account {
    Account { owner: program, lamports: rent_minimum, data_len: RECORD_LEN, ..info }
}

/// The outcome of an inbound transfer.
pub open spec fn teleport_in_outcome(d: Deployment, config_info: Account, config: Config, c: Collaborators) -> Result<(), TeleportError> {
    match config_outcome(d, config_info, config) {
        Err(e) => Err(e),
        Ok(_) => if config.is_frozen {
            Err(TeleportError::Freeze)
        } else if c.wallet_program@ != d.multisig_program@ || c.token_program@ != d.token_program@
            || c.mint@ != d.mint@ {
            Err(TeleportError::UnexpectedError)
        } else {
            Ok(())
        },
    }
}

/// The outcome of an outbound transfer of `amount` settling `tx_hash`.
pub open spec fn teleport_out_outcome(
    d: Deployment,
    config_info: Account,
    config: Config,
    admin_key: Address,
    admin: Admin,
    auth: Account,
    record_info: Account,
    c: Collaborators,
    tx_hash: Seq<u8>,
    amount: u64,
) -> Result<(), TeleportError> {
    match config_outcome(d, config_info, config) {
        Err(e) => Err(e),
        Ok(_) => if config.is_frozen {
            Err(TeleportError::Freeze)
        } else {
            match admin_outcome(config, admin_key, admin, auth) {
                Err(e) => Err(e),
                Ok(_) => if admin.allowance < amount {
                    Err(TeleportError::UnexpectedError)
                } else if c.wallet_program@ != d.multisig_program@ || c.token_program@ != d.token_program@
                    || c.system_program@ != d.system_program@ || c.teleport_program@ != d.program_id@ {
                    Err(TeleportError::UnexpectedError)
                } else {
                    match derived_address(tx_hash, d.program_id@) {
                        None => Err(TeleportError::UnexpectedError),
                        Some(a) => if record_info.key@ != a {
                            Err(TeleportError::UnexpectedError)
                        } else if record_info.lamports != 0 || record_info.data_len != 0
                            || record_info.owner@ != d.system_program@ {
                            Err(TeleportError::AlreadyInUse)
                        } else {
                            Ok(())
                        },
                    }
                },
            }
        },
    }
}

/// The outcome of closing a replay-protection record into `target`. A
/// target balance that would pass `u64::MAX` is the host's
/// `InvalidAccountData`, kept apart from the bridge's own refusals.
pub open spec fn close_outcome(
    d: Deployment,
    config_info: Account,
    config: Config,
    admin_key: Address,
    admin: Admin,
    auth: Account,
    record_info: Account,
    record: TeleportOutRecord,
    target: Account,
) -> Result<(), CloseError> {
    match config_outcome(d, config_info, config) {
        Err(e) => Err(CloseError::Refused(e)),
        Ok(_) => if config.is_frozen {
            Err(CloseError::Refused(TeleportError::Freeze))
        } else {
            match admin_outcome(config, admin_key, admin, auth) {
                Err(e) => Err(CloseError::Refused(e)),
                Ok(_) => match record_outcome(d, record_info, record) {
                    Err(e) => Err(CloseError::Refused(e)),
                    Ok(_) => if target.lamports + record_info.lamports > u64::MAX {
                        Err(CloseError::InvalidAccountData)
                    } else {
                        Ok(())
                    },
                },
            }
        },
    }
}

/// The outcome of initializing the configuration held in `info`, whose
/// balance must reach `rent_minimum`.
pub open spec fn init_config_outcome(d: Deployment, owner: Account, info: Account, config: Config, rent_minimum: u64) -> Result<(), TeleportError> {
    match owner_outcome(d, owner) {
        Err(e) => Err(e),
        Ok(_) => if config.is_init {
            Err(TeleportError::AlreadyInUse)
        } else if info.lamports < rent_minimum {
            Err(TeleportError::NotRentExempt)
        } else {
            Ok(())
        },
    }
}

/// The outcome of initializing an admin record.
pub open spec fn init_admin_outcome(d: Deployment, owner: Account, admin: Admin) -> Result<(), TeleportError> {
    match owner_outcome(d, owner) {
        Err(e) => Err(e),
        Ok(_) => if admin.is_init {
            Err(TeleportError::AlreadyInUse)
        } else {
            Ok(())
        },
    }
}

/// The outcome of adding `amount` to an admin's allowance.
pub open spec fn deposit_outcome(d: Deployment, owner: Account, admin: Admin, amount: u64) -> Result<(), TeleportError> {
    match owner_outcome(d, owner) {
        Err(e) => Err(e),
        Ok(_) => if !admin.is_init {
            Err(TeleportError::UninitializedAccount)
        } else if admin.allowance + amount > u64::MAX {
            Err(TeleportError::UnexpectedError)
        } else {
            Ok(())
        },
    }
}

/// Little-endian bytes of `x`.
fn le_bytes_of(x: u64) -> (r: Vec<u8>)
    ensures
        r@ == le_bytes(x),
{
    let mut r: Vec<u8> = Vec::new();
    let mut i: u64 = 0;
    while i < 8
        invariant
            i <= 8,
            r@.len() == i,
            forall|j: int| 0 <= j < i ==> r@[j] == ((x >> ((8 * j) as u64)) & 0xff) as u8,
        decreases 8 - i,
    {
        r.push(((x >> (8 * i)) & 0xff) as u8);
        i = i + 1;
    }
    assert(r@ =~= le_bytes(x));
    r
}

/// Builds the data of a custody-program call.
fn custody_call(program_idx: u8, first: u8, op: u8, amount: u64, decimals: u8) -> (r: Vec<u8>)
    requires
        first <= 253,
    ensures
        r@ == custody_data(program_idx, first, op, amount, decimals),
{
    let mut data: Vec<u8> = vec![WALLET_INVOKE, program_idx, 3, 0, first, 1, first + 1, 1, first + 2, 2, op];
    let mut amount_bytes = le_bytes_of(amount);
    data.append(&mut amount_bytes);
    data.push(decimals);
    assert(data@ =~= custody_data(program_idx, first, op, amount, decimals));
    data
}

/// Request handlers. Each one checks every precondition before it changes a
/// record, so that a refused request leaves every record as it was.
pub struct Processor {}

impl Processor {
    /// Succeeds when `caller` is the owner and signed.
    pub fn only_owner(d: &Deployment, caller: &Account) -> (r: Result<(), TeleportError>)
        ensures
            r == owner_outcome(*d, *caller),
    {
        if !caller.key.same_as(&d.owner) {
            return Err(TeleportError::AuthFailed);
        }
        if !caller.is_signer {
            return Err(TeleportError::AuthFailed);
        }
        Ok(())
    }

    /// Checks that the configuration account is owned by this program and of
    /// the right size, before its data is read.
    pub fn check_config_account(d: &Deployment, info: &Account) -> (r: Result<(), TeleportError>)
        ensures
            r == config_account_outcome(*d, *info),
    {
        if !info.owner.same_as(&d.program_id) {
            return Err(TeleportError::IncorrectProgramAccount);
        }
        if info.data_len != CONFIG_LEN {
            return Err(TeleportError::IncorrectProgramAccount);
        }
        Ok(())
    }

    /// Checks that the configuration is owned by this program, of the right
    /// size, and initialized.
    pub fn get_config(d: &Deployment, info: &Account, config: &Config) -> (r: Result<(), TeleportError>)
        ensures
            r == config_outcome(*d, *info, *config),
    {
        match Self::check_config_account(d, info) {
            Err(e) => return Err(e),
            Ok(_) => {},
        }
        if !config.is_init {
            return Err(TeleportError::UninitializedAccount);
        }
        Ok(())
    }

    /// Checks that the record is owned by this program, of the right size,
    /// and initialized.
    pub fn get_teleport_out_record(d: &Deployment, info: &Account, record: &TeleportOutRecord) -> (r: Result<(), TeleportError>)
        ensures
            r == record_outcome(*d, *info, *record),
    {
        if !info.owner.same_as(&d.program_id) {
            return Err(TeleportError::IncorrectProgramAccount);
        }
        if info.data_len != RECORD_LEN {
            return Err(TeleportError::IncorrectProgramAccount);
        }
        if !record.is_init {
            return Err(TeleportError::UninitializedAccount);
        }
        Ok(())
    }

    /// Checks that `admin_key` is in the admin set, that its record is
    /// initialized, and that its auth identity signed.
    pub fn check_admin(config: &Config, admin_key: &Address, admin: &Admin, auth: &Account) -> (r: Result<(), TeleportError>)
        ensures
            r == admin_outcome(*config, *admin_key, *admin, *auth),
    {
        if !config.contain_admin(admin_key) {
            return Err(TeleportError::UnexpectedError);
        }
        if !admin.is_init {
            return Err(TeleportError::UninitializedAccount);
        }
        if !auth.key.same_as(&admin.auth) {
            return Err(TeleportError::UnexpectedError);
        }
        if !auth.is_signer {
            return Err(TeleportError::MissingRequiredSignature);
        }
        Ok(())
    }
    /// Settles the remote transaction `tx_hash`: debits `amount` from the
    /// admin's allowance, creates and initializes the hash's record, and
    /// returns the data of the custody call that burns `amount`.
    /// `rent_minimum` is the balance that the record is funded with.
    pub fn process_teleport_out(
        d: &Deployment,
        config_info: &Account,
        config: &Config,
        admin_key: &Address,
        admin: &mut Admin,
        auth: &Account,
        record_info: &mut Account,
        record: &mut TeleportOutRecord,
        c: &Collaborators,
        a: &TeleportOutAccounts,
        tx_hash: &[u8; 32],
        amount: u64,
        decimals: u8,
        rent_minimum: u64,
    ) -> (r: Result<Instruction, TeleportError>)
        ensures
            r is Ok == teleport_out_outcome(*d, *config_info, *config, *admin_key, *old(admin), *auth,
                *old(record_info), *c, tx_hash@, amount) is Ok,
            r matches Err(e) ==> teleport_out_outcome(*d, *config_info, *config, *admin_key, *old(admin), *auth,
                *old(record_info), *c, tx_hash@, amount) == Err::<(), TeleportError>(e),
            r is Err ==> *final(admin) == *old(admin) && *final(record_info) == *old(record_info)
                && *final(record) == *old(record),
            r matches Ok(call) ==> {
                &&& call.program_id == c.wallet_program
                &&& call.accounts@ == burn_call_accounts(*c, *a)
                &&& call.data@ == burn_call_data(amount, decimals)
                &&& *final(admin) == debited(*old(admin), amount)
                &&& final(admin).allowance == old(admin).allowance - amount
                &&& final(record).is_init
                &&& *final(record_info) == created(*old(record_info), d.program_id, rent_minimum)
            },
    {
        match Self::get_config(d, config_info, config) {
            Err(e) => return Err(e),
            Ok(_) => {},
        }
        if config.is_frozen {
            return Err(TeleportError::Freeze);
        }
        match Self::check_admin(config, admin_key, admin, auth) {
            Err(e) => return Err(e),
            Ok(_) => {},
        }
        if admin.allowance < amount {
            return Err(TeleportError::UnexpectedError);
        }
        if !c.wallet_program.same_as(&d.multisig_program) {
            return Err(TeleportError::UnexpectedError);
        }
        if !c.token_program.same_as(&d.token_program) {
            return Err(TeleportError::UnexpectedError);
        }
        if !c.system_program.same_as(&d.system_program) {
            return Err(TeleportError::UnexpectedError);
        }
        if !c.teleport_program.same_as(&d.program_id) {
            return Err(TeleportError::UnexpectedError);
        }
        let pda = match find_record_address(tx_hash, &d.program_id) {
            None => return Err(TeleportError::UnexpectedError),
            Some(a) => a,
        };
        if !record_info.key.same_as(&pda) {
            return Err(TeleportError::UnexpectedError);
        }
        if record_info.lamports != 0 || record_info.data_len != 0 || !record_info.owner.same_as(
            &d.system_program,
        ) {
            return Err(TeleportError::AlreadyInUse);
        }
        // every check passed: apply the debit and create the record
        admin.allowance = admin.allowance - amount;
        record_info.owner = d.program_id;
        record_info.lamports = rent_minimum;
        record_info.data_len = RECORD_LEN;
        record.is_init = true;
        let accounts = vec![
            AccountMeta { pubkey: a.wallet, is_signer: false, is_writable: true },
            AccountMeta { pubkey: a.mint_authority, is_signer: false, is_writable: false },
            AccountMeta { pubkey: a.fee_payer, is_signer: false, is_writable: false },
            AccountMeta { pubkey: c.token_program, is_signer: false, is_writable: false },
            AccountMeta { pubkey: a.wallet_signer, is_signer: true, is_writable: false },
            AccountMeta { pubkey: c.mint, is_signer: false, is_writable: true },
            AccountMeta { pubkey: a.to, is_signer: false, is_writable: true },
            AccountMeta { pubkey: a.mint_authority, is_signer: false, is_writable: false },
        ];
        let data = custody_call(3, 5, TOKEN_BURN_CHECKED, amount, decimals);
        let call = Instruction { program_id: c.wallet_program, accounts, data };
        assert(call.accounts@ =~= burn_call_accounts(*c, *a));
        Ok(call)
    }

    /// Authorizes an inbound transfer and returns the data of the custody
    /// call that mints `amount`.
    pub fn process_teleport_in(
        d: &Deployment,
        config_info: &Account,
        config: &Config,
        c: &Collaborators,
        a: &TeleportInAccounts,
        amount: u64,
        decimals: u8,
    ) -> (r: Result<Instruction, TeleportError>)
        ensures
            r is Ok == teleport_in_outcome(*d, *config_info, *config, *c) is Ok,
            r matches Err(e) ==> teleport_in_outcome(*d, *config_info, *config, *c) == Err::<(), TeleportError>(e),
            r matches Ok(call) ==> call.program_id == c.wallet_program && call.accounts@ == mint_call_accounts(*c, *a)
                && call.data@ == mint_call_data(amount, decimals),
    {
        match Self::get_config(d, config_info, config) {
            Err(e) => return Err(e),
            Ok(_) => {},
        }
        if config.is_frozen {
            return Err(TeleportError::Freeze);
        }
        if !c.wallet_program.same_as(&d.multisig_program) {
            return Err(TeleportError::UnexpectedError);
        }
        if !c.token_program.same_as(&d.token_program) {
            return Err(TeleportError::UnexpectedError);
        }
        if !c.mint.same_as(&d.mint) {
            return Err(TeleportError::UnexpectedError);
        }
        let accounts = vec![
            AccountMeta { pubkey: a.wallet, is_signer: false, is_writable: true },
            AccountMeta { pubkey: a.wallet_pda, is_signer: false, is_writable: false },
            AccountMeta { pubkey: c.token_program, is_signer: false, is_writable: false },
            AccountMeta { pubkey: a.wallet_signer, is_signer: true, is_writable: false },
            AccountMeta { pubkey: a.from, is_signer: false, is_writable: true },
            AccountMeta { pubkey: c.mint, is_signer: false, is_writable: true },
            AccountMeta { pubkey: a.from_auth, is_signer: true, is_writable: false },
        ];
        let data = custody_call(2, 4, TOKEN_MINT_TO_CHECKED, amount, decimals);
        let call = Instruction { program_id: c.wallet_program, accounts, data };
        assert(call.accounts@ =~= mint_call_accounts(*c, *a));
        Ok(call)
    }

    /// Moves the whole balance of a settled record to `target`.
    pub fn process_close_teleport_out_record(
        d: &Deployment,
        config_info: &Account,
        config: &Config,
        admin_key: &Address,
        admin: &Admin,
        auth: &Account,
        record_info: &mut Account,
        record: &TeleportOutRecord,
        target: &mut Account,
    ) -> (r: Result<(), CloseError>)
        ensures
            r == close_outcome(*d, *config_info, *config, *admin_key, *admin, *auth, *old(record_info),
                *record, *old(target)),
            r is Err ==> *final(record_info) == *old(record_info) && *final(target) == *old(target),
            r is Ok ==> final(target).lamports == old(target).lamports + old(record_info).lamports
                && final(record_info).lamports == 0
                && *final(target) == (Account { lamports: final(target).lamports, ..*old(target) })
                && *final(record_info) == (Account { lamports: 0, ..*old(record_info) }),
    {
        match Self::get_config(d, config_info, config) {
            Err(e) => return Err(CloseError::Refused(e)),
            Ok(_) => {},
        }
        if config.is_frozen {
            return Err(CloseError::Refused(TeleportError::Freeze));
        }
        match Self::check_admin(config, admin_key, admin, auth) {
            Err(e) => return Err(CloseError::Refused(e)),
            Ok(_) => {},
        }
        match Self::get_teleport_out_record(d, record_info, record) {
            Err(e) => return Err(CloseError::Refused(e)),
            Ok(_) => {},
        }
        let total = match target.lamports.checked_add(record_info.lamports) {
            None => return Err(CloseError::InvalidAccountData),
            Some(t) => t,
        };
        target.lamports = total;
        record_info.lamports = 0;
        Ok(())
    }
    /// Marks the configuration initialized.
    pub fn process_init_config(
        d: &Deployment,
        owner: &Account,
        config_info: &Account,
        config: &mut Config,
        rent_minimum: u64,
    ) -> (r: Result<(), TeleportError>)
        ensures
            r == init_config_outcome(*d, *owner, *config_info, *old(config), rent_minimum),
            r is Err ==> *final(config) == *old(config),
            r is Ok ==> *final(config) == (Config { is_init: true, ..*old(config) }),
    {
        match Self::only_owner(d, owner) {
            Err(e) => return Err(e),
            Ok(_) => {},
        }
        if config.is_init {
            return Err(TeleportError::AlreadyInUse);
        }
        if config_info.lamports < rent_minimum {
            return Err(TeleportError::NotRentExempt);
        }
        config.is_init = true;
        Ok(())
    }

    /// Initializes an admin record with its auth identity and allowance.
    pub fn process_init_admin(
        d: &Deployment,
        owner: &Account,
        admin: &mut Admin,
        auth: &Address,
        allowance: u64,
    ) -> (r: Result<(), TeleportError>)
        ensures
            r == init_admin_outcome(*d, *owner, *old(admin)),
            r is Err ==> *final(admin) == *old(admin),
            r is Ok ==> *final(admin) == (Admin { is_init: true, auth: *auth, allowance }),
    {
        match Self::only_owner(d, owner) {
            Err(e) => return Err(e),
            Ok(_) => {},
        }
        if admin.is_init {
            return Err(TeleportError::AlreadyInUse);
        }
        admin.is_init = true;
        admin.auth = *auth;
        admin.allowance = allowance;
        Ok(())
    }

    /// Marks a replay-protection record initialized.
    pub fn process_init_teleport_out_record(record: &mut TeleportOutRecord) -> (r: Result<(), TeleportError>)
        ensures
            old(record).is_init ==> r == Err::<(), TeleportError>(TeleportError::AlreadyInUse),
            !old(record).is_init ==> r is Ok,
            final(record).is_init,
    {
        if record.is_init {
            return Err(TeleportError::AlreadyInUse);
        }
        record.is_init = true;
        Ok(())
    }

    /// Adds `admin` to the admin set of an initialized configuration.
    pub fn process_add_admin(
        d: &Deployment,
        owner: &Account,
        config: &mut Config,
        admin: &Address,
    ) -> (r: Result<(), TeleportError>)
        requires
            old(config).wf(),
        ensures
            final(config).wf(),
            r == add_admin_outcome(*d, *owner, *old(config), admin@),
            r is Err ==> final(config).same_as(*old(config)),
            r is Ok ==> final(config).admin_set() == old(config).admin_set().insert(admin@)
                && final(config).is_init == old(config).is_init
                && final(config).is_frozen == old(config).is_frozen,
    {
        match Self::only_owner(d, owner) {
            Err(e) => return Err(e),
            Ok(_) => {},
        }
        if !config.is_init {
            return Err(TeleportError::IncorrectProgramAccount);
        }
        match config.add_admin(admin) {
            Err(e) => Err(e),
            Ok(_) => Ok(()),
        }
    }

    /// Takes `admin` out of the admin set of an initialized configuration.
    pub fn process_remove_admin(
        d: &Deployment,
        owner: &Account,
        config: &mut Config,
        admin: &Address,
    ) -> (r: Result<(), TeleportError>)
        requires
            old(config).wf(),
        ensures
            final(config).wf(),
            r == manage_outcome(*d, *owner, *old(config)),
            r is Err ==> final(config).same_as(*old(config)),
            r is Ok ==> final(config).admin_set() == old(config).admin_set().remove(admin@)
                && final(config).is_init == old(config).is_init
                && final(config).is_frozen == old(config).is_frozen,
    {
        match Self::only_owner(d, owner) {
            Err(e) => return Err(e),
            Ok(_) => {},
        }
        if !config.is_init {
            return Err(TeleportError::IncorrectProgramAccount);
        }
        match config.remove_admin(admin) {
            Err(e) => Err(e),
            Ok(_) => Ok(()),
        }
    }

    /// Freezes transfers.
    pub fn process_freeze(d: &Deployment, owner: &Account, config: &mut Config) -> (r: Result<(), TeleportError>)
        ensures
            r == manage_outcome(*d, *owner, *old(config)),
            r is Err ==> *final(config) == *old(config),
            r is Ok ==> *final(config) == (Config { is_frozen: true, ..*old(config) }),
    {
        match Self::only_owner(d, owner) {
            Err(e) => return Err(e),
            Ok(_) => {},
        }
        if !config.is_init {
            return Err(TeleportError::IncorrectProgramAccount);
        }
        config.is_frozen = true;
        Ok(())
    }

    /// Lets transfers through again.
    pub fn process_unfreeze(d: &Deployment, owner: &Account, config: &mut Config) -> (r: Result<(), TeleportError>)
        ensures
            r == manage_outcome(*d, *owner, *old(config)),
            r is Err ==> *final(config) == *old(config),
            r is Ok ==> *final(config) == (Config { is_frozen: false, ..*old(config) }),
    {
        match Self::only_owner(d, owner) {
            Err(e) => return Err(e),
            Ok(_) => {},
        }
        if !config.is_init {
            return Err(TeleportError::IncorrectProgramAccount);
        }
        config.is_frozen = false;
        Ok(())
    }

    /// Adds `amount` to an admin's allowance; an overflow refuses the
    /// request.
    pub fn process_deposit_allowance(
        d: &Deployment,
        owner: &Account,
        admin: &mut Admin,
        amount: u64,
    ) -> (r: Result<(), TeleportError>)
        ensures
            r == deposit_outcome(*d, *owner, *old(admin), amount),
            r is Err ==> *final(admin) == *old(admin),
            r is Ok ==> *final(admin) == deposited(*old(admin), amount),
            r is Ok ==> final(admin).allowance == old(admin).allowance + amount,
    {
        match Self::only_owner(d, owner) {
            Err(e) => return Err(e),
            Ok(_) => {},
        }
        if !admin.is_init {
            return Err(TeleportError::UninitializedAccount);
        }
        let total = match admin.allowance.checked_add(amount) {
            None => return Err(TeleportError::UnexpectedError),
            Some(t) => t,
        };
        admin.allowance = total;
        Ok(())
    }
}

} // verus!
