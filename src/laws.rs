use vstd::prelude::*;
use crate::address::Address;
use crate::error::{CloseError, TeleportError};
use crate::processor::{
    add_admin_outcome, close_outcome, config_outcome, created, debited, deposit_outcome, deposited,
    init_config_outcome, manage_outcome, owner_outcome, teleport_in_outcome, teleport_out_outcome,
    Collaborators,
};
use crate::state::{listed, Account, Admin, Config, Deployment, TeleportOutRecord};

verus! {

/// A call that changes an admin's allowance: an owner deposit, or the debit
/// of an outbound transfer, with whether the call returned `Ok`.
pub enum AllowanceChange {
    Deposit { amount: u64, ok: bool },
    Spend { amount: u64, ok: bool },
}

/// The admin after the calls in `changes`, in order: a call that returned
/// `Ok` leaves the admin as its handler's contract says, a refused one
/// leaves it as it was.
pub open spec fn apply_changes(admin: Admin, changes: Seq<AllowanceChange>) -> Admin
    decreases changes.len(),
{
    if changes.len() == 0 {
        admin
    } else {
        let before = apply_changes(admin, changes.drop_last());
        match changes.last() {
            AllowanceChange::Deposit { amount, ok } => if ok { deposited(before, amount) } else { before },
            AllowanceChange::Spend { amount, ok } => if ok { debited(before, amount) } else { before },
        }
    }
}

/// Every call in `changes` that returned `Ok` met its handler's condition
/// of success: a deposit that does not overflow, a debit no larger than the
/// allowance (see `successful_calls_meet_their_conditions`).
pub open spec fn consistent(admin: Admin, changes: Seq<AllowanceChange>) -> bool
    decreases changes.len(),
{
    if changes.len() == 0 {
        true
    } else {
        let before = apply_changes(admin, changes.drop_last());
        &&& consistent(admin, changes.drop_last())
        &&& match changes.last() {
            AllowanceChange::Deposit { amount, ok } => ok ==> before.allowance + amount <= u64::MAX,
            AllowanceChange::Spend { amount, ok } => ok ==> amount <= before.allowance,
        }
    }
}

/// The sum of the deposits in `changes` that returned `Ok`.
pub open spec fn total_deposits(changes: Seq<AllowanceChange>) -> int
    decreases changes.len(),
{
    if changes.len() == 0 {
        0
    } else {
        total_deposits(changes.drop_last()) + match changes.last() {
            AllowanceChange::Deposit { amount, ok } => if ok { amount as int } else { 0 },
            AllowanceChange::Spend { .. } => 0,
        }
    }
}

/// The sum of the debits in `changes` that returned `Ok`.
pub open spec fn total_spends(changes: Seq<AllowanceChange>) -> int
    decreases changes.len(),
{
    if changes.len() == 0 {
        0
    } else {
        total_spends(changes.drop_last()) + match changes.last() {
            AllowanceChange::Deposit { .. } => 0,
            AllowanceChange::Spend { amount, ok } => if ok { amount as int } else { 0 },
        }
    }
}

proof fn consistent_prefix(admin: Admin, changes: Seq<AllowanceChange>, k: int)
    requires
        consistent(admin, changes),
        0 <= k <= changes.len(),
    ensures
        consistent(admin, changes.take(k)),
    decreases changes.len(),
{
    if k == changes.len() {
        assert(changes.take(k) =~= changes);
    } else {
        consistent_prefix(admin, changes.drop_last(), k);
        assert(changes.drop_last().take(k) =~= changes.take(k));
    }
}

proof fn conserved(admin: Admin, changes: Seq<AllowanceChange>)
    requires
        consistent(admin, changes),
    ensures
        apply_changes(admin, changes).allowance == admin.allowance + total_deposits(changes) - total_spends(
            changes,
        ),
    decreases changes.len(),
{
    if changes.len() > 0 {
        conserved(admin, changes.drop_last());
    }
}

/// Initializing a configuration a second time is refused with
/// `AlreadyInUse`; the refused request leaves the configuration as it was.
pub proof fn init_config_twice(d: Deployment, owner: Account, info: Account, config: Config, rent_minimum: u64)
    requires
        init_config_outcome(d, owner, info, config, rent_minimum) is Ok,
    ensures
        init_config_outcome(d, owner, info, Config { is_init: true, ..config }, rent_minimum)
            == Err::<(), TeleportError>(TeleportError::AlreadyInUse),
{
}

/// Once a hash has been settled, every later outbound transfer that names
/// the hash's record is refused, whoever asks and for whatever amount, and
/// the allowance carries the first debit only.
pub proof fn replay_refused(
    d: Deployment,
    config_info: Account,
    config: Config,
    admin_key: Address,
    admin: Admin,
    auth: Account,
    record_info: Account,
    c: Collaborators,
    tx_hash: Seq<u8>,
    amount: u64,
    rent_minimum: u64,
    config2: Config,
    admin_key2: Address,
    auth2: Account,
    c2: Collaborators,
    amount2: u64,
)
    requires
        teleport_out_outcome(d, config_info, config, admin_key, admin, auth, record_info, c, tx_hash, amount) is Ok,
    ensures
        teleport_out_outcome(
            d,
            config_info,
            config2,
            admin_key2,
            debited(admin, amount),
            auth2,
            created(record_info, d.program_id, rent_minimum),
            c2,
            tx_hash,
            amount2,
        ) is Err,
        teleport_out_outcome(
            d,
            config_info,
            config,
            admin_key,
            debited(admin, amount),
            auth,
            created(record_info, d.program_id, rent_minimum),
            c,
            tx_hash,
            amount2,
        ) matches Err(e) ==> e == TeleportError::AlreadyInUse || e == TeleportError::UnexpectedError,
        debited(admin, amount).allowance == admin.allowance - amount,
{
}

/// Over any run of deposits and outbound transfers, the allowance is the
/// initial one plus the deposits that succeeded minus the debits that
/// succeeded, and after every call of the run that sum is at least zero.
pub proof fn allowance_conserved(admin: Admin, changes: Seq<AllowanceChange>)
    requires
        consistent(admin, changes),
    ensures
        apply_changes(admin, changes).allowance == admin.allowance + total_deposits(changes) - total_spends(
            changes,
        ),
        forall|k: int|
            0 <= k <= changes.len() ==> #[trigger] apply_changes(admin, changes.take(k)).allowance
                == admin.allowance + total_deposits(changes.take(k)) - total_spends(changes.take(k))
                && admin.allowance + total_deposits(changes.take(k)) - total_spends(changes.take(k)) >= 0,
{
    conserved(admin, changes);
    assert forall|k: int| 0 <= k <= changes.len() implies #[trigger] apply_changes(admin, changes.take(k)).allowance
        == admin.allowance + total_deposits(changes.take(k)) - total_spends(changes.take(k))
        && admin.allowance + total_deposits(changes.take(k)) - total_spends(changes.take(k)) >= 0 by {
        consistent_prefix(admin, changes, k);
        conserved(admin, changes.take(k));
    }
}

/// A deposit or an outbound transfer that returns `Ok` met the condition
/// that `consistent` asks of it, so every run of real calls is consistent.
pub proof fn successful_calls_meet_their_conditions(
    d: Deployment,
    owner: Account,
    config_info: Account,
    config: Config,
    admin_key: Address,
    admin: Admin,
    auth: Account,
    record_info: Account,
    c: Collaborators,
    tx_hash: Seq<u8>,
    amount: u64,
)
    ensures
        deposit_outcome(d, owner, admin, amount) is Ok ==> admin.allowance + amount <= u64::MAX,
        teleport_out_outcome(d, config_info, config, admin_key, admin, auth, record_info, c, tx_hash, amount)
            is Ok ==> amount <= admin.allowance,
{
}

/// An outbound transfer of more than the allowance is refused, and so leaves
/// the allowance as it was.
pub proof fn overspend_refused(
    d: Deployment,
    config_info: Account,
    config: Config,
    admin_key: Address,
    admin: Admin,
    auth: Account,
    record_info: Account,
    c: Collaborators,
    tx_hash: Seq<u8>,
    amount: u64,
)
    requires
        amount > admin.allowance,
    ensures
        teleport_out_outcome(d, config_info, config, admin_key, admin, auth, record_info, c, tx_hash, amount) is Err,
{
}

/// While the configuration is frozen, transfers and record closing are
/// refused with `Freeze`, and the owner can still manage the configuration.
pub proof fn freeze_gates_transfers(
    d: Deployment,
    config_info: Account,
    config: Config,
    admin_key: Address,
    admin: Admin,
    auth: Account,
    record_info: Account,
    record: TeleportOutRecord,
    target: Account,
    c: Collaborators,
    tx_hash: Seq<u8>,
    amount: u64,
    owner: Account,
    x: Address,
)
    requires
        config.is_frozen,
        config_outcome(d, config_info, config) is Ok,
        owner_outcome(d, owner) is Ok,
    ensures
        teleport_in_outcome(d, config_info, config, c) == Err::<(), TeleportError>(TeleportError::Freeze),
        teleport_out_outcome(d, config_info, config, admin_key, admin, auth, record_info, c, tx_hash, amount)
            == Err::<(), TeleportError>(TeleportError::Freeze),
        close_outcome(d, config_info, config, admin_key, admin, auth, record_info, record, target)
            == Err::<(), CloseError>(CloseError::Refused(TeleportError::Freeze)),
        manage_outcome(d, owner, config) is Ok,
        listed(config.admins@, x@) || config.admins@.len() < crate::state::MAX_ADMINS ==> add_admin_outcome(
            d,
            owner,
            config,
            x@,
        ) is Ok,
{
}

/// Once `x` is out of the admin set, an outbound transfer through `x` is
/// refused as an unknown admin, whatever its record holds.
pub proof fn removed_admin_refused(
    d: Deployment,
    config_info: Account,
    config: Config,
    removed: Config,
    x: Address,
    admin: Admin,
    auth: Account,
    record_info: Account,
    c: Collaborators,
    tx_hash: Seq<u8>,
    amount: u64,
)
    requires
        removed.admin_set() == config.admin_set().remove(x@),
        config_outcome(d, config_info, removed) is Ok,
        !removed.is_frozen,
    ensures
        teleport_out_outcome(d, config_info, removed, x, admin, auth, record_info, c, tx_hash, amount)
            == Err::<(), TeleportError>(TeleportError::UnexpectedError),
{
    assert(!removed.admin_set().contains(x@));
}

/// While a closed record's slot keeps its payload (and its owner), the hash
/// stays settled: a later outbound transfer naming it is refused. This is a
/// statement about the slot as the handlers leave it; a host that purges
/// a slot left at zero balance is outside what it covers.
pub proof fn closed_record_stays_settled(
    d: Deployment,
    config_info: Account,
    config: Config,
    admin_key: Address,
    admin: Admin,
    auth: Account,
    record_info: Account,
    record: TeleportOutRecord,
    target: Account,
    c: Collaborators,
    tx_hash: Seq<u8>,
    amount: u64,
)
    requires
        close_outcome(d, config_info, config, admin_key, admin, auth, record_info, record, target) is Ok,
    ensures
        teleport_out_outcome(
            d,
            config_info,
            config,
            admin_key,
            admin,
            auth,
            Account { lamports: 0, ..record_info },
            c,
            tx_hash,
            amount,
        ) is Err,
{
}

} // verus!
