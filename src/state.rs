use vstd::prelude::*;
use crate::address::Address;
use crate::error::TeleportError;

verus! {

/// Most admins a configuration can list.
pub const MAX_ADMINS: usize = 10;

/// Size in bytes of an encoded configuration: two flags, a `u32` count and
/// room for `MAX_ADMINS` identities.
pub const CONFIG_LEN: u64 = 326;

/// Size in bytes of an encoded admin: a flag, an identity and a `u64`.
pub const ADMIN_LEN: u64 = 41;

/// Size in bytes of an encoded replay-protection record: one flag.
pub const RECORD_LEN: u64 = 1;

/// Whether `x` is listed in `admins`.
pub open spec fn listed(admins: Seq<Address>, x: Seq<u8>) -> bool {
    exists|i: int| 0 <= i < admins.len() && admins[i]@ == x
}

/// No identity is listed twice.
pub open spec fn no_repeats(admins: Seq<Address>) -> bool {
    forall|i: int, j: int| 0 <= i < j < admins.len() ==> admins[i]@ != admins[j]@
}

/// The deployment's singleton configuration.
#[derive(Clone, Debug)]
pub struct Config {
    pub is_init: bool,
    pub is_frozen: bool,
    pub admins: Vec<Address>,
}

impl Config {
    /// The admin list is bounded and holds each identity once.
    pub open spec fn wf(&self) -> bool {
        &&& self.admins@.len() <= MAX_ADMINS
        &&& no_repeats(self.admins@)
    }

    /// Equal flags and an equal admin list.
    pub open spec fn same_as(&self, other: Config) -> bool {
        &&& self.is_init == other.is_init
        &&& self.is_frozen == other.is_frozen
        &&& self.admins@ == other.admins@
    }

    /// The set of admin identities.
    pub open spec fn admin_set(&self) -> Set<Seq<u8>> {
        Set::new(|x: Seq<u8>| listed(self.admins@, x))
    }

    /// A fresh, uninitialized configuration.
    pub fn new() -> (r: Config)
        ensures
            !r.is_init,
            !r.is_frozen,
            r.admins@.len() == 0,
            r.wf(),
    {
        Config { is_init: false, is_frozen: false, admins: Vec::new() }
    }

    /// Whether `admin` is in the admin set.
    pub fn contain_admin(&self, admin: &Address) -> (r: bool)
        ensures
            r == listed(self.admins@, admin@),
            r == self.admin_set().contains(admin@),
    {
        let mut i: usize = 0;
        while i < self.admins.len()
            invariant
                i <= self.admins@.len(),
                forall|j: int| 0 <= j < i ==> self.admins@[j]@ != admin@,
            decreases self.admins@.len() - i,
        {
            if self.admins[i].same_as(admin) {
                return true;
            }
            i = i + 1;
        }
        false
    }

    /// Adds `admin` to the admin set. Adding a listed identity changes
    /// nothing; adding to a full list fails with `UnexpectedError`.
    pub fn add_admin(&mut self, admin: &Address) -> (r: Result<(), TeleportError>)
        requires
            old(self).wf(),
        ensures
            final(self).wf(),
            final(self).is_init == old(self).is_init,
            final(self).is_frozen == old(self).is_frozen,
            listed(old(self).admins@, admin@) ==> r is Ok && final(self).admins@ == old(self).admins@,
            !listed(old(self).admins@, admin@) && old(self).admins@.len() < MAX_ADMINS ==> r is Ok
                && final(self).admins@ == old(self).admins@.push(*admin),
            !listed(old(self).admins@, admin@) && old(self).admins@.len() >= MAX_ADMINS ==> r
                == Err::<(), TeleportError>(TeleportError::UnexpectedError) && final(self).admins@
                == old(self).admins@,
            r is Ok ==> final(self).admin_set() == old(self).admin_set().insert(admin@),
    {
        if self.contain_admin(admin) {
            proof {
                assert(self.admin_set() =~= self.admin_set().insert(admin@));
            }
            return Ok(());
        }
        if self.admins.len() >= MAX_ADMINS {
            return Err(TeleportError::UnexpectedError);
        }
        let ghost before = self.admins@;
        self.admins.push(*admin);
        proof {
            let after = self.admins@;
            assert(after.len() == before.len() + 1);
            assert forall|x: Seq<u8>| #[trigger] listed(after, x) == (listed(before, x) || x == admin@) by {
                if listed(after, x) {
                    let i = choose|i: int| 0 <= i < after.len() && after[i]@ == x;
                    if i < before.len() {
                        assert(before[i] == after[i]);
                    }
                }
                if listed(before, x) {
                    let i = choose|i: int| 0 <= i < before.len() && before[i]@ == x;
                    assert(after[i] == before[i]);
                }
                if x == admin@ {
                    assert(after[before.len() as int]@ == x);
                }
            }
            assert(self.admin_set() =~= Set::new(|x: Seq<u8>| listed(before, x)).insert(admin@));
        }
        Ok(())
    }

    /// Takes `admin` out of the admin set. Removing an identity that is not
    /// listed changes nothing.
    pub fn remove_admin(&mut self, admin: &Address) -> (r: Result<(), TeleportError>)
        requires
            old(self).wf(),
        ensures
            r is Ok,
            final(self).wf(),
            final(self).is_init == old(self).is_init,
            final(self).is_frozen == old(self).is_frozen,
            !listed(old(self).admins@, admin@) ==> final(self).admins@ == old(self).admins@,
            final(self).admin_set() == old(self).admin_set().remove(admin@),
    {
        let ghost before = self.admins@;
        let mut i: usize = 0;
        while i < self.admins.len()
            invariant
                i <= self.admins@.len(),
                self.admins@ == before,
                old(self).admins@ == before,
                old(self).wf(),
                self.is_init == old(self).is_init,
                self.is_frozen == old(self).is_frozen,
                forall|j: int| 0 <= j < i ==> self.admins@[j]@ != admin@,
            decreases self.admins@.len() - i,
        {
            if self.admins[i].same_as(admin) {
                self.admins.remove(i);
                proof {
                    let after = self.admins@;
                    assert(after =~= before.remove(i as int));
                    assert forall|x: Seq<u8>| #[trigger] listed(after, x) == (listed(before, x) && x != admin@) by {
                        if listed(after, x) {
                            let k = choose|k: int| 0 <= k < after.len() && after[k]@ == x;
                            if k < i {
                                assert(before[k] == after[k]);
                            } else {
                                assert(before[k + 1] == after[k]);
                                assert(i < k + 1);
                                assert(before[i as int]@ != before[k + 1]@);
                            }
                        }
                        if listed(before, x) && x != admin@ {
                            let k = choose|k: int| 0 <= k < before.len() && before[k]@ == x;
                            if k < i {
                                assert(after[k] == before[k]);
                            } else {
                                assert(k != i);
                                assert(after[k - 1] == before[k]);
                            }
                        }
                    }
                    assert forall|p: int, q: int| 0 <= p < q < after.len() implies after[p]@ != after[q]@ by {
                        let pp = if p < i { p } else { p + 1 };
                        let qq = if q < i { q } else { q + 1 };
                        assert(after[p] == before[pp]);
                        assert(after[q] == before[qq]);
                    }
                    assert(self.admin_set() =~= Set::new(|x: Seq<u8>| listed(before, x)).remove(admin@));
                }
                return Ok(());
            }
            i = i + 1;
        }
        proof {
            assert(!listed(before, admin@));
            assert(self.admin_set() =~= self.admin_set().remove(admin@));
        }
        Ok(())
    }
}

/// An authorized operator and its spend quota.
#[derive(Clone, Copy, Debug)]
pub struct Admin {
    pub is_init: bool,
    pub auth: Address,
    pub allowance: u64,
}

impl Admin {
    /// A fresh, uninitialized admin record.
    pub fn new() -> (r: Admin)
        ensures
            !r.is_init,
            r.allowance == 0,
    {
        Admin { is_init: false, auth: Address::new([0u8; 32]), allowance: 0 }
    }
}

/// Marker whose existence proves that a remote transaction was settled.
#[derive(Clone, Copy, Debug)]
pub struct TeleportOutRecord {
    pub is_init: bool,
}

/// What the host tells about a record slot named in a request.
#[derive(Clone, Copy, Debug)]
pub struct Account {
    /// The slot's address.
    pub key: Address,
    /// The program that owns the slot.
    pub owner: Address,
    /// Whether the request carries a signer-proof for `key`.
    pub is_signer: bool,
    /// The slot's balance of the native resource.
    pub lamports: u64,
    /// The length of the slot's payload.
    pub data_len: u64,
}

/// The identities fixed at deployment, handed to every handler.
#[derive(Clone, Copy, Debug)]
pub struct Deployment {
    /// This program's own identity.
    pub program_id: Address,
    /// The only identity allowed to manage the configuration.
    pub owner: Address,
    /// The custody (multi-signature wallet) program.
    pub multisig_program: Address,
    /// The token program.
    pub token_program: Address,
    /// The system allocator program.
    pub system_program: Address,
    /// The bridged asset's mint.
    pub mint: Address,
}

} // verus!
