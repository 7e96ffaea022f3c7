use vstd::prelude::*;
use crate::address::Address;
use crate::instruction::{push_bytes, push_u64, read_bytes32, read_u64};
use crate::processor::le_bytes;
use crate::state::{Admin, Config, TeleportOutRecord, ADMIN_LEN, CONFIG_LEN, MAX_ADMINS, RECORD_LEN};

verus! {

/// A flag as one byte.
pub open spec fn flag_byte(b: bool) -> u8 {
    if b { 1 } else { 0 }
}

/// The identities of `admins`, one after the other.
pub open spec fn identities_bytes(admins: Seq<Address>) -> Seq<u8>
    decreases admins.len(),
{
    if admins.len() == 0 {
        Seq::empty()
    } else {
        identities_bytes(admins.drop_last()) + admins.last()@
    }
}

/// The stored bytes of a configuration: two flags, the admin count as a
/// little-endian `u32`, the identities, then zeros up to `CONFIG_LEN`.
pub open spec fn config_bytes(c: Config) -> Seq<u8> {
    let n = c.admins@.len();
    seq![flag_byte(c.is_init), flag_byte(c.is_frozen), n as u8, 0u8, 0u8, 0u8] + identities_bytes(c.admins@)
        + Seq::new((CONFIG_LEN - 6 - 32 * n) as nat, |i: int| 0u8)
}

/// The stored bytes of an admin: a flag, the auth identity, the allowance.
pub open spec fn admin_bytes(a: Admin) -> Seq<u8> {
    seq![flag_byte(a.is_init)] + a.auth@ + le_bytes(a.allowance)
}

/// The stored bytes of a replay-protection record: one flag.
pub open spec fn record_bytes(r: TeleportOutRecord) -> Seq<u8> {
    seq![flag_byte(r.is_init)]
}

proof fn identities_len(admins: Seq<Address>)
    ensures
        identities_bytes(admins).len() == 32 * admins.len(),
    decreases admins.len(),
{
    if admins.len() > 0 {
        identities_len(admins.drop_last());
    }
}

fn read_flag(b: u8) -> (r: Option<bool>)
    ensures
        r matches Some(f) ==> flag_byte(f) == b,
        r is None <==> b > 1,
{
    if b == 0 {
        Some(false)
    } else if b == 1 {
        Some(true)
    } else {
        None
    }
}

impl Config {
    /// The configuration's stored bytes.
    pub fn pack(&self) -> (r: Vec<u8>)
        requires
            self.wf(),
        ensures
            r@ == config_bytes(*self),
            r@.len() == CONFIG_LEN,
    {
        let n = self.admins.len();
        let mut out: Vec<u8> = vec![if self.is_init { 1 } else { 0 }, if self.is_frozen { 1 } else { 0 }, n as u8, 0, 0, 0];
        let mut i: usize = 0;
        while i < n
            invariant
                i <= n,
                n == self.admins@.len(),
                out@ == seq![flag_byte(self.is_init), flag_byte(self.is_frozen), n as u8, 0u8, 0u8, 0u8]
                    + identities_bytes(self.admins@.subrange(0, i as int)),
            decreases n - i,
        {
            push_bytes(&mut out, &self.admins[i].bytes);
            proof {
                let s = self.admins@.subrange(0, i + 1);
                assert(s.drop_last() =~= self.admins@.subrange(0, i as int));
            }
            i = i + 1;
        }
        assert(self.admins@.subrange(0, n as int) =~= self.admins@);
        proof {
            identities_len(self.admins@);
        }
        let ghost head = out@;
        while out.len() < CONFIG_LEN as usize
            invariant
                head.len() <= out@.len() <= CONFIG_LEN,
                head.len() == 6 + 32 * n,
                out@ == head + Seq::new((out@.len() - head.len()) as nat, |i: int| 0u8),
            decreases CONFIG_LEN - out@.len(),
        {
            out.push(0);
            assert(out@ =~= head + Seq::new((out@.len() - head.len()) as nat, |i: int| 0u8));
        }
        assert(out@ =~= config_bytes(*self));
        out
    }

    /// The configuration stored in `data`, or `None` where `data` holds none.
    pub fn unpack(data: &[u8]) -> (r: Option<Config>)
        ensures
            r matches Some(c) ==> c.wf() && config_bytes(c) == data@,
            r is None <==> !(exists|c: Config| c.wf() && config_bytes(c) == data@),
    {
        if data.len() != CONFIG_LEN as usize {
            proof {
                assert forall|c: Config| c.wf() implies config_bytes(c) != data@ by {
                    identities_len(c.admins@);
                }
            }
            return None;
        }
        let is_init = read_flag(data[0]);
        let is_frozen = read_flag(data[1]);
        let n = data[2] as usize;
        if is_init.is_none() || is_frozen.is_none() || n > MAX_ADMINS || data[3] != 0 || data[4] != 0 || data[5] != 0 {
            proof {
                assert forall|c: Config| c.wf() implies config_bytes(c) != data@ by {
                    if config_bytes(c) == data@ {
                        assert(config_bytes(c)[0] == data@[0]);
                        assert(config_bytes(c)[1] == data@[1]);
                        assert(config_bytes(c)[2] == data@[2]);
                        assert(config_bytes(c)[3] == data@[3]);
                        assert(config_bytes(c)[4] == data@[4]);
                        assert(config_bytes(c)[5] == data@[5]);
                    }
                }
            }
            return None;
        }
        let mut admins: Vec<Address> = Vec::new();
        let mut i: usize = 0;
        while i < n
            invariant
                i <= n <= MAX_ADMINS,
                data@.len() == CONFIG_LEN,
                n == data@[2],
                admins@.len() == i,
                identities_bytes(admins@) == data@.subrange(6, 6 + 32 * i),
            decreases n - i,
        {
            let a = Address::new(read_bytes32(data, 6 + 32 * i));
            let ghost before = admins@;
            admins.push(a);
            proof {
                assert(admins@.drop_last() == before);
                assert(data@.subrange(6, 6 + 32 * (i + 1)) =~= data@.subrange(6, 6 + 32 * i) + data@.subrange(
                    6 + 32 * i,
                    6 + 32 * i + 32,
                ));
            }
            i = i + 1;
        }
        let mut k: usize = 6 + 32 * n;
        while k < CONFIG_LEN as usize
            invariant
                6 + 32 * n <= k <= CONFIG_LEN,
                data@.len() == CONFIG_LEN,
                n == data@[2],
                n <= MAX_ADMINS,
                forall|j: int| 6 + 32 * n <= j < k ==> data@[j] == 0,
            decreases CONFIG_LEN - k,
        {
            if data[k] != 0 {
                proof {
                    assert forall|c: Config| c.wf() implies config_bytes(c) != data@ by {
                        if config_bytes(c) == data@ {
                            identities_len(c.admins@);
                            assert(config_bytes(c)[2] == data@[2]);
                            assert(config_bytes(c)[2] == c.admins@.len() as u8);
                            assert(c.admins@.len() == n);
                            assert(config_bytes(c)[k as int] == 0);
                        }
                    }
                }
                return None;
            }
            k = k + 1;
        }
        let c = Config { is_init: is_init.unwrap(), is_frozen: is_frozen.unwrap(), admins };
        proof {
            identities_len(c.admins@);
        }
        if !no_repeat_admins(&c.admins) {
            proof {
                assert forall|c2: Config| c2.wf() implies config_bytes(c2) != data@ by {
                    if config_bytes(c2) == data@ {
                        identities_len(c2.admins@);
                        assert(config_bytes(c2)[2] == data@[2]);
                        assert(config_bytes(c2)[2] == c2.admins@.len() as u8);
                        assert(c2.admins@.len() == n);
                        assert(config_bytes(c2).subrange(6, 6 + 32 * n) =~= identities_bytes(c2.admins@));
                        identities_determine(c2.admins@, c.admins@);
                    }
                }
            }
            return None;
        }
        assert(config_bytes(c) =~= data@);
        Some(c)
    }
}

/// Two lists with the same identity bytes name the same identities.
proof fn identities_determine(a: Seq<Address>, b: Seq<Address>)
    requires
        a.len() == b.len(),
        identities_bytes(a) == identities_bytes(b),
    ensures
        forall|i: int| 0 <= i < a.len() ==> a[i]@ == b[i]@,
    decreases a.len(),
{
    if a.len() > 0 {
        identities_len(a.drop_last());
        identities_len(b.drop_last());
        let k = 32 * (a.len() - 1);
        assert(identities_bytes(a).subrange(0, k) =~= identities_bytes(a.drop_last()));
        assert(identities_bytes(b).subrange(0, k) =~= identities_bytes(b.drop_last()));
        assert(identities_bytes(a).subrange(k, k + 32) =~= a.last()@);
        assert(identities_bytes(b).subrange(k, k + 32) =~= b.last()@);
        identities_determine(a.drop_last(), b.drop_last());
        assert forall|i: int| 0 <= i < a.len() implies a[i]@ == b[i]@ by {
            if i < a.len() - 1 {
                assert(a.drop_last()[i] == a[i]);
                assert(b.drop_last()[i] == b[i]);
            }
        }
    }
}

/// Whether no identity occurs twice in `admins`.
fn no_repeat_admins(admins: &Vec<Address>) -> (r: bool)
    ensures
        r == crate::state::no_repeats(admins@),
{
    let mut i: usize = 0;
    while i < admins.len()
        invariant
            i <= admins@.len(),
            forall|p: int, q: int| 0 <= p < q < admins@.len() && p < i ==> admins@[p]@ != admins@[q]@,
        decreases admins@.len() - i,
    {
        let mut j: usize = i + 1;
        while j < admins.len()
            invariant
                i < admins@.len(),
                i + 1 <= j <= admins@.len(),
                forall|p: int, q: int| 0 <= p < q < admins@.len() && p < i ==> admins@[p]@ != admins@[q]@,
                forall|q: int| i < q < j ==> admins@[i as int]@ != admins@[q]@,
            decreases admins@.len() - j,
        {
            if admins[i].same_as(&admins[j]) {
                return false;
            }
            j = j + 1;
        }
        i = i + 1;
    }
    true
}

impl Admin {
    /// The admin's stored bytes.
    pub fn pack(&self) -> (r: Vec<u8>)
        ensures
            r@ == admin_bytes(*self),
            r@.len() == ADMIN_LEN,
    {
        let mut out: Vec<u8> = vec![if self.is_init { 1 } else { 0 }];
        push_bytes(&mut out, &self.auth.bytes);
        push_u64(&mut out, self.allowance);
        assert(out@ =~= admin_bytes(*self));
        out
    }

    /// The admin stored in `data`, or `None` where `data` holds none.
    pub fn unpack(data: &[u8]) -> (r: Option<Admin>)
        ensures
            r matches Some(a) ==> admin_bytes(a) == data@,
            r is None <==> !(exists|a: Admin| admin_bytes(a) == data@),
    {
        if data.len() != ADMIN_LEN as usize {
            return None;
        }
        let is_init = match read_flag(data[0]) {
            None => {
                proof {
                    assert forall|a: Admin| admin_bytes(a) != data@ by {
                        if admin_bytes(a) == data@ {
                            assert(admin_bytes(a)[0] == data@[0]);
                        }
                    }
                }
                return None;
            },
            Some(f) => f,
        };
        let a = Admin { is_init, auth: Address::new(read_bytes32(data, 1)), allowance: read_u64(data, 33) };
        assert(admin_bytes(a) =~= data@);
        Some(a)
    }
}

impl TeleportOutRecord {
    /// The record's stored bytes.
    pub fn pack(&self) -> (r: Vec<u8>)
        ensures
            r@ == record_bytes(*self),
            r@.len() == RECORD_LEN,
    {
        vec![if self.is_init { 1 } else { 0 }]
    }

    /// The record stored in `data`, or `None` where `data` holds none.
    pub fn unpack(data: &[u8]) -> (r: Option<TeleportOutRecord>)
        ensures
            r matches Some(rec) ==> record_bytes(rec) == data@,
            r is None <==> !(exists|rec: TeleportOutRecord| record_bytes(rec) == data@),
    {
        if data.len() != RECORD_LEN as usize {
            return None;
        }
        match read_flag(data[0]) {
            None => {
                proof {
                    assert forall|rec: TeleportOutRecord| record_bytes(rec) != data@ by {
                        if record_bytes(rec) == data@ {
                            assert(record_bytes(rec)[0] == data@[0]);
                        }
                    }
                }
                None
            },
            Some(f) => {
                let rec = TeleportOutRecord { is_init: f };
                assert(record_bytes(rec) =~= data@);
                Some(rec)
            },
        }
    }
}

} // verus!
