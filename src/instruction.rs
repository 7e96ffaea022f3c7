use vstd::prelude::*;
use crate::address::Address;
use crate::processor::le_bytes;

verus! {

/// A request, as carried in an instruction's data: a one-byte tag, then the
/// variant's fields, integers little-endian.
#[derive(Clone, Copy, Debug, PartialEq, Eq)]
pub enum TeleportInstruction {
    GetOwner,
    InitConfig,
    InitAdmin { auth: Address, allowance: u64 },
    InitTeleportOutRecord,
    AddAdmin { admin: Address },
    RemoveAdmin { admin: Address },
    Freeze,
    Unfreeze,
    TeleportIn { amount: u64, decimals: u8, to: Address },
    TeleportOut { tx_hash: [u8; 32], amount: u64, decimals: u8 },
    DepositAllowance { allowance: u64 },
    CloseTeleportOutRecord,
}

/// The `u64` whose little-endian bytes are the first eight of `b`.
pub open spec fn le_u64(b: Seq<u8>) -> u64 {
    (b[0] as u64) | ((b[1] as u64) << 8u64) | ((b[2] as u64) << 16u64) | ((b[3] as u64) << 24u64)
        | ((b[4] as u64) << 32u64) | ((b[5] as u64) << 40u64) | ((b[6] as u64) << 48u64) | ((b[7]
        as u64) << 56u64)
}

/// The bytes of an instruction.
pub open spec fn encode(ins: TeleportInstruction) -> Seq<u8> {
    match ins {
        TeleportInstruction::GetOwner => seq![0u8],
        TeleportInstruction::InitConfig => seq![1u8],
        TeleportInstruction::InitAdmin { auth, allowance } => seq![2u8] + auth@ + le_bytes(allowance),
        TeleportInstruction::InitTeleportOutRecord => seq![3u8],
        TeleportInstruction::AddAdmin { admin } => seq![4u8] + admin@,
        TeleportInstruction::RemoveAdmin { admin } => seq![5u8] + admin@,
        TeleportInstruction::Freeze => seq![6u8],
        TeleportInstruction::Unfreeze => seq![7u8],
        TeleportInstruction::TeleportIn { amount, decimals, to } => seq![8u8] + le_bytes(amount) + seq![
            decimals,
        ] + to@,
        TeleportInstruction::TeleportOut { tx_hash, amount, decimals } => seq![9u8] + tx_hash@ + le_bytes(
            amount,
        ) + seq![decimals],
        TeleportInstruction::DepositAllowance { allowance } => seq![10u8] + le_bytes(allowance),
        TeleportInstruction::CloseTeleportOutRecord => seq![11u8],
    }
}

/// Whether `s` is the encoding of some instruction.
pub open spec fn is_encoding(s: Seq<u8>) -> bool {
    exists|ins: TeleportInstruction| encode(ins) == s
}

/// The length of the encoding of an instruction with tag `tag`.
pub open spec fn encoded_len(tag: u8) -> int {
    if tag == 2 {
        41
    } else if tag == 4 || tag == 5 {
        33
    } else if tag == 8 {
        42
    } else if tag == 9 {
        42
    } else if tag == 10 {
        9
    } else {
        1
    }
}

proof fn le_u64_of_le_bytes(x: u64)
    ensures
        le_u64(le_bytes(x)) == x,
{
    let b = le_bytes(x);
    assert(b[0] == ((x >> 0u64) & 0xff) as u8);
    assert(b[1] == ((x >> 8u64) & 0xff) as u8);
    assert(b[2] == ((x >> 16u64) & 0xff) as u8);
    assert(b[3] == ((x >> 24u64) & 0xff) as u8);
    assert(b[4] == ((x >> 32u64) & 0xff) as u8);
    assert(b[5] == ((x >> 40u64) & 0xff) as u8);
    assert(b[6] == ((x >> 48u64) & 0xff) as u8);
    assert(b[7] == ((x >> 56u64) & 0xff) as u8);
    assert(((((x >> 0u64) & 0xff) as u8) as u64) | (((((x >> 8u64) & 0xff) as u8) as u64) << 8u64) | (
    ((((x >> 16u64) & 0xff) as u8) as u64) << 16u64) | (((((x >> 24u64) & 0xff) as u8) as u64)
        << 24u64) | (((((x >> 32u64) & 0xff) as u8) as u64) << 32u64) | (((((x >> 40u64) & 0xff)
        as u8) as u64) << 40u64) | (((((x >> 48u64) & 0xff) as u8) as u64) << 48u64) | (((((x
        >> 56u64) & 0xff) as u8) as u64) << 56u64) == x) by (bit_vector);
}

proof fn le_bytes_of_le_u64(s: Seq<u8>)
    requires
        s.len() == 8,
    ensures
        le_bytes(le_u64(s)) == s,
{
    let (b0, b1, b2, b3, b4, b5, b6, b7) = (s[0], s[1], s[2], s[3], s[4], s[5], s[6], s[7]);
    let x = le_u64(s);
    assert(((x >> 0u64) & 0xff) as u8 == b0 && ((x >> 8u64) & 0xff) as u8 == b1 && ((x >> 16u64)
        & 0xff) as u8 == b2 && ((x >> 24u64) & 0xff) as u8 == b3 && ((x >> 32u64) & 0xff) as u8
        == b4 && ((x >> 40u64) & 0xff) as u8 == b5 && ((x >> 48u64) & 0xff) as u8 == b6 && ((x
        >> 56u64) & 0xff) as u8 == b7) by (bit_vector)
        requires
            x == (b0 as u64) | ((b1 as u64) << 8u64) | ((b2 as u64) << 16u64) | ((b3 as u64)
                << 24u64) | ((b4 as u64) << 32u64) | ((b5 as u64) << 40u64) | ((b6 as u64)
                << 48u64) | ((b7 as u64) << 56u64),
    ;
    let l = le_bytes(x);
    assert(l[0] == ((x >> 0u64) & 0xff) as u8);
    assert(l[1] == ((x >> 8u64) & 0xff) as u8);
    assert(l[2] == ((x >> 16u64) & 0xff) as u8);
    assert(l[3] == ((x >> 24u64) & 0xff) as u8);
    assert(l[4] == ((x >> 32u64) & 0xff) as u8);
    assert(l[5] == ((x >> 40u64) & 0xff) as u8);
    assert(l[6] == ((x >> 48u64) & 0xff) as u8);
    assert(l[7] == ((x >> 56u64) & 0xff) as u8);
    assert(l =~= s);
}

/// No two instructions have the same encoding, so decoding the bytes of an
/// instruction gives back that instruction.
pub proof fn encoding_is_unambiguous(a: TeleportInstruction, b: TeleportInstruction)
    requires
        encode(a) == encode(b),
    ensures
        a == b,
{
    let e = encode(a);
    assert(encode(a)[0] == encode(b)[0]);
    match a {
        TeleportInstruction::InitAdmin { auth, allowance } => {
            if let TeleportInstruction::InitAdmin { auth: auth2, allowance: allowance2 } = b {
                assert(e.subrange(1, 33) =~= auth@);
                assert(encode(b).subrange(1, 33) =~= auth2@);
                assert(e.subrange(33, 41) =~= le_bytes(allowance));
                assert(encode(b).subrange(33, 41) =~= le_bytes(allowance2));
                le_u64_of_le_bytes(allowance);
                le_u64_of_le_bytes(allowance2);
                assert(auth.bytes == auth2.bytes);
            }
        },
        TeleportInstruction::AddAdmin { admin } => {
            if let TeleportInstruction::AddAdmin { admin: admin2 } = b {
                assert(e.subrange(1, 33) =~= admin@);
                assert(encode(b).subrange(1, 33) =~= admin2@);
                assert(admin.bytes == admin2.bytes);
            }
        },
        TeleportInstruction::RemoveAdmin { admin } => {
            if let TeleportInstruction::RemoveAdmin { admin: admin2 } = b {
                assert(e.subrange(1, 33) =~= admin@);
                assert(encode(b).subrange(1, 33) =~= admin2@);
                assert(admin.bytes == admin2.bytes);
            }
        },
        TeleportInstruction::TeleportIn { amount, decimals, to } => {
            if let TeleportInstruction::TeleportIn { amount: amount2, decimals: decimals2, to: to2 } = b {
                assert(e.subrange(1, 9) =~= le_bytes(amount));
                assert(encode(b).subrange(1, 9) =~= le_bytes(amount2));
                le_u64_of_le_bytes(amount);
                le_u64_of_le_bytes(amount2);
                assert(e[9] == decimals);
                assert(encode(b)[9] == decimals2);
                assert(e.subrange(10, 42) =~= to@);
                assert(encode(b).subrange(10, 42) =~= to2@);
                assert(to.bytes == to2.bytes);
            }
        },
        TeleportInstruction::TeleportOut { tx_hash, amount, decimals } => {
            if let TeleportInstruction::TeleportOut { tx_hash: tx_hash2, amount: amount2, decimals: decimals2 } = b {
                assert(e.subrange(1, 33) =~= tx_hash@);
                assert(encode(b).subrange(1, 33) =~= tx_hash2@);
                assert(tx_hash == tx_hash2);
                assert(e.subrange(33, 41) =~= le_bytes(amount));
                assert(encode(b).subrange(33, 41) =~= le_bytes(amount2));
                le_u64_of_le_bytes(amount);
                le_u64_of_le_bytes(amount2);
                assert(e[41] == decimals);
                assert(encode(b)[41] == decimals2);
            }
        },
        TeleportInstruction::DepositAllowance { allowance } => {
            if let TeleportInstruction::DepositAllowance { allowance: allowance2 } = b {
                assert(e.subrange(1, 9) =~= le_bytes(allowance));
                assert(encode(b).subrange(1, 9) =~= le_bytes(allowance2));
                le_u64_of_le_bytes(allowance);
                le_u64_of_le_bytes(allowance2);
            }
        },
        _ => {},
    }
}

/// Reads a little-endian `u64` at `pos`.
pub(crate) fn read_u64(input: &[u8], pos: usize) -> (r: u64)
    requires
        pos + 8 <= input@.len(),
    ensures
        le_bytes(r) == input@.subrange(pos as int, pos + 8),
{
    let r = (input[pos] as u64) | ((input[pos + 1] as u64) << 8u64) | ((input[pos + 2] as u64) << 16u64)
        | ((input[pos + 3] as u64) << 24u64) | ((input[pos + 4] as u64) << 32u64) | ((input[pos + 5]
        as u64) << 40u64) | ((input[pos + 6] as u64) << 48u64) | ((input[pos + 7] as u64) << 56u64);
    proof {
        let s = input@.subrange(pos as int, pos + 8);
        assert(r == le_u64(s));
        le_bytes_of_le_u64(s);
    }
    r
}

/// Reads 32 bytes at `pos`.
pub(crate) fn read_bytes32(input: &[u8], pos: usize) -> (r: [u8; 32])
    requires
        pos + 32 <= input@.len(),
    ensures
        r@ == input@.subrange(pos as int, pos + 32),
{
    let n: usize = input.len();
    let mut r = [0u8; 32];
    let mut i: usize = 0;
    while i < 32
        invariant
            i <= 32,
            pos + 32 <= input@.len(),
            n == input@.len(),
            r@.len() == 32,
            forall|j: int| 0 <= j < i ==> r@[j] == input@[pos + j],
        decreases 32 - i,
    {
        let k: usize = pos + i;
        r[i] = input[k];
        i = i + 1;
    }
    assert(r@ =~= input@.subrange(pos as int, pos + 32));
    r
}

impl TeleportInstruction {
    /// The instruction's bytes.
    pub fn pack(&self) -> (r: Vec<u8>)
        ensures
            r@ == encode(*self),
    {
        let mut out: Vec<u8> = Vec::new();
        match self {
            TeleportInstruction::GetOwner => out.push(0),
            TeleportInstruction::InitConfig => out.push(1),
            TeleportInstruction::InitAdmin { auth, allowance } => {
                out.push(2);
                push_bytes(&mut out, &auth.bytes);
                push_u64(&mut out, *allowance);
            },
            TeleportInstruction::InitTeleportOutRecord => out.push(3),
            TeleportInstruction::AddAdmin { admin } => {
                out.push(4);
                push_bytes(&mut out, &admin.bytes);
            },
            TeleportInstruction::RemoveAdmin { admin } => {
                out.push(5);
                push_bytes(&mut out, &admin.bytes);
            },
            TeleportInstruction::Freeze => out.push(6),
            TeleportInstruction::Unfreeze => out.push(7),
            TeleportInstruction::TeleportIn { amount, decimals, to } => {
                out.push(8);
                push_u64(&mut out, *amount);
                out.push(*decimals);
                push_bytes(&mut out, &to.bytes);
            },
            TeleportInstruction::TeleportOut { tx_hash, amount, decimals } => {
                out.push(9);
                push_bytes(&mut out, tx_hash);
                push_u64(&mut out, *amount);
                out.push(*decimals);
            },
            TeleportInstruction::DepositAllowance { allowance } => {
                out.push(10);
                push_u64(&mut out, *allowance);
            },
            TeleportInstruction::CloseTeleportOutRecord => out.push(11),
        }
        assert(out@ =~= encode(*self));
        out
    }

    /// The instruction encoded by `input`, or `None` where `input` encodes
    /// none.
    pub fn unpack(input: &[u8]) -> (r: Option<TeleportInstruction>)
        ensures
            r matches Some(ins) ==> encode(ins) == input@,
            r is None <==> !is_encoding(input@),
    {
        if input.len() == 0 {
            proof {
                assert forall|ins: TeleportInstruction| encode(ins) != input@ by {
                    assert(encode(ins).len() > 0);
                }
            }
            return None;
        }
        let tag = input[0];
        if input.len() as u64 != expected_len(tag) {
            proof {
                assert forall|ins: TeleportInstruction| encode(ins) != input@ by {
                    if encode(ins) == input@ {
                        assert(encode(ins)[0] == tag);
                    }
                }
            }
            return None;
        }
        let r = match tag {
            0 => Some(TeleportInstruction::GetOwner),
            1 => Some(TeleportInstruction::InitConfig),
            2 => Some(TeleportInstruction::InitAdmin {
                auth: Address::new(read_bytes32(input, 1)),
                allowance: read_u64(input, 33),
            }),
            3 => Some(TeleportInstruction::InitTeleportOutRecord),
            4 => Some(TeleportInstruction::AddAdmin { admin: Address::new(read_bytes32(input, 1)) }),
            5 => Some(TeleportInstruction::RemoveAdmin { admin: Address::new(read_bytes32(input, 1)) }),
            6 => Some(TeleportInstruction::Freeze),
            7 => Some(TeleportInstruction::Unfreeze),
            8 => Some(TeleportInstruction::TeleportIn {
                amount: read_u64(input, 1),
                decimals: input[9],
                to: Address::new(read_bytes32(input, 10)),
            }),
            9 => Some(TeleportInstruction::TeleportOut {
                tx_hash: read_bytes32(input, 1),
                amount: read_u64(input, 33),
                decimals: input[41],
            }),
            10 => Some(TeleportInstruction::DepositAllowance { allowance: read_u64(input, 1) }),
            11 => Some(TeleportInstruction::CloseTeleportOutRecord),
            _ => None,
        };
        proof {
            if let Some(ins) = r {
                assert(encode(ins) =~= input@);
            } else {
                assert forall|ins: TeleportInstruction| encode(ins) != input@ by {
                    if encode(ins) == input@ {
                        assert(encode(ins)[0] == tag);
                    }
                }
            }
        }
        r
    }
}

/// The length of the encoding of an instruction with tag `tag`, or zero
/// for an unknown tag.
fn expected_len(tag: u8) -> (r: u64)
    ensures
        tag <= 11 ==> r == encoded_len(tag),
        tag > 11 ==> r == 0,
{
    if tag > 11 {
        0
    } else if tag == 2 {
        41
    } else if tag == 4 || tag == 5 {
        33
    } else if tag == 8 || tag == 9 {
        42
    } else if tag == 10 {
        9
    } else {
        1
    }
}

pub(crate) fn push_bytes(out: &mut Vec<u8>, b: &[u8; 32])
    ensures
        final(out)@ == old(out)@ + b@,
{
    let mut i: usize = 0;
    while i < 32
        invariant
            i <= 32,
            b@.len() == 32,
            out@ == old(out)@ + b@.subrange(0, i as int),
        decreases 32 - i,
    {
        out.push(b[i]);
        assert(b@.subrange(0, i + 1) =~= b@.subrange(0, i as int).push(b@[i as int]));
        i = i + 1;
    }
    assert(b@.subrange(0, 32) =~= b@);
}

pub(crate) fn push_u64(out: &mut Vec<u8>, x: u64)
    ensures
        final(out)@ == old(out)@ + le_bytes(x),
{
    let mut i: u64 = 0;
    while i < 8
        invariant
            i <= 8,
            out@ == old(out)@ + le_bytes(x).subrange(0, i as int),
        decreases 8 - i,
    {
        out.push(((x >> (8 * i)) & 0xff) as u8);
        assert(le_bytes(x).subrange(0, i + 1) =~= le_bytes(x).subrange(0, i as int).push(
            ((x >> (8 * i)) & 0xff) as u8,
        ));
        i = i + 1;
    }
    assert(le_bytes(x).subrange(0, 8) =~= le_bytes(x));
}

/// An account named by an instruction, and how the instruction uses it.
#[derive(Clone, Copy, Debug, PartialEq, Eq)]
pub struct AccountMeta {
    pub pubkey: Address,
    pub is_signer: bool,
    pub is_writable: bool,
}

/// A request to a program: the accounts it names, in order, and its data.
#[derive(Clone, Debug, PartialEq, Eq)]
pub struct Instruction {
    pub program_id: Address,
    pub accounts: Vec<AccountMeta>,
    pub data: Vec<u8>,
}

/// The bytes of the host's rent-policy address,
/// `SysvarRent111111111111111111111111111111111`.
pub open spec fn rent_sysvar_bytes() -> Seq<u8> {
    seq![
        6u8, 167u8, 213u8, 23u8, 25u8, 44u8, 92u8, 81u8, 33u8, 140u8, 201u8, 76u8, 61u8, 74u8, 241u8,
        127u8, 88u8, 218u8, 238u8, 8u8, 155u8, 161u8, 253u8, 68u8, 227u8, 219u8, 217u8, 138u8, 0u8, 0u8,
        0u8, 0u8,
    ]
}

/// The address of the host's rent-policy record.
///
/// Relies on `solana_program::sysvar::rent::id`, declared there as the
/// fixed address `SysvarRent111111111111111111111111111111111`.
#[verifier::external_body]
fn rent_sysvar_id() -> (r: Address)
    ensures
        r@ == rent_sysvar_bytes(),
{
    Address { bytes: solana_program::sysvar::rent::id().to_bytes() }
}

/// The request that reports the owner identity.
pub fn get_owner(program_id: &Address) -> (r: Instruction)
    ensures
        r.program_id == *program_id,
        r.accounts@.len() == 0,
        r.data@ == encode(TeleportInstruction::GetOwner),
{
    let data = TeleportInstruction::GetOwner.pack();
    Instruction { program_id: *program_id, accounts: Vec::new(), data }
}

/// The request that initializes the configuration `config`, signed by
/// `owner`; its third account is the rent-policy record.
pub fn init_config(program_id: &Address, owner: &Address, config: &Address) -> (r: Instruction)
    ensures
        r.program_id == *program_id,
        r.accounts@.len() == 3,
        r.accounts@[0] == (AccountMeta { pubkey: *owner, is_signer: true, is_writable: true }),
        r.accounts@[1] == (AccountMeta { pubkey: *config, is_signer: false, is_writable: true }),
        !r.accounts@[2].is_signer && !r.accounts@[2].is_writable,
        r.accounts@[2].pubkey@ == rent_sysvar_bytes(),
        r.data@ == encode(TeleportInstruction::InitConfig),
{
    let data = TeleportInstruction::InitConfig.pack();
    let accounts = vec![
        AccountMeta { pubkey: *owner, is_signer: true, is_writable: true },
        AccountMeta { pubkey: *config, is_signer: false, is_writable: true },
        AccountMeta { pubkey: rent_sysvar_id(), is_signer: false, is_writable: false },
    ];
    Instruction { program_id: *program_id, accounts, data }
}

} // verus!
