//! How many accounts of each kind a transaction names. A legacy Solana
//! message lists each distinct account once, with the strongest role any
//! instruction gives it, and counts its signers, read-only signers and
//! read-only non-signers in single bytes; a transaction beyond those counts
//! cannot be compiled.

use crate::instr::{instrs_view, AccountRef, Instr, InstrView};
use vstd::prelude::*;

verus! {

/// One distinct account of a message and its role.
pub struct KeyRole {
    pub key: Seq<u8>,
    pub is_signer: bool,
    pub is_writable: bool,
}

/// The position of `key` in `roles` from `from` on, or `-1`.
pub open spec fn find_key(roles: Seq<KeyRole>, key: Seq<u8>, from: int) -> int
    decreases roles.len() - from,
{
    if from < 0 || from >= roles.len() {
        -1
    } else if roles[from].key == key {
        from
    } else {
        find_key(roles, key, from + 1)
    }
}

/// Adds `key` with a role: an account already listed gains the role; a new
/// one is appended.
pub open spec fn merge_key(roles: Seq<KeyRole>, key: Seq<u8>, signer: bool, writable: bool) -> Seq<
    KeyRole,
> {
    let i = find_key(roles, key, 0);
    if i >= 0 {
        roles.update(
            i,
            KeyRole {
                key,
                is_signer: roles[i].is_signer || signer,
                is_writable: roles[i].is_writable || writable,
            },
        )
    } else {
        roles.push(KeyRole { key, is_signer: signer, is_writable: writable })
    }
}

/// Adds the accounts of an instruction, in order.
pub open spec fn merge_accounts(roles: Seq<KeyRole>, accounts: Seq<AccountRef>) -> Seq<KeyRole>
    decreases accounts.len(),
{
    if accounts.len() == 0 {
        roles
    } else {
        merge_accounts(
            merge_key(roles, accounts[0].pubkey@, accounts[0].is_signer, accounts[0].is_writable),
            accounts.drop_first(),
        )
    }
}

/// Adds each instruction's program (invoked, neither signer nor writable)
/// and then its accounts.
pub open spec fn merge_instructions(roles: Seq<KeyRole>, ixs: Seq<InstrView>) -> Seq<KeyRole>
    decreases ixs.len(),
{
    if ixs.len() == 0 {
        roles
    } else {
        merge_instructions(
            merge_accounts(merge_key(roles, ixs[0].program_id, false, false), ixs[0].accounts),
            ixs.drop_first(),
        )
    }
}

/// The distinct accounts of a message with fee payer `payer`, which is always
/// a writable signer.
pub open spec fn message_keys(payer: Seq<u8>, ixs: Seq<InstrView>) -> Seq<KeyRole> {
    merge_key(merge_instructions(Seq::empty(), ixs), payer, true, true)
}

/// The number of roles that satisfy `signer` and `writable` as asked
/// (`None` matches either).
pub open spec fn count_roles(roles: Seq<KeyRole>, signer: Option<bool>, writable: Option<bool>) -> nat
    decreases roles.len(),
{
    if roles.len() == 0 {
        0
    } else {
        let r = roles.last();
        let hit = (signer matches Some(s) ==> r.is_signer == s) && (writable matches Some(w)
            ==> r.is_writable == w);
        count_roles(roles.drop_last(), signer, writable) + if hit {
            1nat
        } else {
            0nat
        }
    }
}

/// Whether the message fits its header: at most 255 signers, 255 read-only
/// signers and 255 read-only non-signers.
pub open spec fn message_keys_fit(payer: Seq<u8>, ixs: Seq<InstrView>) -> bool {
    let keys = message_keys(payer, ixs);
    &&& count_roles(keys, Some(true), None) <= 255
    &&& count_roles(keys, Some(true), Some(false)) <= 255
    &&& count_roles(keys, Some(false), Some(false)) <= 255
}

/// An account and its role, as plain values.
#[derive(Clone, Copy)]
pub struct KeyRoleBytes {
    pub key: [u8; 32],
    pub is_signer: bool,
    pub is_writable: bool,
}

/// The roles of a list of accounts.
pub open spec fn roles_view(rs: Seq<KeyRoleBytes>) -> Seq<KeyRole> {
    rs.map_values(|r: KeyRoleBytes| KeyRole { key: r.key@, is_signer: r.is_signer, is_writable: r.is_writable })
}

/// Whether two addresses are equal, byte by byte.
pub fn same_key(a: &[u8; 32], b: &[u8; 32]) -> (r: bool)
    ensures
        r == (a@ == b@),
{
    let mut i: usize = 0;
    while i < 32
        invariant
            i <= 32,
            a@.len() == 32,
            b@.len() == 32,
            forall|j: int| 0 <= j < i ==> a@[j] == b@[j],
        decreases 32 - i,
    {
        if a[i] != b[i] {
            return false;
        }
        i = i + 1;
    }
    assert(a@ =~= b@);
    true
}

fn add_key(roles: &mut Vec<KeyRoleBytes>, key: [u8; 32], signer: bool, writable: bool)
    ensures
        roles_view(final(roles)@) == merge_key(roles_view(old(roles)@), key@, signer, writable),
{
    let ghost start = roles_view(roles@);
    let n = roles.len();
    let mut i: usize = 0;
    while i < n
        invariant
            n == roles@.len(),
            i <= n,
            start == roles_view(roles@),
            roles@ == old(roles)@,
            start.len() == n,
            find_key(start, key@, 0) == find_key(start, key@, i as int),
        decreases n - i,
    {
        let k = roles[i].key;
        if same_key(&k, &key) {
            let old_role = roles[i];
            let ghost before = roles@;
            roles.set(i, KeyRoleBytes {
                key,
                is_signer: old_role.is_signer || signer,
                is_writable: old_role.is_writable || writable,
            });
            assert(roles_view(roles@) =~= merge_key(start, key@, signer, writable));
            return;
        }
        i = i + 1;
    }
    roles.push(KeyRoleBytes { key, is_signer: signer, is_writable: writable });
    assert(roles_view(roles@) =~= merge_key(start, key@, signer, writable));
}

/// The number of roles in `rs` that match, as [`count_roles`] counts.
fn count(rs: &Vec<KeyRoleBytes>, signer: Option<bool>, writable: Option<bool>) -> (r: usize)
    ensures
        r == count_roles(roles_view(rs@), signer, writable),
{
    let mut c: usize = 0;
    let mut i: usize = 0;
    let n = rs.len();
    while i < n
        invariant
            n == rs@.len(),
            i <= n,
            c <= i,
            c == count_roles(roles_view(rs@.take(i as int)), signer, writable),
        decreases n - i,
    {
        let r = rs[i];
        assert(roles_view(rs@.take(i + 1)).drop_last() =~= roles_view(rs@.take(i as int)));
        let hit = (match signer {
            Some(s) => r.is_signer == s,
            None => true,
        }) && (match writable {
            Some(w) => r.is_writable == w,
            None => true,
        });
        if hit {
            c = c + 1;
        }
        i = i + 1;
    }
    assert(rs@.take(n as int) =~= rs@);
    c
}

/// Whether a message with fee payer `payer` and these instructions fits its
/// header; see [`message_keys_fit`].
pub fn message_fits(payer: [u8; 32], ixs: &Vec<Instr>) -> (r: bool)
    ensures
        r == message_keys_fit(payer@, instrs_view(ixs@)),
{
    let mut roles: Vec<KeyRoleBytes> = Vec::new();
    let ghost all = instrs_view(ixs@);
    let n = ixs.len();
    let mut i: usize = 0;
    assert(all.skip(0) =~= all);
    assert(roles_view(roles@) =~= Seq::<KeyRole>::empty());
    while i < n
        invariant
            n == ixs@.len(),
            all == instrs_view(ixs@),
            i <= n,
            merge_instructions(Seq::empty(), all) == merge_instructions(
                roles_view(roles@),
                all.skip(i as int),
            ),
        decreases n - i,
    {
        let ix = &ixs[i];
        let ghost at_start = roles_view(roles@);
        assert(all.skip(i as int)[0] == ix@);
        assert(all.skip(i as int).drop_first() =~= all.skip(i + 1));
        add_key(&mut roles, ix.program_id, false, false);
        let ghost after_program = roles_view(roles@);
        let m = ix.accounts.len();
        let mut j: usize = 0;
        assert(ix.accounts@.skip(0) =~= ix.accounts@);
        while j < m
            invariant
                m == ix.accounts@.len(),
                j <= m,
                merge_accounts(after_program, ix.accounts@) == merge_accounts(
                    roles_view(roles@),
                    ix.accounts@.skip(j as int),
                ),
            decreases m - j,
        {
            let a = ix.accounts[j];
            assert(ix.accounts@.skip(j as int)[0] == a);
            assert(ix.accounts@.skip(j as int).drop_first() =~= ix.accounts@.skip(j + 1));
            add_key(&mut roles, a.pubkey, a.is_signer, a.is_writable);
            j = j + 1;
        }
        assert(ix.accounts@.skip(m as int) =~= Seq::<AccountRef>::empty());
        i = i + 1;
    }
    assert(all.skip(n as int) =~= Seq::<InstrView>::empty());
    add_key(&mut roles, payer, true, true);
    let signers = count(&roles, Some(true), None);
    let readonly_signers = count(&roles, Some(true), Some(false));
    let readonly_others = count(&roles, Some(false), Some(false));
    signers <= 255 && readonly_signers <= 255 && readonly_others <= 255
}

} // verus!
