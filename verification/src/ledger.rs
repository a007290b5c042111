//! The host ledger as the escrow logic sees it: a table of asset accounts,
//! each with a custody authority, a balance and a frozen flag, together with
//! the escrow record's storage slot. The asset transfer service's three
//! custody primitives — transfer, authority reassignment and account close —
//! operate on this table, and each is atomic: it either applies its whole
//! effect or reports an error and changes nothing.

use vstd::prelude::*;

use crate::account::{account_id_eq, clone_bytes, AccountId};
use crate::errors::TransferError;
use crate::record::{RecordSlot, RecordV};

verus! {

/// The mathematical value of one asset account.
#[verifier::ext_equal]
pub ghost struct AccountV {
    /// The identity whose authorization moves the account's funds.
    pub authority: Seq<u8>,
    /// The quantity of asset units the account holds.
    pub balance: u64,
    /// Whether the host has frozen the account against custody changes.
    pub frozen: bool,
}

/// The mathematical value of one entry of the account table.
#[verifier::ext_equal]
pub ghost struct EntryV {
    pub id: Seq<u8>,
    pub acct: AccountV,
}

/// The mathematical value of the whole ledger.
#[verifier::ext_equal]
pub ghost struct LedgerV {
    pub program_id: Seq<u8>,
    pub accounts: Map<Seq<u8>, AccountV>,
    pub record: RecordV,
}

/// One asset account on the host ledger.
pub struct TokenAccount {
    pub authority: AccountId,
    pub balance: u64,
    pub frozen: bool,
}

impl View for TokenAccount {
    type V = AccountV;

    open spec fn view(&self) -> AccountV {
        AccountV { authority: self.authority@, balance: self.balance, frozen: self.frozen }
    }
}

/// One entry of the account table: an address and the account stored there.
pub struct AccountEntry {
    pub id: AccountId,
    pub acct: TokenAccount,
}

impl View for AccountEntry {
    type V = EntryV;

    open spec fn view(&self) -> EntryV {
        EntryV { id: self.id@, acct: self.acct@ }
    }
}

/// The entry sequence as mathematical values.
pub open spec fn entries_of(s: Seq<AccountEntry>) -> Seq<EntryV> {
    s.map_values(|e: AccountEntry| e@)
}

/// The account table as a map from address to account. Later entries would
/// shadow earlier ones; a well-formed ledger keeps its addresses unique, so
/// no shadowing occurs.
pub open spec fn as_map(s: Seq<EntryV>) -> Map<Seq<u8>, AccountV>
    decreases s.len(),
{
    if s.len() == 0 {
        Map::empty()
    } else {
        as_map(s.drop_last()).insert(s.last().id, s.last().acct)
    }
}

/// No two entries share an address.
pub open spec fn unique_ids(s: Seq<EntryV>) -> bool {
    forall|i: int, j: int| 0 <= i < j < s.len() ==> s[i].id != s[j].id
}

/// The host ledger, restricted to what the escrow protocol reads and
/// changes: the protocol's own identity, the asset accounts, and the escrow
/// record's slot.
pub struct Ledger {
    /// The protocol's identity, from which the vault authority is derived.
    pub program_id: AccountId,
    /// The asset accounts, keyed by their addresses.
    pub accounts: Vec<AccountEntry>,
    /// The storage slot of the escrow record.
    pub record: RecordSlot,
}

impl View for Ledger {
    type V = LedgerV;

    open spec fn view(&self) -> LedgerV {
        LedgerV {
            program_id: self.program_id@,
            accounts: as_map(entries_of(self.accounts@)),
            record: self.record@,
        }
    }
}

impl Ledger {
    /// A well-formed ledger: the protocol identity is a 32-byte key and no
    /// two accounts share an address.
    pub open spec fn wf(&self) -> bool {
        self.program_id@.len() == 32 && unique_ids(entries_of(self.accounts@))
    }
}

impl Ledger {
    /// A fresh ledger for a protocol identity: no accounts, no record.
    pub fn new(program_id: AccountId) -> (l: Ledger)
        requires
            program_id@.len() == 32,
        ensures
            l.wf(),
            l@.program_id == program_id@,
            l@.accounts == Map::<Seq<u8>, AccountV>::empty(),
            l@.record == RecordV::Absent,
    {
        Ledger { program_id, accounts: Vec::new(), record: RecordSlot::Absent }
    }

    /// Adds an asset account at a fresh address. Returns false, changing
    /// nothing, when the address is already taken.
    pub fn add_account(
        &mut self,
        id: AccountId,
        authority: AccountId,
        balance: u64,
        frozen: bool,
    ) -> (r: bool)
        requires
            old(self).wf(),
        ensures
            final(self).wf(),
            r == !old(self)@.accounts.contains_key(id@),
            r ==> final(self)@ == (LedgerV {
                accounts: old(self)@.accounts.insert(
                    id@,
                    (AccountV { authority: authority@, balance: balance, frozen: frozen }),
                ),
                ..old(self)@
            }),
            !r ==> final(self)@ == old(self)@,
    {
        let ghost s0 = entries_of(self.accounts@);
        proof {
            lemma_as_map_contains(s0, id@);
        }
        match find_account(&self.accounts, &id) {
            Some(i) => {
                proof {
                    assert(s0[i as int].id == id@);
                }
                false
            },
            None => {
                let ghost idv = id@;
                self.accounts.push(
                    AccountEntry { id, acct: TokenAccount { authority, balance, frozen } },
                );
                proof {
                    let s1 = entries_of(self.accounts@);
                    assert(s1 =~= s0.push(s1.last()));
                    assert(s1.drop_last() =~= s0);
                    assert(unique_ids(s1));
                    assert(self@.accounts =~= old(self)@.accounts.insert(
                        idv,
                        (AccountV { authority: authority@, balance: balance, frozen: frozen }),
                    ));
                    assert(self@ =~= (LedgerV {
                        accounts: old(self)@.accounts.insert(
                            idv,
                            (AccountV { authority: authority@, balance: balance, frozen: frozen }),
                        ),
                        ..old(self)@
                    }));
                }
                true
            },
        }
    }

    /// Whether an account exists at `id`.
    pub fn has_account(&self, id: &AccountId) -> (r: bool)
        requires
            self.wf(),
        ensures
            r == self@.accounts.contains_key(id@),
    {
        let ghost s0 = entries_of(self.accounts@);
        proof {
            lemma_as_map_contains(s0, id@);
        }
        match find_account(&self.accounts, id) {
            Some(i) => {
                proof {
                    assert(s0[i as int].id == id@);
                }
                true
            },
            None => false,
        }
    }

    /// The balance held at `id`, if an account is there.
    pub fn balance_of(&self, id: &AccountId) -> (r: Option<u64>)
        requires
            self.wf(),
        ensures
            match r {
                Some(b) => self@.accounts.contains_key(id@) && self@.accounts[id@].balance == b,
                None => !self@.accounts.contains_key(id@),
            },
    {
        let ghost s0 = entries_of(self.accounts@);
        match find_account(&self.accounts, id) {
            Some(i) => {
                proof {
                    lemma_as_map_index(s0, i as int);
                }
                Some(self.accounts[i].acct.balance)
            },
            None => {
                proof {
                    lemma_as_map_contains(s0, id@);
                }
                None
            },
        }
    }

    /// The custody authority of the account at `id`, if one is there.
    pub fn authority_of(&self, id: &AccountId) -> (r: Option<AccountId>)
        requires
            self.wf(),
        ensures
            match r {
                Some(a) => self@.accounts.contains_key(id@) && self@.accounts[id@].authority
                    == a@,
                None => !self@.accounts.contains_key(id@),
            },
    {
        let ghost s0 = entries_of(self.accounts@);
        match find_account(&self.accounts, id) {
            Some(i) => {
                proof {
                    lemma_as_map_index(s0, i as int);
                }
                Some(crate::account::clone_id(&self.accounts[i].acct.authority))
            },
            None => {
                proof {
                    lemma_as_map_contains(s0, id@);
                }
                None
            },
        }
    }
}

/// An address is in the table exactly when some entry carries it.
pub proof fn lemma_as_map_contains(s: Seq<EntryV>, id: Seq<u8>)
    ensures
        as_map(s).contains_key(id) <==> exists|i: int| 0 <= i < s.len() && s[i].id == id,
    decreases s.len(),
{
    if s.len() > 0 {
        lemma_as_map_contains(s.drop_last(), id);
        if s.last().id == id {
            assert(s[s.len() - 1].id == id);
        } else {
            if as_map(s).contains_key(id) {
                let i = choose|i: int|
                    0 <= i < s.drop_last().len() && s.drop_last()[i].id == id;
                assert(s[i].id == id);
            }
            if exists|i: int| 0 <= i < s.len() && s[i].id == id {
                let i = choose|i: int| 0 <= i < s.len() && s[i].id == id;
                assert(s.drop_last()[i].id == id);
            }
        }
    }
}

/// With unique addresses, the table maps each entry's address to its
/// account.
pub proof fn lemma_as_map_index(s: Seq<EntryV>, i: int)
    requires
        unique_ids(s),
        0 <= i < s.len(),
    ensures
        as_map(s).contains_key(s[i].id),
        as_map(s)[s[i].id] == s[i].acct,
    decreases s.len(),
{
    if i == s.len() - 1 {
    } else {
        assert(unique_ids(s.drop_last()));
        lemma_as_map_index(s.drop_last(), i);
        assert(s.drop_last()[i] == s[i]);
        assert(s.last().id != s[i].id);
    }
}

/// Replacing an entry's account replaces exactly that address's image.
pub proof fn lemma_as_map_update(s: Seq<EntryV>, i: int, e: EntryV)
    requires
        unique_ids(s),
        0 <= i < s.len(),
        e.id == s[i].id,
    ensures
        as_map(s.update(i, e)) =~= as_map(s).insert(e.id, e.acct),
    decreases s.len(),
{
    let su = s.update(i, e);
    if i == s.len() - 1 {
        assert(su.drop_last() =~= s.drop_last());
        assert(su.last() == e);
    } else {
        assert(su.drop_last() =~= s.drop_last().update(i, e));
        assert(su.last() == s.last());
        assert(unique_ids(s.drop_last()));
        assert(s.drop_last()[i] == s[i]);
        lemma_as_map_update(s.drop_last(), i, e);
        assert(e.id != s.last().id);
    }
}

/// Removing an entry removes exactly that address from the table.
pub proof fn lemma_as_map_remove(s: Seq<EntryV>, i: int)
    requires
        unique_ids(s),
        0 <= i < s.len(),
    ensures
        as_map(s.remove(i)) =~= as_map(s).remove(s[i].id),
    decreases s.len(),
{
    let sr = s.remove(i);
    if i == s.len() - 1 {
        assert(sr =~= s.drop_last());
        lemma_as_map_contains(s.drop_last(), s[i].id);
        assert(forall|k: int| 0 <= k < s.drop_last().len() ==> s.drop_last()[k].id != s[i].id);
        assert(!as_map(s.drop_last()).contains_key(s[i].id));
        assert(as_map(sr) =~= as_map(s).remove(s[i].id));
    } else {
        assert(sr.drop_last() =~= s.drop_last().remove(i));
        assert(sr.last() == s.last());
        assert(unique_ids(s.drop_last()));
        assert(s.drop_last()[i] == s[i]);
        lemma_as_map_remove(s.drop_last(), i);
        assert(s[i].id != s.last().id);
    }
}

/// What a transfer does to the ledger: move `amount` units from `from` to
/// `to` under `authority`'s authorization, or report why it cannot. A
/// transfer of an account onto itself that passes every check leaves the
/// ledger unchanged.
pub open spec fn transfer_v(
    l: LedgerV,
    from: Seq<u8>,
    to: Seq<u8>,
    amount: u64,
    authority: Seq<u8>,
) -> Result<LedgerV, TransferError> {
    if !l.accounts.contains_key(from) {
        Err(TransferError::AccountNotFound)
    } else if l.accounts[from].authority != authority {
        Err(TransferError::AuthorityMismatch)
    } else if !l.accounts.contains_key(to) {
        Err(TransferError::AccountNotFound)
    } else if l.accounts[from].frozen || l.accounts[to].frozen {
        Err(TransferError::AccountFrozen)
    } else if l.accounts[from].balance < amount {
        Err(TransferError::InsufficientBalance)
    } else if from == to {
        Ok(l)
    } else if l.accounts[to].balance + amount > u64::MAX {
        Err(TransferError::BalanceOverflow)
    } else {
        Ok(
            LedgerV {
                accounts: l.accounts.insert(
                    from,
                    AccountV {
                        balance: (l.accounts[from].balance - amount) as u64,
                        ..l.accounts[from]
                    },
                ).insert(
                    to,
                    AccountV {
                        balance: (l.accounts[to].balance + amount) as u64,
                        ..l.accounts[to]
                    },
                ),
                ..l
            },
        )
    }
}

/// What an authority reassignment does to the ledger: hand `account`'s
/// custody authority from `current` to `new_authority`, or report why it
/// cannot.
pub open spec fn reassign_v(
    l: LedgerV,
    account: Seq<u8>,
    current: Seq<u8>,
    new_authority: Seq<u8>,
) -> Result<LedgerV, TransferError> {
    if !l.accounts.contains_key(account) {
        Err(TransferError::AccountNotFound)
    } else if l.accounts[account].authority != current {
        Err(TransferError::AuthorityMismatch)
    } else if l.accounts[account].frozen {
        Err(TransferError::AccountFrozen)
    } else {
        Ok(
            LedgerV {
                accounts: l.accounts.insert(
                    account,
                    AccountV { authority: new_authority, ..l.accounts[account] },
                ),
                ..l
            },
        )
    }
}

/// What an account close does to the ledger: remove the empty `account`,
/// its reclaimable deposit going to `destination`, or report why it cannot.
/// The deposit itself is host bookkeeping outside this model, so
/// `destination` constrains nothing here; the parameter mirrors the
/// collaborator's interface.
pub open spec fn close_v(
    l: LedgerV,
    account: Seq<u8>,
    destination: Seq<u8>,
    authority: Seq<u8>,
) -> Result<LedgerV, TransferError> {
    if !l.accounts.contains_key(account) {
        Err(TransferError::AccountNotFound)
    } else if l.accounts[account].authority != authority {
        Err(TransferError::AuthorityMismatch)
    } else if l.accounts[account].balance != 0 {
        Err(TransferError::NonZeroBalance)
    } else {
        Ok(LedgerV { accounts: l.accounts.remove(account), ..l })
    }
}

/// The index of the entry carrying `id`, if any.
fn find_account(v: &Vec<AccountEntry>, id: &AccountId) -> (r: Option<usize>)
    ensures
        match r {
            Some(i) => i < v@.len() && v@[i as int].id@ == id@,
            None => forall|k: int| 0 <= k < v@.len() ==> v@[k].id@ != id@,
        },
{
    let n = v.len();
    let mut i: usize = 0;
    while i < n
        invariant
            n == v@.len(),
            i <= n,
            forall|k: int| 0 <= k < i ==> v@[k].id@ != id@,
        decreases n - i,
    {
        if account_id_eq(&v[i].id, id) {
            return Some(i);
        }
        i += 1;
    }
    None
}

/// Replaces the balance of the entry at `i`, touching nothing else.
fn set_balance(v: &mut Vec<AccountEntry>, i: usize, b: u64)
    requires
        i < old(v)@.len(),
    ensures
        entries_of(final(v)@) =~= entries_of(old(v)@).update(
            i as int,
            (EntryV {
                id: old(v)@[i as int]@.id,
                acct: AccountV { balance: b, ..old(v)@[i as int]@.acct },
            }),
        ),
{
    let mut e = v.remove(i);
    e.acct.balance = b;
    v.insert(i, e);
    proof {
        assert(v@ =~= old(v)@.update(i as int, v@[i as int]));
        assert(entries_of(v@) =~= entries_of(old(v)@).update(i as int, v@[i as int]@));
    }
}

/// Replaces the custody authority of the entry at `i`, touching nothing
/// else.
fn set_account_authority(v: &mut Vec<AccountEntry>, i: usize, a: AccountId)
    requires
        i < old(v)@.len(),
    ensures
        entries_of(final(v)@) =~= entries_of(old(v)@).update(
            i as int,
            (EntryV {
                id: old(v)@[i as int]@.id,
                acct: AccountV { authority: a@, ..old(v)@[i as int]@.acct },
            }),
        ),
{
    let mut e = v.remove(i);
    e.acct.authority = a;
    v.insert(i, e);
    proof {
        assert(v@ =~= old(v)@.update(i as int, v@[i as int]));
        assert(entries_of(v@) =~= entries_of(old(v)@).update(i as int, v@[i as int]@));
    }
}

/// A fresh copy of the account table, for staging an operation's custody
/// changes so that a failed operation can discard them all.
pub(crate) fn clone_accounts(v: &Vec<AccountEntry>) -> (r: Vec<AccountEntry>)
    ensures
        entries_of(r@) == entries_of(v@),
{
    let mut r: Vec<AccountEntry> = Vec::new();
    let n = v.len();
    let mut i: usize = 0;
    while i < n
        invariant
            n == v@.len(),
            i <= n,
            r@.len() == i,
            forall|k: int| 0 <= k < i ==> r@[k]@ == v@[k]@,
        decreases n - i,
    {
        let e = AccountEntry {
            id: AccountId { bytes: clone_bytes(&v[i].id.bytes) },
            acct: TokenAccount {
                authority: AccountId { bytes: clone_bytes(&v[i].acct.authority.bytes) },
                balance: v[i].acct.balance,
                frozen: v[i].acct.frozen,
            },
        };
        r.push(e);
        i += 1;
    }
    proof {
        assert(entries_of(r@) =~= entries_of(v@));
    }
    r
}

/// Moves `amount` units from `from` to `to`, authorized by `authority`.
/// This is the asset transfer service's transfer primitive; it performs its
/// whole effect or reports an error and changes nothing.
pub fn transfer(
    l: &mut Ledger,
    from: &AccountId,
    to: &AccountId,
    amount: u64,
    authority: &AccountId,
) -> (r: Result<(), TransferError>)
    requires
        old(l).wf(),
    ensures
        final(l).wf(),
        final(l).program_id@ == old(l).program_id@,
        final(l).record@ == old(l).record@,
        match r {
            Ok(()) => transfer_v(old(l)@, from@, to@, amount, authority@) == Ok::<
                LedgerV,
                TransferError,
            >(final(l)@),
            Err(e) => transfer_v(old(l)@, from@, to@, amount, authority@) == Err::<
                LedgerV,
                TransferError,
            >(e) && final(l)@ == old(l)@,
        },
{
    let ghost s0 = entries_of(l.accounts@);
    let fi = match find_account(&l.accounts, from) {
        Some(i) => i,
        None => {
            proof {
                lemma_as_map_contains(s0, from@);
            }
            return Err(TransferError::AccountNotFound);
        },
    };
    proof {
        lemma_as_map_index(s0, fi as int);
    }
    if !account_id_eq(&l.accounts[fi].acct.authority, authority) {
        return Err(TransferError::AuthorityMismatch);
    }
    let ti = match find_account(&l.accounts, to) {
        Some(i) => i,
        None => {
            proof {
                lemma_as_map_contains(s0, to@);
            }
            return Err(TransferError::AccountNotFound);
        },
    };
    proof {
        lemma_as_map_index(s0, ti as int);
    }
    if l.accounts[fi].acct.frozen || l.accounts[ti].acct.frozen {
        return Err(TransferError::AccountFrozen);
    }
    if l.accounts[fi].acct.balance < amount {
        return Err(TransferError::InsufficientBalance);
    }
    if fi == ti {
        proof {
            assert(from@ == to@);
            assert(transfer_v(l@, from@, to@, amount, authority@) == Ok::<
                LedgerV,
                TransferError,
            >(l@));
        }
        return Ok(());
    }
    proof {
        assert(from@ != to@) by {
            assert(s0[fi as int].id == from@);
            assert(s0[ti as int].id == to@);
        }
    }
    if amount > u64::MAX - l.accounts[ti].acct.balance {
        return Err(TransferError::BalanceOverflow);
    }
    let fb = l.accounts[fi].acct.balance - amount;
    let tb = l.accounts[ti].acct.balance + amount;
    set_balance(&mut l.accounts, fi, fb);
    proof {
        let s1 = entries_of(l.accounts@);
        assert(unique_ids(s1));
        assert(s1[ti as int] == s0[ti as int]);
        lemma_as_map_update(s0, fi as int, s1[fi as int]);
    }
    let ghost s1 = entries_of(l.accounts@);
    set_balance(&mut l.accounts, ti, tb);
    proof {
        let s2 = entries_of(l.accounts@);
        assert(unique_ids(s2));
        lemma_as_map_update(s1, ti as int, s2[ti as int]);
        assert(l@.accounts =~= old(l)@.accounts.insert(
            from@,
            AccountV {
                balance: (old(l)@.accounts[from@].balance - amount) as u64,
                ..old(l)@.accounts[from@]
            },
        ).insert(
            to@,
            AccountV {
                balance: (old(l)@.accounts[to@].balance + amount) as u64,
                ..old(l)@.accounts[to@]
            },
        ));
        assert(transfer_v(old(l)@, from@, to@, amount, authority@) == Ok::<
            LedgerV,
            TransferError,
        >(l@));
    }
    Ok(())
}

/// Hands `account`'s custody authority from `current` to `new_authority`.
/// This is the asset transfer service's authority-reassignment primitive.
pub fn reassign_authority(
    l: &mut Ledger,
    account: &AccountId,
    current: &AccountId,
    new_authority: AccountId,
) -> (r: Result<(), TransferError>)
    requires
        old(l).wf(),
    ensures
        final(l).wf(),
        final(l).program_id@ == old(l).program_id@,
        final(l).record@ == old(l).record@,
        match r {
            Ok(()) => reassign_v(old(l)@, account@, current@, new_authority@) == Ok::<
                LedgerV,
                TransferError,
            >(final(l)@),
            Err(e) => reassign_v(old(l)@, account@, current@, new_authority@) == Err::<
                LedgerV,
                TransferError,
            >(e) && final(l)@ == old(l)@,
        },
{
    let ghost s0 = entries_of(l.accounts@);
    let i = match find_account(&l.accounts, account) {
        Some(i) => i,
        None => {
            proof {
                lemma_as_map_contains(s0, account@);
            }
            return Err(TransferError::AccountNotFound);
        },
    };
    proof {
        lemma_as_map_index(s0, i as int);
    }
    if !account_id_eq(&l.accounts[i].acct.authority, current) {
        return Err(TransferError::AuthorityMismatch);
    }
    if l.accounts[i].acct.frozen {
        return Err(TransferError::AccountFrozen);
    }
    set_account_authority(&mut l.accounts, i, new_authority);
    proof {
        let s1 = entries_of(l.accounts@);
        assert(unique_ids(s1));
        lemma_as_map_update(s0, i as int, s1[i as int]);
        assert(l@.accounts =~= old(l)@.accounts.insert(
            account@,
            AccountV { authority: new_authority@, ..old(l)@.accounts[account@] },
        ));
        assert(reassign_v(old(l)@, account@, current@, new_authority@) == Ok::<
            LedgerV,
            TransferError,
        >(l@));
    }
    Ok(())
}

/// Closes the empty `account`, its reclaimable deposit going to
/// `destination`, authorized by `authority`. This is the asset transfer
/// service's account-close primitive.
pub fn close_account(
    l: &mut Ledger,
    account: &AccountId,
    destination: &AccountId,
    authority: &AccountId,
) -> (r: Result<(), TransferError>)
    requires
        old(l).wf(),
    ensures
        final(l).wf(),
        final(l).program_id@ == old(l).program_id@,
        final(l).record@ == old(l).record@,
        match r {
            Ok(()) => close_v(old(l)@, account@, destination@, authority@) == Ok::<
                LedgerV,
                TransferError,
            >(final(l)@),
            Err(e) => close_v(old(l)@, account@, destination@, authority@) == Err::<
                LedgerV,
                TransferError,
            >(e) && final(l)@ == old(l)@,
        },
{
    let ghost s0 = entries_of(l.accounts@);
    let i = match find_account(&l.accounts, account) {
        Some(i) => i,
        None => {
            proof {
                lemma_as_map_contains(s0, account@);
            }
            return Err(TransferError::AccountNotFound);
        },
    };
    proof {
        lemma_as_map_index(s0, i as int);
    }
    if !account_id_eq(&l.accounts[i].acct.authority, authority) {
        return Err(TransferError::AuthorityMismatch);
    }
    if l.accounts[i].acct.balance != 0 {
        return Err(TransferError::NonZeroBalance);
    }
    let _removed = l.accounts.remove(i);
    proof {
        assert(entries_of(l.accounts@) =~= s0.remove(i as int));
        assert(unique_ids(entries_of(l.accounts@)));
        lemma_as_map_remove(s0, i as int);
        assert(l@.accounts =~= old(l)@.accounts.remove(account@));
        assert(close_v(old(l)@, account@, destination@, authority@) == Ok::<
            LedgerV,
            TransferError,
        >(l@));
    }
    Ok(())
}

/// The balance held at `id`, or zero when no account is there. Exchange and
/// Cancel read the vault's balance this way at execution time, so the amount
/// they move is exactly what the vault currently holds.
pub(crate) fn balance_or_zero(l: &Ledger, id: &AccountId) -> (r: u64)
    requires
        l.wf(),
    ensures
        r == (if l@.accounts.contains_key(id@) {
            l@.accounts[id@].balance
        } else {
            0u64
        }),
{
    let ghost s0 = entries_of(l.accounts@);
    match find_account(&l.accounts, id) {
        Some(i) => {
            proof {
                lemma_as_map_index(s0, i as int);
            }
            l.accounts[i].acct.balance
        },
        None => {
            proof {
                lemma_as_map_contains(s0, id@);
            }
            0
        },
    }
}

} // verus!
