//! An executable model of the ledger accounts the provisioning unit touches.
//!
//! The ledger is a finite store of accounts, each at a unique address.  Its
//! mathematical view is a map from addresses to account states.  Every step
//! of the provisioning protocol is a checked transition on this store:
//! it either performs its whole effect, or reports a failure kind and
//! leaves the store untouched.

use vstd::pervasive::VecAdditionalExecFns;
use vstd::prelude::*;

use crate::failure::FailureKind;
use crate::sizing::metadata_record_space;

verus! {

/// The metadata-pointer extension region of a mint account: who may update
/// the pointer, and where the metadata record lives.
#[derive(Debug, PartialEq, Eq)]
pub struct PointerExtension {
    pub authority: Vec<u8>,
    pub metadata_address: Vec<u8>,
}

/// The base fields of an initialized mint.
#[derive(Debug, PartialEq, Eq)]
pub struct MintDetails {
    pub decimals: u8,
    pub mint_authority: Vec<u8>,
    pub freeze_authority: Option<Vec<u8>>,
    pub supply: u64,
}

/// What an account holds.
#[derive(Debug, PartialEq, Eq)]
pub enum AccountContents {
    /// Allocated and zero-initialized; not yet claimed by any initializer.
    Untyped,
    /// A mint account: its extension region, then its base fields once the
    /// mint itself is initialized.
    Mint { pointer: Option<PointerExtension>, details: Option<MintDetails> },
    /// A metadata record, sized exactly to its two length-prefixed texts.
    Metadata { name: Vec<u8>, description: Vec<u8> },
    /// A holding account: a balance of one asset, held for one owner.
    Holding { owner: Vec<u8>, mint: Vec<u8>, amount: u64 },
}

/// One ledger account.
#[derive(Debug, PartialEq, Eq)]
pub struct Account {
    pub address: Vec<u8>,
    pub lamports: u64,
    pub space: u64,
    pub owner_program: Vec<u8>,
    pub contents: AccountContents,
}

/// Mathematical view of a `PointerExtension`.
#[verifier::ext_equal]
pub struct PointerExtensionV {
    pub authority: Seq<u8>,
    pub metadata_address: Seq<u8>,
}

/// Mathematical view of `MintDetails`.
#[verifier::ext_equal]
pub struct MintDetailsV {
    pub decimals: u8,
    pub mint_authority: Seq<u8>,
    pub freeze_authority: Option<Seq<u8>>,
    pub supply: u64,
}

/// Mathematical view of `AccountContents`.
#[verifier::ext_equal]
pub enum ContentsV {
    Untyped,
    Mint { pointer: Option<PointerExtensionV>, details: Option<MintDetailsV> },
    Metadata { name: Seq<u8>, description: Seq<u8> },
    Holding { owner: Seq<u8>, mint: Seq<u8>, amount: u64 },
}

/// Mathematical view of an `Account`.
#[verifier::ext_equal]
pub struct AccountV {
    pub address: Seq<u8>,
    pub lamports: u64,
    pub space: u64,
    pub owner_program: Seq<u8>,
    pub contents: ContentsV,
}

/// Mathematical view of an optional identity.
pub open spec fn opt_bytes(o: Option<Vec<u8>>) -> Option<Seq<u8>> {
    match o {
        Some(v) => Some(v@),
        None => None,
    }
}

impl View for PointerExtension {
    type V = PointerExtensionV;

    open spec fn view(&self) -> PointerExtensionV {
        PointerExtensionV { authority: self.authority@, metadata_address: self.metadata_address@ }
    }
}

impl View for MintDetails {
    type V = MintDetailsV;

    open spec fn view(&self) -> MintDetailsV {
        MintDetailsV {
            decimals: self.decimals,
            mint_authority: self.mint_authority@,
            freeze_authority: opt_bytes(self.freeze_authority),
            supply: self.supply,
        }
    }
}

impl View for AccountContents {
    type V = ContentsV;

    open spec fn view(&self) -> ContentsV {
        match self {
            AccountContents::Untyped => ContentsV::Untyped,
            AccountContents::Mint { pointer, details } => ContentsV::Mint {
                pointer: match pointer {
                    Some(p) => Some(p@),
                    None => None,
                },
                details: match details {
                    Some(d) => Some(d@),
                    None => None,
                },
            },
            AccountContents::Metadata { name, description } => ContentsV::Metadata {
                name: name@,
                description: description@,
            },
            AccountContents::Holding { owner, mint, amount } => ContentsV::Holding {
                owner: owner@,
                mint: mint@,
                amount: *amount,
            },
        }
    }
}

impl View for Account {
    type V = AccountV;

    open spec fn view(&self) -> AccountV {
        AccountV {
            address: self.address@,
            lamports: self.lamports,
            space: self.space,
            owner_program: self.owner_program@,
            contents: self.contents@,
        }
    }
}

/// The account store.
#[derive(Debug, PartialEq, Eq)]
pub struct Ledger {
    pub accounts: Vec<Account>,
}

/// No two accounts share an address.
pub open spec fn unique_addresses(s: Seq<AccountV>) -> bool {
    forall|i: int, j: int| 0 <= i < j < s.len() ==> s[i].address != s[j].address
}

/// The address-to-account map a sequence of accounts denotes.
pub open spec fn accounts_map(s: Seq<AccountV>) -> Map<Seq<u8>, AccountV>
    decreases s.len(),
{
    if s.len() == 0 {
        Map::empty()
    } else {
        accounts_map(s.drop_last()).insert(s.last().address, s.last())
    }
}

impl Ledger {
    /// The views of the stored accounts, in storage order.
    pub open spec fn account_views(&self) -> Seq<AccountV> {
        self.accounts@.map_values(|a: Account| a@)
    }

    /// Well-formed: no two accounts share an address.
    pub open spec fn wf(&self) -> bool {
        unique_addresses(self.account_views())
    }
}

impl View for Ledger {
    type V = Map<Seq<u8>, AccountV>;

    open spec fn view(&self) -> Map<Seq<u8>, AccountV> {
        accounts_map(self.account_views())
    }
}

proof fn lemma_unique_drop_last(s: Seq<AccountV>)
    requires
        unique_addresses(s),
        s.len() > 0,
    ensures
        unique_addresses(s.drop_last()),
{
    assert forall|i: int, j: int|
        0 <= i < j < s.drop_last().len() implies s.drop_last()[i].address
        != s.drop_last()[j].address by {
        assert(s.drop_last()[i] == s[i]);
        assert(s.drop_last()[j] == s[j]);
    }
}

/// Each stored account is what the denoted map holds at its address.
proof fn lemma_accounts_map_index(s: Seq<AccountV>, i: int)
    requires
        unique_addresses(s),
        0 <= i < s.len(),
    ensures
        accounts_map(s).dom().contains(s[i].address),
        accounts_map(s)[s[i].address] == s[i],
    decreases s.len(),
{
    if i == s.len() - 1 {
    } else {
        lemma_unique_drop_last(s);
        assert(s.drop_last()[i] == s[i]);
        lemma_accounts_map_index(s.drop_last(), i);
        assert(s[i].address != s.last().address);
    }
}

/// The denoted map's domain is exactly the stored addresses.
proof fn lemma_accounts_map_dom(s: Seq<AccountV>)
    ensures
        forall|a: Seq<u8>|
            accounts_map(s).dom().contains(a) <==> (exists|i: int|
                0 <= i < s.len() && s[i].address == a),
    decreases s.len(),
{
    if s.len() == 0 {
    } else {
        lemma_accounts_map_dom(s.drop_last());
        assert forall|a: Seq<u8>|
            accounts_map(s).dom().contains(a) <==> (exists|i: int|
                0 <= i < s.len() && s[i].address == a) by {
            if accounts_map(s).dom().contains(a) {
                if a == s.last().address {
                    assert(0 <= s.len() - 1 < s.len() && s[s.len() - 1].address == a);
                } else {
                    assert(accounts_map(s.drop_last()).dom().contains(a));
                    assert(exists|i: int|
                        0 <= i < s.drop_last().len() && s.drop_last()[i].address == a);
                    let i = choose|i: int|
                        0 <= i < s.drop_last().len() && s.drop_last()[i].address == a;
                    assert(s.drop_last()[i] == s[i]);
                    assert(0 <= i < s.len() && s[i].address == a);
                }
            }
            if exists|i: int| 0 <= i < s.len() && s[i].address == a {
                let i = choose|i: int| 0 <= i < s.len() && s[i].address == a;
                if i == s.len() - 1 {
                    assert(a == s.last().address);
                } else {
                    assert(s.drop_last()[i] == s[i]);
                    assert(exists|k: int|
                        0 <= k < s.drop_last().len() && s.drop_last()[k].address == a);
                    assert(accounts_map(s.drop_last()).dom().contains(a));
                }
            }
        }
    }
}

/// Replacing an account, keeping its address, updates the denoted map at
/// that one key.
proof fn lemma_accounts_map_update(s: Seq<AccountV>, i: int, v: AccountV)
    requires
        unique_addresses(s),
        0 <= i < s.len(),
        v.address == s[i].address,
    ensures
        accounts_map(s.update(i, v)) == accounts_map(s).insert(v.address, v),
    decreases s.len(),
{
    if i == s.len() - 1 {
        assert(s.update(i, v).drop_last() =~= s.drop_last());
        assert(s.update(i, v).last() == v);
        assert(accounts_map(s.drop_last()).insert(s.last().address, s.last()).insert(v.address, v)
            =~= accounts_map(s.drop_last()).insert(v.address, v));
    } else {
        lemma_unique_drop_last(s);
        assert(s.drop_last()[i] == s[i]);
        lemma_accounts_map_update(s.drop_last(), i, v);
        assert(s.update(i, v).drop_last() =~= s.drop_last().update(i, v));
        assert(s.update(i, v).last() == s.last());
        assert(v.address != s.last().address);
        assert(accounts_map(s.drop_last()).insert(v.address, v).insert(
            s.last().address,
            s.last(),
        ) =~= accounts_map(s.drop_last()).insert(s.last().address, s.last()).insert(v.address, v));
    }
}

/// Appending an account extends the denoted map at its address.
proof fn lemma_accounts_map_push(s: Seq<AccountV>, v: AccountV)
    ensures
        accounts_map(s.push(v)) == accounts_map(s).insert(v.address, v),
{
    assert(s.push(v).drop_last() =~= s);
    assert(s.push(v).last() == v);
}

/// An account with the same balance-independent fields, minus a paid
/// balance.
pub open spec fn debit(acct: AccountV, lamports: u64) -> AccountV {
    AccountV {
        address: acct.address,
        lamports: (acct.lamports - lamports) as u64,
        space: acct.space,
        owner_program: acct.owner_program,
        contents: acct.contents,
    }
}

/// An account with its contents replaced.
pub open spec fn with_contents(acct: AccountV, contents: ContentsV) -> AccountV {
    AccountV {
        address: acct.address,
        lamports: acct.lamports,
        space: acct.space,
        owner_program: acct.owner_program,
        contents,
    }
}

/// When allocating a fresh account succeeds: the target address must not
/// exist yet, and the funder must exist and cover the required balance.
pub open spec fn create_account_check(
    lv: Map<Seq<u8>, AccountV>,
    funder: Seq<u8>,
    address: Seq<u8>,
    lamports: u64,
) -> Result<(), FailureKind> {
    if lv.dom().contains(address) {
        Err(FailureKind::PreconditionFailure)
    } else if !lv.dom().contains(funder) || lv[funder].lamports < lamports {
        Err(FailureKind::InsufficientFunds)
    } else {
        Ok(())
    }
}

/// The effect of allocating a fresh account: the funder pays the balance,
/// and a zero-initialized account of the requested size and owner appears.
pub open spec fn create_account_apply(
    lv: Map<Seq<u8>, AccountV>,
    funder: Seq<u8>,
    address: Seq<u8>,
    lamports: u64,
    space: u64,
    owner_program: Seq<u8>,
) -> Map<Seq<u8>, AccountV> {
    lv.insert(funder, debit(lv[funder], lamports)).insert(
        address,
        AccountV { address, lamports, space, owner_program, contents: ContentsV::Untyped },
    )
}

/// When writing the metadata record succeeds: the record account must
/// exist, still be unclaimed, and have exactly the record's size.
pub open spec fn write_metadata_check(
    lv: Map<Seq<u8>, AccountV>,
    address: Seq<u8>,
    name: Seq<u8>,
    description: Seq<u8>,
) -> Result<(), FailureKind> {
    if !lv.dom().contains(address) {
        Err(FailureKind::PreconditionFailure)
    } else if !(lv[address].contents is Untyped) {
        Err(FailureKind::PreconditionFailure)
    } else if lv[address].space != metadata_record_space(name, description) {
        Err(FailureKind::PreconditionFailure)
    } else {
        Ok(())
    }
}

/// The effect of writing the metadata record.
pub open spec fn write_metadata_apply(
    lv: Map<Seq<u8>, AccountV>,
    address: Seq<u8>,
    name: Seq<u8>,
    description: Seq<u8>,
) -> Map<Seq<u8>, AccountV> {
    lv.insert(address, with_contents(lv[address], ContentsV::Metadata { name, description }))
}

/// When attaching the metadata-pointer extension succeeds: the mint account
/// must exist and not be claimed yet — in particular, the extension must be
/// attached before the mint is initialized.
pub open spec fn initialize_pointer_check(lv: Map<Seq<u8>, AccountV>, mint: Seq<u8>) -> Result<
    (),
    FailureKind,
> {
    if !lv.dom().contains(mint) {
        Err(FailureKind::PreconditionFailure)
    } else if !(lv[mint].contents is Untyped) {
        Err(FailureKind::PreconditionFailure)
    } else {
        Ok(())
    }
}

/// The effect of attaching the metadata-pointer extension.
pub open spec fn initialize_pointer_apply(
    lv: Map<Seq<u8>, AccountV>,
    mint: Seq<u8>,
    authority: Seq<u8>,
    metadata_address: Seq<u8>,
) -> Map<Seq<u8>, AccountV> {
    lv.insert(
        mint,
        with_contents(
            lv[mint],
            ContentsV::Mint {
                pointer: Some(PointerExtensionV { authority, metadata_address }),
                details: None,
            },
        ),
    )
}

/// When initializing the mint succeeds: the account must exist and not be
/// initialized as a mint already.
pub open spec fn initialize_mint_check(lv: Map<Seq<u8>, AccountV>, mint: Seq<u8>) -> Result<
    (),
    FailureKind,
> {
    if !lv.dom().contains(mint) {
        Err(FailureKind::PreconditionFailure)
    } else if lv[mint].contents is Untyped {
        Ok(())
    } else if lv[mint].contents matches ContentsV::Mint { details: None, .. } {
        Ok(())
    } else {
        Err(FailureKind::PreconditionFailure)
    }
}

/// The effect of initializing the mint: its base fields appear, with zero
/// supply, and an already-attached extension region is kept.
pub open spec fn initialize_mint_apply(
    lv: Map<Seq<u8>, AccountV>,
    mint: Seq<u8>,
    decimals: u8,
    mint_authority: Seq<u8>,
    freeze_authority: Option<Seq<u8>>,
) -> Map<Seq<u8>, AccountV> {
    let pointer = match lv[mint].contents {
        ContentsV::Mint { pointer, .. } => pointer,
        _ => None,
    };
    lv.insert(
        mint,
        with_contents(
            lv[mint],
            ContentsV::Mint {
                pointer,
                details: Some(
                    MintDetailsV { decimals, mint_authority, freeze_authority, supply: 0 },
                ),
            },
        ),
    )
}

/// When creating the holding account succeeds.  Creation is idempotent: an
/// existing holding account for the same (owner, asset) pair is left as it
/// is; any other occupant of the address is a failure.
pub open spec fn create_holding_check(
    lv: Map<Seq<u8>, AccountV>,
    funder: Seq<u8>,
    address: Seq<u8>,
    owner: Seq<u8>,
    mint: Seq<u8>,
    lamports: u64,
) -> Result<(), FailureKind> {
    if lv.dom().contains(address) {
        if lv[address].contents matches ContentsV::Holding { owner: o, mint: m, .. } && o == owner
            && m == mint {
            Ok(())
        } else {
            Err(FailureKind::PreconditionFailure)
        }
    } else if !lv.dom().contains(funder) || lv[funder].lamports < lamports {
        Err(FailureKind::InsufficientFunds)
    } else {
        Ok(())
    }
}

/// The effect of creating the holding account: nothing when it already
/// exists; otherwise the funder pays, and an empty holding account for the
/// (owner, asset) pair appears.
pub open spec fn create_holding_apply(
    lv: Map<Seq<u8>, AccountV>,
    funder: Seq<u8>,
    address: Seq<u8>,
    owner: Seq<u8>,
    mint: Seq<u8>,
    lamports: u64,
    owner_program: Seq<u8>,
) -> Map<Seq<u8>, AccountV> {
    if lv.dom().contains(address) {
        lv
    } else {
        lv.insert(funder, debit(lv[funder], lamports)).insert(
            address,
            AccountV {
                address,
                lamports,
                space: 0,
                owner_program,
                contents: ContentsV::Holding { owner, mint, amount: 0 },
            },
        )
    }
}

/// Holding-account creation is idempotent: once it has succeeded for an
/// (owner, asset) pair, running it again for the same pair succeeds and
/// changes nothing — whatever balance the funder has left and whatever
/// owner the second request names for the account.
pub proof fn lemma_create_holding_idempotent(
    lv: Map<Seq<u8>, AccountV>,
    funder: Seq<u8>,
    address: Seq<u8>,
    owner: Seq<u8>,
    mint: Seq<u8>,
    lamports: u64,
    owner_program: Seq<u8>,
    again_lamports: u64,
    again_owner_program: Seq<u8>,
)
    requires
        create_holding_check(lv, funder, address, owner, mint, lamports) is Ok,
    ensures
        ({
            let once = create_holding_apply(lv, funder, address, owner, mint, lamports, owner_program);
            &&& create_holding_check(once, funder, address, owner, mint, again_lamports) is Ok
            &&& create_holding_apply(
                once,
                funder,
                address,
                owner,
                mint,
                again_lamports,
                again_owner_program,
            ) == once
        }),
{
}

/// When minting into a holding account succeeds: the mint must be
/// initialized, the authority must be its mint authority, the destination
/// must be a holding account of this asset, and neither the supply nor the
/// balance may overflow.
pub open spec fn mint_unit_check(
    lv: Map<Seq<u8>, AccountV>,
    mint: Seq<u8>,
    destination: Seq<u8>,
    authority: Seq<u8>,
    amount: u64,
) -> Result<(), FailureKind> {
    if !lv.dom().contains(mint) {
        Err(FailureKind::PreconditionFailure)
    } else {
        match lv[mint].contents {
            ContentsV::Mint { details: Some(d), .. } => if d.mint_authority != authority {
                Err(FailureKind::AuthorityFailure)
            } else if !lv.dom().contains(destination) {
                Err(FailureKind::PreconditionFailure)
            } else {
                match lv[destination].contents {
                    ContentsV::Holding { mint: m, amount: balance, .. } => if m != mint {
                        Err(FailureKind::PreconditionFailure)
                    } else if d.supply + amount > u64::MAX {
                        Err(FailureKind::PreconditionFailure)
                    } else if balance + amount > u64::MAX {
                        Err(FailureKind::PreconditionFailure)
                    } else {
                        Ok(())
                    },
                    _ => Err(FailureKind::PreconditionFailure),
                }
            },
            _ => Err(FailureKind::PreconditionFailure),
        }
    }
}

/// The effect of minting: the supply and the destination balance both grow
/// by the minted amount.
pub open spec fn mint_unit_apply(
    lv: Map<Seq<u8>, AccountV>,
    mint: Seq<u8>,
    destination: Seq<u8>,
    amount: u64,
) -> Map<Seq<u8>, AccountV> {
    let minted = match lv[mint].contents {
        ContentsV::Mint { pointer, details: Some(d) } => ContentsV::Mint {
            pointer,
            details: Some(
                MintDetailsV {
                    decimals: d.decimals,
                    mint_authority: d.mint_authority,
                    freeze_authority: d.freeze_authority,
                    supply: (d.supply + amount) as u64,
                },
            ),
        },
        c => c,
    };
    let received = match lv[destination].contents {
        ContentsV::Holding { owner, mint: m, amount: balance } => ContentsV::Holding {
            owner,
            mint: m,
            amount: (balance + amount) as u64,
        },
        c => c,
    };
    lv.insert(mint, with_contents(lv[mint], minted)).insert(
        destination,
        with_contents(lv[destination], received),
    )
}

/// Byte-for-byte identity equality.
pub fn id_eq(a: &Vec<u8>, b: &Vec<u8>) -> (r: bool)
    ensures
        r == (a@ == b@),
{
    if a.len() != b.len() {
        return false;
    }
    let mut i: usize = 0;
    while i < a.len()
        invariant
            i <= a.len(),
            a@.len() == b@.len(),
            forall|k: int| 0 <= k < i ==> a@[k] == b@[k],
        decreases a@.len() - i,
    {
        if a[i] != b[i] {
            return false;
        }
        i += 1;
    }
    proof {
        assert(a@ =~= b@);
    }
    true
}

/// Copy an identity or byte text.
pub fn clone_bytes(v: &Vec<u8>) -> (r: Vec<u8>)
    ensures
        r@ == v@,
{
    vstd::slice::slice_to_vec(v.as_slice())
}

fn clone_opt_bytes(o: &Option<Vec<u8>>) -> (r: Option<Vec<u8>>)
    ensures
        opt_bytes(r) == opt_bytes(*o),
{
    match o {
        Some(v) => Some(clone_bytes(v)),
        None => None,
    }
}

fn clone_contents(c: &AccountContents) -> (r: AccountContents)
    ensures
        r@ == c@,
{
    match c {
        AccountContents::Untyped => AccountContents::Untyped,
        AccountContents::Mint { pointer, details } => AccountContents::Mint {
            pointer: match pointer {
                Some(p) => Some(
                    PointerExtension {
                        authority: clone_bytes(&p.authority),
                        metadata_address: clone_bytes(&p.metadata_address),
                    },
                ),
                None => None,
            },
            details: match details {
                Some(d) => Some(
                    MintDetails {
                        decimals: d.decimals,
                        mint_authority: clone_bytes(&d.mint_authority),
                        freeze_authority: clone_opt_bytes(&d.freeze_authority),
                        supply: d.supply,
                    },
                ),
                None => None,
            },
        },
        AccountContents::Metadata { name, description } => AccountContents::Metadata {
            name: clone_bytes(name),
            description: clone_bytes(description),
        },
        AccountContents::Holding { owner, mint, amount } => AccountContents::Holding {
            owner: clone_bytes(owner),
            mint: clone_bytes(mint),
            amount: *amount,
        },
    }
}

/// Copy one account.
pub fn clone_account(a: &Account) -> (r: Account)
    ensures
        r@ == a@,
{
    Account {
        address: clone_bytes(&a.address),
        lamports: a.lamports,
        space: a.space,
        owner_program: clone_bytes(&a.owner_program),
        contents: clone_contents(&a.contents),
    }
}

impl Ledger {
    /// An empty store.
    pub fn new() -> (r: Ledger)
        ensures
            r.wf(),
            r@ == Map::<Seq<u8>, AccountV>::empty(),
            r.accounts@.len() == 0,
    {
        Ledger { accounts: Vec::new() }
    }

    /// Copy the whole store: the working copy a unit of work mutates before
    /// it commits.
    pub fn clone_ledger(&self) -> (r: Ledger)
        ensures
            r@ == self@,
            r.account_views() == self.account_views(),
            r.wf() <==> self.wf(),
    {
        let mut accounts: Vec<Account> = Vec::new();
        let mut i: usize = 0;
        while i < self.accounts.len()
            invariant
                i <= self.accounts.len(),
                accounts@.len() == i,
                forall|k: int| 0 <= k < i ==> accounts@[k]@ == self.accounts@[k]@,
            decreases self.accounts@.len() - i,
        {
            accounts.push(clone_account(&self.accounts[i]));
            i += 1;
        }
        let r = Ledger { accounts };
        proof {
            assert(r.account_views() =~= self.account_views());
        }
        r
    }

    /// Find the stored index of an address.
    pub fn find_account(&self, address: &Vec<u8>) -> (r: Option<usize>)
        requires
            self.wf(),
        ensures
            match r {
                Some(i) => i < self.accounts@.len() && self.account_views()[i as int].address
                    == address@ && self@.dom().contains(address@) && self@[address@]
                    == self.account_views()[i as int],
                None => !self@.dom().contains(address@),
            },
    {
        let mut i: usize = 0;
        while i < self.accounts.len()
            invariant
                self.wf(),
                i <= self.accounts@.len(),
                forall|k: int| 0 <= k < i ==> self.account_views()[k].address != address@,
            decreases self.accounts@.len() - i,
        {
            if id_eq(&self.accounts[i].address, address) {
                proof {
                    lemma_accounts_map_index(self.account_views(), i as int);
                }
                return Some(i);
            }
            i += 1;
        }
        proof {
            lemma_accounts_map_dom(self.account_views());
        }
        None
    }

    /// Replace the account at a stored index, keeping its address.
    fn set_at(&mut self, i: usize, acct: Account)
        requires
            old(self).wf(),
            i < old(self).accounts@.len(),
            acct@.address == old(self).account_views()[i as int].address,
        ensures
            final(self).wf(),
            final(self)@ == old(self)@.insert(acct@.address, acct@),
            final(self).accounts@.len() == old(self).accounts@.len(),
            final(self).account_views() == old(self).account_views().update(i as int, acct@),
    {
        proof {
            lemma_accounts_map_update(old(self).account_views(), i as int, acct@);
        }
        let ghost prior = self.account_views();
        self.accounts.set(i, acct);
        proof {
            assert(self.account_views() =~= prior.update(i as int, acct@));
            assert forall|x: int, y: int|
                0 <= x < y < self.account_views().len() implies self.account_views()[x].address
                != self.account_views()[y].address by {
                assert(self.account_views()[x].address == prior[x].address);
                assert(self.account_views()[y].address == prior[y].address);
            }
        }
    }

    /// Append an account at an address the store does not hold yet.
    fn push_fresh(&mut self, acct: Account)
        requires
            old(self).wf(),
            !old(self)@.dom().contains(acct@.address),
        ensures
            final(self).wf(),
            final(self)@ == old(self)@.insert(acct@.address, acct@),
    {
        proof {
            lemma_accounts_map_dom(old(self).account_views());
            lemma_accounts_map_push(old(self).account_views(), acct@);
        }
        let ghost prior = self.account_views();
        self.accounts.push(acct);
        proof {
            assert(self.account_views() =~= prior.push(acct@));
            assert forall|x: int, y: int|
                0 <= x < y < self.account_views().len() implies self.account_views()[x].address
                != self.account_views()[y].address by {
                if y < prior.len() {
                    assert(self.account_views()[x] == prior[x]);
                    assert(self.account_views()[y] == prior[y]);
                } else {
                    assert(self.account_views()[x] == prior[x]);
                    assert(self.account_views()[y] == acct@);
                    assert(accounts_map(prior).dom().contains(prior[x].address)) by {
                        assert(0 <= x < prior.len() && prior[x].address == prior[x].address);
                    }
                }
            }
        }
    }

    /// Allocate a fresh, zero-initialized account of `space` bytes at
    /// `address`, owned by `owner_program` and funded by `funder`.
    pub fn create_account(
        &mut self,
        funder: &Vec<u8>,
        address: &Vec<u8>,
        lamports: u64,
        space: u64,
        owner_program: &Vec<u8>,
    ) -> (r: Result<(), FailureKind>)
        requires
            old(self).wf(),
        ensures
            final(self).wf(),
            r == create_account_check(old(self)@, funder@, address@, lamports),
            r is Ok ==> final(self)@ == create_account_apply(
                old(self)@,
                funder@,
                address@,
                lamports,
                space,
                owner_program@,
            ),
            r is Err ==> final(self)@ == old(self)@,
    {
        if self.find_account(address).is_some() {
            return Err(FailureKind::PreconditionFailure);
        }
        let fi = match self.find_account(funder) {
            None => {
                return Err(FailureKind::InsufficientFunds);
            },
            Some(i) => i,
        };
        if self.accounts[fi].lamports < lamports {
            return Err(FailureKind::InsufficientFunds);
        }
        let mut paid = clone_account(&self.accounts[fi]);
        paid.lamports = paid.lamports - lamports;
        self.set_at(fi, paid);
        let fresh = Account {
            address: clone_bytes(address),
            lamports,
            space,
            owner_program: clone_bytes(owner_program),
            contents: AccountContents::Untyped,
        };
        self.push_fresh(fresh);
        Ok(())
    }

    /// Write the metadata record into its freshly allocated account, whose
    /// size must match the record exactly.
    pub fn write_metadata(&mut self, address: &Vec<u8>, name: &Vec<u8>, description: &Vec<u8>) -> (r:
        Result<(), FailureKind>)
        requires
            old(self).wf(),
            metadata_record_space(name@, description@) <= u64::MAX,
        ensures
            final(self).wf(),
            r == write_metadata_check(old(self)@, address@, name@, description@),
            r is Ok ==> final(self)@ == write_metadata_apply(
                old(self)@,
                address@,
                name@,
                description@,
            ),
            r is Err ==> final(self)@ == old(self)@,
    {
        let i = match self.find_account(address) {
            None => {
                return Err(FailureKind::PreconditionFailure);
            },
            Some(i) => i,
        };
        match &self.accounts[i].contents {
            AccountContents::Untyped => {},
            _ => {
                return Err(FailureKind::PreconditionFailure);
            },
        }
        if self.accounts[i].space != crate::sizing::compute_metadata_record_space(
            name,
            description,
        ) {
            return Err(FailureKind::PreconditionFailure);
        }
        let base = &self.accounts[i];
        let written = Account {
            address: clone_bytes(&base.address),
            lamports: base.lamports,
            space: base.space,
            owner_program: clone_bytes(&base.owner_program),
            contents: AccountContents::Metadata {
                name: clone_bytes(name),
                description: clone_bytes(description),
            },
        };
        self.set_at(i, written);
        Ok(())
    }

    /// Attach the metadata-pointer extension to the unclaimed mint account:
    /// record where the metadata record lives and who may update the
    /// pointer.  Must run before the mint itself is initialized.
    pub fn initialize_pointer(
        &mut self,
        mint: &Vec<u8>,
        authority: &Vec<u8>,
        metadata_address: &Vec<u8>,
    ) -> (r: Result<(), FailureKind>)
        requires
            old(self).wf(),
        ensures
            final(self).wf(),
            r == initialize_pointer_check(old(self)@, mint@),
            r is Ok ==> final(self)@ == initialize_pointer_apply(
                old(self)@,
                mint@,
                authority@,
                metadata_address@,
            ),
            r is Err ==> final(self)@ == old(self)@,
    {
        let i = match self.find_account(mint) {
            None => {
                return Err(FailureKind::PreconditionFailure);
            },
            Some(i) => i,
        };
        match &self.accounts[i].contents {
            AccountContents::Untyped => {},
            _ => {
                return Err(FailureKind::PreconditionFailure);
            },
        }
        let base = &self.accounts[i];
        let claimed = Account {
            address: clone_bytes(&base.address),
            lamports: base.lamports,
            space: base.space,
            owner_program: clone_bytes(&base.owner_program),
            contents: AccountContents::Mint {
                pointer: Some(
                    PointerExtension {
                        authority: clone_bytes(authority),
                        metadata_address: clone_bytes(metadata_address),
                    },
                ),
                details: None,
            },
        };
        self.set_at(i, claimed);
        Ok(())
    }

    /// Initialize the mint's base fields; fails when the account is already
    /// initialized.  An attached extension region is kept.
    pub fn initialize_mint(
        &mut self,
        mint: &Vec<u8>,
        decimals: u8,
        mint_authority: &Vec<u8>,
        freeze_authority: &Option<Vec<u8>>,
    ) -> (r: Result<(), FailureKind>)
        requires
            old(self).wf(),
        ensures
            final(self).wf(),
            r == initialize_mint_check(old(self)@, mint@),
            r is Ok ==> final(self)@ == initialize_mint_apply(
                old(self)@,
                mint@,
                decimals,
                mint_authority@,
                opt_bytes(*freeze_authority),
            ),
            r is Err ==> final(self)@ == old(self)@,
    {
        let i = match self.find_account(mint) {
            None => {
                return Err(FailureKind::PreconditionFailure);
            },
            Some(i) => i,
        };
        let kept_pointer: Option<PointerExtension> = match &self.accounts[i].contents {
            AccountContents::Untyped => None,
            AccountContents::Mint { pointer, details } => {
                if details.is_some() {
                    return Err(FailureKind::PreconditionFailure);
                }
                match pointer {
                    Some(p) => Some(
                        PointerExtension {
                            authority: clone_bytes(&p.authority),
                            metadata_address: clone_bytes(&p.metadata_address),
                        },
                    ),
                    None => None,
                }
            },
            _ => {
                return Err(FailureKind::PreconditionFailure);
            },
        };
        let base = &self.accounts[i];
        let initialized = Account {
            address: clone_bytes(&base.address),
            lamports: base.lamports,
            space: base.space,
            owner_program: clone_bytes(&base.owner_program),
            contents: AccountContents::Mint {
                pointer: kept_pointer,
                details: Some(
                    MintDetails {
                        decimals,
                        mint_authority: clone_bytes(mint_authority),
                        freeze_authority: clone_opt_bytes(freeze_authority),
                        supply: 0,
                    },
                ),
            },
        };
        self.set_at(i, initialized);
        Ok(())
    }

    /// Create the associated holding account for an (owner, asset) pair.
    /// Idempotent: an existing holding account for the same pair is left
    /// untouched.
    pub fn create_holding(
        &mut self,
        funder: &Vec<u8>,
        address: &Vec<u8>,
        owner: &Vec<u8>,
        mint: &Vec<u8>,
        lamports: u64,
        owner_program: &Vec<u8>,
    ) -> (r: Result<(), FailureKind>)
        requires
            old(self).wf(),
        ensures
            final(self).wf(),
            r == create_holding_check(old(self)@, funder@, address@, owner@, mint@, lamports),
            r is Ok ==> final(self)@ == create_holding_apply(
                old(self)@,
                funder@,
                address@,
                owner@,
                mint@,
                lamports,
                owner_program@,
            ),
            r is Err ==> final(self)@ == old(self)@,
    {
        match self.find_account(address) {
            Some(i) => {
                match &self.accounts[i].contents {
                    AccountContents::Holding { owner: held_owner, mint: held_mint, .. } => {
                        if id_eq(held_owner, owner) && id_eq(held_mint, mint) {
                            Ok(())
                        } else {
                            Err(FailureKind::PreconditionFailure)
                        }
                    },
                    _ => Err(FailureKind::PreconditionFailure),
                }
            },
            None => {
                let fi = match self.find_account(funder) {
                    None => {
                        return Err(FailureKind::InsufficientFunds);
                    },
                    Some(i) => i,
                };
                if self.accounts[fi].lamports < lamports {
                    return Err(FailureKind::InsufficientFunds);
                }
                let mut paid = clone_account(&self.accounts[fi]);
                paid.lamports = paid.lamports - lamports;
                self.set_at(fi, paid);
                let fresh = Account {
                    address: clone_bytes(address),
                    lamports,
                    space: 0,
                    owner_program: clone_bytes(owner_program),
                    contents: AccountContents::Holding {
                        owner: clone_bytes(owner),
                        mint: clone_bytes(mint),
                        amount: 0,
                    },
                };
                self.push_fresh(fresh);
                Ok(())
            },
        }
    }

    /// Mint `amount` units of the asset into a holding account, authorized
    /// by the mint authority.
    pub fn mint_unit(
        &mut self,
        mint: &Vec<u8>,
        destination: &Vec<u8>,
        authority: &Vec<u8>,
        amount: u64,
    ) -> (r: Result<(), FailureKind>)
        requires
            old(self).wf(),
        ensures
            final(self).wf(),
            r == mint_unit_check(old(self)@, mint@, destination@, authority@, amount),
            r is Ok ==> final(self)@ == mint_unit_apply(old(self)@, mint@, destination@, amount),
            r is Err ==> final(self)@ == old(self)@,
    {
        let mi = match self.find_account(mint) {
            None => {
                return Err(FailureKind::PreconditionFailure);
            },
            Some(i) => i,
        };
        let m_pointer: Option<PointerExtension>;
        let m_decimals: u8;
        let m_authority: Vec<u8>;
        let m_freeze: Option<Vec<u8>>;
        let m_supply: u64;
        match &self.accounts[mi].contents {
            AccountContents::Mint { pointer, details } => {
                match details {
                    Some(d) => {
                        m_pointer = match pointer {
                            Some(p) => Some(
                                PointerExtension {
                                    authority: clone_bytes(&p.authority),
                                    metadata_address: clone_bytes(&p.metadata_address),
                                },
                            ),
                            None => None,
                        };
                        m_decimals = d.decimals;
                        m_authority = clone_bytes(&d.mint_authority);
                        m_freeze = clone_opt_bytes(&d.freeze_authority);
                        m_supply = d.supply;
                    },
                    None => {
                        return Err(FailureKind::PreconditionFailure);
                    },
                }
            },
            _ => {
                return Err(FailureKind::PreconditionFailure);
            },
        }
        if !id_eq(&m_authority, authority) {
            return Err(FailureKind::AuthorityFailure);
        }
        let di = match self.find_account(destination) {
            None => {
                return Err(FailureKind::PreconditionFailure);
            },
            Some(i) => i,
        };
        let h_owner: Vec<u8>;
        let h_mint: Vec<u8>;
        let h_amount: u64;
        match &self.accounts[di].contents {
            AccountContents::Holding { owner, mint: held_mint, amount: balance } => {
                h_owner = clone_bytes(owner);
                h_mint = clone_bytes(held_mint);
                h_amount = *balance;
            },
            _ => {
                return Err(FailureKind::PreconditionFailure);
            },
        }
        if !id_eq(&h_mint, mint) {
            return Err(FailureKind::PreconditionFailure);
        }
        if amount > u64::MAX - m_supply {
            return Err(FailureKind::PreconditionFailure);
        }
        if amount > u64::MAX - h_amount {
            return Err(FailureKind::PreconditionFailure);
        }
        proof {
            assert(mi != di);
        }
        let grown = Account {
            address: clone_bytes(&self.accounts[mi].address),
            lamports: self.accounts[mi].lamports,
            space: self.accounts[mi].space,
            owner_program: clone_bytes(&self.accounts[mi].owner_program),
            contents: AccountContents::Mint {
                pointer: m_pointer,
                details: Some(
                    MintDetails {
                        decimals: m_decimals,
                        mint_authority: m_authority,
                        freeze_authority: m_freeze,
                        supply: m_supply + amount,
                    },
                ),
            },
        };
        self.set_at(mi, grown);
        let received = Account {
            address: clone_bytes(&self.accounts[di].address),
            lamports: self.accounts[di].lamports,
            space: self.accounts[di].space,
            owner_program: clone_bytes(&self.accounts[di].owner_program),
            contents: AccountContents::Holding {
                owner: h_owner,
                mint: h_mint,
                amount: h_amount + amount,
            },
        };
        self.set_at(di, received);
        Ok(())
    }
}

} // verus!
