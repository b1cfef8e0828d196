//! What is known of a validator at a finalized block.
use crate::account::AccountId;
use crate::network_status::Balance;
use vstd::prelude::*;

verus! {

/// Whether two optional texts read the same.
pub open spec fn same_text(a: Option<String>, b: Option<String>) -> bool {
    match (a, b) {
        (Some(x), Some(y)) => x@ == y@,
        (None, None) => true,
        _ => false,
    }
}

/// Whether two optional texts read the same.
pub fn texts_equal(a: &Option<String>, b: &Option<String>) -> (equal: bool)
    ensures
        equal == same_text(*a, *b),
{
    match (a, b) {
        (Some(x), Some(y)) => *x == *y,
        (None, None) => true,
        _ => false,
    }
}

/// A copy of an optional text.
pub fn copy_text(a: &Option<String>) -> (copy: Option<String>)
    ensures
        copy == *a,
{
    match a {
        Some(text) => Some(text.clone()),
        None => None,
    }
}

/// Whether two optional accounts are the same account, or both absent.
pub fn accounts_equal(a: &Option<AccountId>, b: &Option<AccountId>) -> (equal: bool)
    ensures
        equal == (*a == *b),
{
    match (a, b) {
        (Some(x), Some(y)) => {
            let equal = x.same(y);
            assert(equal == (x == y)) by {
                if equal {
                    assert(x.bytes =~= y.bytes);
                }
            }
            equal
        },
        (None, None) => true,
        _ => false,
    }
}

/// What an account states of its owner on chain.
#[derive(Debug)]
pub struct IdentityRegistration {
    pub display: Option<String>,
    pub legal: Option<String>,
    pub web: Option<String>,
    pub email: Option<String>,
    pub twitter: Option<String>,
    pub confirmed: bool,
}

impl IdentityRegistration {
    /// Whether two identities state the same.
    pub open spec fn same(self, other: IdentityRegistration) -> bool {
        &&& same_text(self.display, other.display)
        &&& same_text(self.legal, other.legal)
        &&& same_text(self.web, other.web)
        &&& same_text(self.email, other.email)
        &&& same_text(self.twitter, other.twitter)
        &&& self.confirmed == other.confirmed
    }

    /// Whether two identities state the same.
    pub fn equals(&self, other: &IdentityRegistration) -> (equal: bool)
        ensures
            equal == self.same(*other),
    {
        texts_equal(&self.display, &other.display) && texts_equal(&self.legal, &other.legal)
            && texts_equal(&self.web, &other.web) && texts_equal(&self.email, &other.email)
            && texts_equal(&self.twitter, &other.twitter) && self.confirmed == other.confirmed
    }

    /// A copy.
    pub fn duplicate(&self) -> (copy: IdentityRegistration)
        ensures
            copy == *self,
    {
        IdentityRegistration {
            display: copy_text(&self.display),
            legal: copy_text(&self.legal),
            web: copy_text(&self.web),
            email: copy_text(&self.email),
            twitter: copy_text(&self.twitter),
            confirmed: self.confirmed,
        }
    }
}

/// Whether two optional identities state the same, or are both absent.
pub open spec fn same_identity(a: Option<IdentityRegistration>, b: Option<IdentityRegistration>) -> bool {
    match (a, b) {
        (Some(x), Some(y)) => x.same(y),
        (None, None) => true,
        _ => false,
    }
}

/// Whether two optional identities state the same, or are both absent.
pub fn identities_equal(a: &Option<IdentityRegistration>, b: &Option<IdentityRegistration>) -> (equal:
    bool)
    ensures
        equal == same_identity(*a, *b),
{
    match (a, b) {
        (Some(x), Some(y)) => x.equals(y),
        (None, None) => true,
        _ => false,
    }
}

/// A copy of an optional identity.
pub fn copy_identity(a: &Option<IdentityRegistration>) -> (copy: Option<IdentityRegistration>)
    ensures
        copy == *a,
{
    match a {
        Some(identity) => Some(identity.duplicate()),
        None => None,
    }
}

/// The account above a sub-account: identities are one level deep, so it has no
/// parent of its own.
#[derive(Debug)]
pub struct ParentAccount {
    pub id: AccountId,
    pub identity: Option<IdentityRegistration>,
}

/// Whether two optional parents are the same account with the same identity, or both absent.
pub open spec fn same_parent(a: Option<ParentAccount>, b: Option<ParentAccount>) -> bool {
    match (a, b) {
        (Some(x), Some(y)) => x.id == y.id && same_identity(x.identity, y.identity),
        (None, None) => true,
        _ => false,
    }
}

/// Whether two optional parents are the same account with the same identity, or both absent.
pub fn parents_equal(a: &Option<ParentAccount>, b: &Option<ParentAccount>) -> (equal: bool)
    ensures
        equal == same_parent(*a, *b),
{
    match (a, b) {
        (Some(x), Some(y)) => {
            let same_id = x.id.same(&y.id);
            assert(same_id == (x.id == y.id)) by {
                if same_id {
                    assert(x.id.bytes =~= y.id.bytes);
                }
            }
            same_id && identities_equal(&x.identity, &y.identity)
        },
        (None, None) => true,
        _ => false,
    }
}

/// A copy of an optional parent.
pub fn copy_parent(a: &Option<ParentAccount>) -> (copy: Option<ParentAccount>)
    ensures
        copy == *a,
{
    match a {
        Some(parent) => Some(ParentAccount { id: parent.id, identity: copy_identity(&parent.identity) }),
        None => None,
    }
}

/// An account with what it states of itself and the account above it.
#[derive(Debug)]
pub struct Account {
    pub id: AccountId,
    pub identity: Option<IdentityRegistration>,
    pub parent: Option<ParentAccount>,
    pub discovered_at: Option<u64>,
    pub killed_at: Option<u64>,
}

impl Account {
    /// The account of which only the identifier is known.
    pub fn new(id: AccountId) -> (account: Account)
        ensures
            account.id == id,
            account.identity is None,
            account.parent is None,
            account.discovered_at is None,
            account.killed_at is None,
    {
        Account { id, identity: None, parent: None, discovered_at: None, killed_at: None }
    }

    /// Whether two accounts are the same in all that is known of them.
    pub open spec fn same(self, other: Account) -> bool {
        &&& self.id == other.id
        &&& same_identity(self.identity, other.identity)
        &&& same_parent(self.parent, other.parent)
        &&& self.discovered_at == other.discovered_at
        &&& self.killed_at == other.killed_at
    }

    /// Whether two accounts are the same in all that is known of them.
    pub fn equals(&self, other: &Account) -> (equal: bool)
        ensures
            equal == self.same(*other),
    {
        let same_id = self.id.same(&other.id);
        assert(same_id == (self.id == other.id)) by {
            if same_id {
                assert(self.id.bytes =~= other.id.bytes);
            }
        }
        same_id && identities_equal(&self.identity, &other.identity) && parents_equal(
            &self.parent,
            &other.parent,
        ) && self.discovered_at == other.discovered_at && self.killed_at == other.killed_at
    }

    /// A copy.
    pub fn duplicate(&self) -> (copy: Account)
        ensures
            copy == *self,
    {
        Account {
            id: self.id,
            identity: copy_identity(&self.identity),
            parent: copy_parent(&self.parent),
            discovered_at: self.discovered_at,
            killed_at: self.killed_at,
        }
    }
}

/// Where the rewards of a staker go.
#[derive(Clone, Copy, Debug, PartialEq, Eq)]
pub enum RewardDestination {
    Staked,
    Stash,
    Controller,
    Account(AccountId),
    Nowhere,
}

impl RewardDestination {
    /// Whether two destinations are the same.
    pub fn equals(&self, other: &RewardDestination) -> (equal: bool)
        ensures
            equal == (*self == *other),
    {
        match (self, other) {
            (RewardDestination::Staked, RewardDestination::Staked) => true,
            (RewardDestination::Stash, RewardDestination::Stash) => true,
            (RewardDestination::Controller, RewardDestination::Controller) => true,
            (RewardDestination::Nowhere, RewardDestination::Nowhere) => true,
            (RewardDestination::Account(x), RewardDestination::Account(y)) => {
                let equal = x.same(y);
                assert(equal == (x == y)) by {
                    if equal {
                        assert(x.bytes =~= y.bytes);
                    }
                }
                equal
            },
            _ => false,
        }
    }
}

/// What a stash has bonded.
#[derive(Clone, Copy, Debug, PartialEq, Eq)]
pub struct Stake {
    pub stash_account_id: AccountId,
    pub total_amount: Balance,
    pub active_amount: Balance,
}

impl Stake {
    /// The stake of a stash that has bonded nothing.
    pub fn empty(stash_account_id: AccountId) -> (stake: Stake)
        ensures
            stake == (Stake { stash_account_id, total_amount: 0, active_amount: 0 }),
    {
        Stake { stash_account_id, total_amount: 0, active_amount: 0 }
    }

    /// Whether two stakes are the same.
    pub fn equals(&self, other: &Stake) -> (equal: bool)
        ensures
            equal == (*self == *other),
    {
        let same_id = self.stash_account_id.same(&other.stash_account_id);
        assert(same_id == (self.stash_account_id == other.stash_account_id)) by {
            if same_id {
                assert(self.stash_account_id.bytes =~= other.stash_account_id.bytes);
            }
        }
        same_id && self.total_amount == other.total_amount && self.active_amount
            == other.active_amount
    }
}

/// The commission a validator takes, in parts per billion, and whether it refuses
/// nominations.
#[derive(Clone, Copy, Debug, PartialEq, Eq, Structural)]
pub struct ValidatorPreferences {
    pub commission_per_billion: u32,
    pub blocks_nominations: bool,
}

/// A nominator's declaration: whom it backs, since when, and with what stake.
#[derive(Debug)]
pub struct Nomination {
    pub nominator_account_id: AccountId,
    pub controller_account_id: Option<AccountId>,
    pub submission_era_index: u32,
    pub target_account_ids: Vec<AccountId>,
    pub stake: Stake,
}

/// Mathematical model of a [`Nomination`].
pub struct NominationView {
    pub nominator_account_id: AccountId,
    pub controller_account_id: Option<AccountId>,
    pub submission_era_index: u32,
    pub target_account_ids: Seq<AccountId>,
    pub stake: Stake,
}

impl View for Nomination {
    type V = NominationView;

    open spec fn view(&self) -> NominationView {
        NominationView {
            nominator_account_id: self.nominator_account_id,
            controller_account_id: self.controller_account_id,
            submission_era_index: self.submission_era_index,
            target_account_ids: self.target_account_ids@,
            stake: self.stake,
        }
    }
}

/// The models of a list of nominations.
pub open spec fn nomination_views(nominations: Seq<Nomination>) -> Seq<NominationView> {
    Seq::new(nominations.len(), |i: int| nominations[i]@)
}

impl Nomination {
    /// Whether two nominations declare the same.
    pub open spec fn same(self, other: Nomination) -> bool {
        self@ == other@
    }

    /// Whether two nominations declare the same.
    pub fn equals(&self, other: &Nomination) -> (equal: bool)
        ensures
            equal == self.same(*other),
    {
        let same_id = self.nominator_account_id.same(&other.nominator_account_id);
        assert(same_id == (self.nominator_account_id == other.nominator_account_id)) by {
            if same_id {
                assert(self.nominator_account_id.bytes =~= other.nominator_account_id.bytes);
            }
        }
        if !same_id || !accounts_equal(&self.controller_account_id, &other.controller_account_id)
            || self.submission_era_index != other.submission_era_index || !self.stake.equals(
            &other.stake,
        ) || self.target_account_ids.len() != other.target_account_ids.len() {
            return false;
        }
        let mut i: usize = 0;
        while i < self.target_account_ids.len()
            invariant
                i <= self.target_account_ids@.len(),
                self.target_account_ids@.len() == other.target_account_ids@.len(),
                forall|j: int|
                    0 <= j < i ==> self.target_account_ids@[j] == other.target_account_ids@[j],
            decreases self.target_account_ids@.len() - i,
        {
            let same_target = self.target_account_ids[i].same(&other.target_account_ids[i]);
            if !same_target {
                assert(self.target_account_ids@[i as int] != other.target_account_ids@[i as int]);
                return false;
            }
            assert(self.target_account_ids@[i as int].bytes
                =~= other.target_account_ids@[i as int].bytes);
            i += 1;
        }
        assert(self.target_account_ids@ =~= other.target_account_ids@);
        true
    }

    /// A copy.
    pub fn duplicate(&self) -> (copy: Nomination)
        ensures
            copy.same(*self),
    {
        let mut targets: Vec<AccountId> = Vec::new();
        let mut i: usize = 0;
        while i < self.target_account_ids.len()
            invariant
                i <= self.target_account_ids@.len(),
                targets@ == self.target_account_ids@.subrange(0, i as int),
            decreases self.target_account_ids@.len() - i,
        {
            targets.push(self.target_account_ids[i]);
            assert(targets@ =~= self.target_account_ids@.subrange(0, i + 1));
            i += 1;
        }
        assert(targets@ =~= self.target_account_ids@);
        Nomination {
            nominator_account_id: self.nominator_account_id,
            controller_account_id: self.controller_account_id,
            submission_era_index: self.submission_era_index,
            target_account_ids: targets,
            stake: self.stake,
        }
    }

    /// Whether the nomination backs `validator`.
    pub fn targets(&self, validator: &AccountId) -> (backs: bool)
        ensures
            backs == self@.target_account_ids.contains(*validator),
    {
        let mut i: usize = 0;
        while i < self.target_account_ids.len()
            invariant
                i <= self.target_account_ids@.len(),
                forall|j: int| 0 <= j < i ==> self.target_account_ids@[j] != *validator,
            decreases self.target_account_ids@.len() - i,
        {
            if self.target_account_ids[i].same(validator) {
                assert(self.target_account_ids@[i as int].bytes =~= validator.bytes);
                return true;
            }
            i += 1;
        }
        false
    }
}

/// Whether two lists of nominations declare the same, one by one.
pub open spec fn same_nominations(a: Seq<Nomination>, b: Seq<Nomination>) -> bool {
    &&& a.len() == b.len()
    &&& forall|i: int| 0 <= i < a.len() ==> (#[trigger] a[i]).same(b[i])
}

/// Whether two lists of nominations declare the same, one by one.
pub fn nominations_equal(a: &Vec<Nomination>, b: &Vec<Nomination>) -> (equal: bool)
    ensures
        equal == same_nominations(a@, b@),
{
    if a.len() != b.len() {
        return false;
    }
    let mut i: usize = 0;
    while i < a.len()
        invariant
            i <= a@.len(),
            a@.len() == b@.len(),
            forall|j: int| 0 <= j < i ==> (#[trigger] a@[j]).same(b@[j]),
        decreases a@.len() - i,
    {
        if !a[i].equals(&b[i]) {
            return false;
        }
        i += 1;
    }
    true
}

/// A copy of a list of nominations.
pub fn copy_nominations(a: &Vec<Nomination>) -> (copy: Vec<Nomination>)
    ensures
        same_nominations(copy@, a@),
{
    let mut copy: Vec<Nomination> = Vec::new();
    let mut i: usize = 0;
    while i < a.len()
        invariant
            i <= a@.len(),
            copy@.len() == i,
            forall|j: int| 0 <= j < i ==> (#[trigger] copy@[j]).same(a@[j]),
        decreases a@.len() - i,
    {
        copy.push(a[i].duplicate());
        i += 1;
    }
    copy
}

/// Whether two lists of numbers are the same.
pub fn numbers_equal(a: &Vec<u32>, b: &Vec<u32>) -> (equal: bool)
    ensures
        equal == (a@ == b@),
{
    if a.len() != b.len() {
        return false;
    }
    let mut i: usize = 0;
    while i < a.len()
        invariant
            i <= a@.len(),
            a@.len() == b@.len(),
            forall|j: int| 0 <= j < i ==> a@[j] == b@[j],
        decreases a@.len() - i,
    {
        if a[i] != b[i] {
            return false;
        }
        i += 1;
    }
    assert(a@ =~= b@);
    true
}

/// A copy of a list of numbers.
pub fn copy_numbers(a: &Vec<u32>) -> (copy: Vec<u32>)
    ensures
        copy@ == a@,
{
    let mut copy: Vec<u32> = Vec::new();
    let mut i: usize = 0;
    while i < a.len()
        invariant
            i <= a@.len(),
            copy@ == a@.subrange(0, i as int),
        decreases a@.len() - i,
    {
        copy.push(a[i]);
        assert(copy@ =~= a@.subrange(0, i + 1));
        i += 1;
    }
    assert(copy@ =~= a@);
    copy
}

} // verus!
