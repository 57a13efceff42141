//! The arena of player accounts, keyed by derived address.
use vstd::prelude::*;

use crate::authority::AuthorityState;
use crate::player::Player;

verus! {

/// Delegation settings handed to the delegated context.
#[derive(Clone, Copy, Debug, PartialEq, Eq)]
pub struct DelegationConfig {
    /// How often the delegated context commits on its own, in milliseconds.
    pub commit_frequency_ms: u32,
    /// The validator that must host the delegated copy, if one is pinned.
    pub validator: Option<[u8; 32]>,
}

/// The descriptor of a live delegation: its settings and the delegated
/// context's copy of the record.
#[derive(Clone, Copy, Debug, PartialEq, Eq)]
pub struct Delegation {
    pub config: DelegationConfig,
    pub snapshot: Player,
}

/// What the registry holds for one address.
pub struct Account {
    pub owner: Seq<u8>,
    pub player: Player,
    pub authority: AuthorityState,
    pub delegation: Option<Delegation>,
}

/// A descriptor exists exactly while authority is away from the base ledger.
pub open spec fn account_wf(a: Account) -> bool {
    (a.authority == AuthorityState::BaseOwned) == (a.delegation is None)
}

/// One stored account together with its address.
#[derive(Clone, Copy)]
pub struct Entry {
    pub address: [u8; 32],
    pub owner: [u8; 32],
    pub player: Player,
    pub authority: AuthorityState,
    pub delegation: Option<Delegation>,
}

impl View for Entry {
    type V = Account;

    open spec fn view(&self) -> Account {
        Account {
            owner: self.owner@,
            player: self.player,
            authority: self.authority,
            delegation: self.delegation,
        }
    }
}

/// Every account of one program, each at the address derived from its owner.
pub struct Registry {
    program: [u8; 32],
    entries: Vec<Entry>,
    accounts: Ghost<Map<Seq<u8>, Account>>,
}

impl View for Registry {
    type V = Map<Seq<u8>, Account>;

    closed spec fn view(&self) -> Map<Seq<u8>, Account> {
        self.accounts@
    }
}

impl Registry {
    /// The id of the program whose addresses this registry holds.
    pub closed spec fn program_key(&self) -> Seq<u8> {
        self.program@
    }

    /// The number of occupied slots.
    pub closed spec fn slots(&self) -> int {
        self.entries@.len() as int
    }

    /// The address stored in slot `i`.
    pub closed spec fn slot(&self, i: int) -> Seq<u8> {
        self.entries@[i].address@
    }

    pub closed spec fn wf(&self) -> bool {
        &&& forall|i: int, j: int|
            0 <= i < self.entries@.len() && 0 <= j < self.entries@.len() && i != j
                ==> self.entries@[i].address@ != self.entries@[j].address@
        &&& forall|i: int|
            0 <= i < self.entries@.len() ==> {
                &&& self.accounts@.contains_key(#[trigger] self.entries@[i].address@)
                &&& self.accounts@[self.entries@[i].address@] == self.entries@[i]@
            }
        &&& forall|k: Seq<u8>|
            #[trigger] self.accounts@.contains_key(k) ==> exists|i: int|
                0 <= i < self.entries@.len() && self.entries@[i].address@ == k
        &&& forall|k: Seq<u8>|
            #[trigger] self.accounts@.contains_key(k) ==> account_wf(self.accounts@[k])
    }

    /// An empty registry for the program `program`.
    pub fn new(program: [u8; 32]) -> (r: Registry)
        ensures
            r.wf(),
            r@ == Map::<Seq<u8>, Account>::empty(),
            r.program_key() == program@,
    {
        Registry { program, entries: Vec::new(), accounts: Ghost(Map::empty()) }
    }

    /// The program id given at creation.
    pub fn program_id(&self) -> (r: [u8; 32])
        ensures
            r@ == self.program_key(),
    {
        self.program
    }

    /// Every held account satisfies the descriptor rule.
    pub proof fn lemma_accounts_wf(&self, k: Seq<u8>)
        requires
            self.wf(),
            self@.contains_key(k),
        ensures
            account_wf(self@[k]),
    {
    }

    /// The slot holding `addr`, if any.
    pub(crate) fn locate(&self, addr: &[u8; 32]) -> (r: Option<usize>)
        requires
            self.wf(),
        ensures
            r is Some == self@.contains_key(addr@),
            r matches Some(i) ==> i < self.slots() && self.slot(i as int) == addr@,
    {
        let mut i: usize = 0;
        while i < self.entries.len()
            invariant
                self.wf(),
                0 <= i <= self.entries@.len(),
                forall|j: int| 0 <= j < i ==> self.entries@[j].address@ != addr@,
            decreases self.entries@.len() - i,
        {
            if crate::address::same_key(&self.entries[i].address, addr) {
                assert(self.accounts@.contains_key(self.entries@[i as int].address@));
                return Some(i);
            }
            i += 1;
        }
        proof {
            if self.accounts@.contains_key(addr@) {
                let k = addr@;
                assert(self.accounts@.contains_key(k));
                let j = choose|j: int| 0 <= j < self.entries@.len() && self.entries@[j].address@ == k;
                assert(self.entries@[j].address@ == addr@);
            }
        }
        None
    }

    /// The entry in slot `i`.
    pub(crate) fn read(&self, i: usize) -> (e: Entry)
        requires
            self.wf(),
            i < self.slots(),
        ensures
            e.address@ == self.slot(i as int),
            self@.contains_key(e.address@),
            self@[e.address@] == e@,
    {
        let e = self.entries[i];
        assert(self.accounts@.contains_key(self.entries@[i as int].address@));
        e
    }

    /// Replaces the account in slot `i`, keeping its address.
    pub(crate) fn write(&mut self, i: usize, e: Entry)
        requires
            old(self).wf(),
            i < old(self).slots(),
            e.address@ == old(self).slot(i as int),
            account_wf(e@),
        ensures
            final(self).wf(),
            final(self)@ == old(self)@.insert(e.address@, e@),
            final(self).program_key() == old(self).program_key(),
            final(self).slots() == old(self).slots(),
            forall|j: int| 0 <= j < old(self).slots() ==> final(self).slot(j) == old(self).slot(j),
    {
        let ghost before = self.entries@;
        self.entries.set(i, e);
        self.accounts = Ghost(self.accounts@.insert(e.address@, e@));
        assert forall|k: Seq<u8>| #[trigger] self.accounts@.contains_key(k) implies exists|j: int|
            0 <= j < self.entries@.len() && self.entries@[j].address@ == k by {
            if k != e.address@ {
                let j = choose|j: int| 0 <= j < before.len() && before[j].address@ == k;
                assert(self.entries@[j].address@ == k);
            } else {
                assert(self.entries@[i as int].address@ == k);
            }
        }
    }

    /// Stores a new account at an address not yet taken.
    pub(crate) fn add(&mut self, e: Entry)
        requires
            old(self).wf(),
            !old(self)@.contains_key(e.address@),
            account_wf(e@),
        ensures
            final(self).wf(),
            final(self)@ == old(self)@.insert(e.address@, e@),
            final(self).program_key() == old(self).program_key(),
    {
        let ghost before = self.entries@;
        self.entries.push(e);
        self.accounts = Ghost(self.accounts@.insert(e.address@, e@));
        assert forall|k: Seq<u8>| #[trigger] self.accounts@.contains_key(k) implies exists|j: int|
            0 <= j < self.entries@.len() && self.entries@[j].address@ == k by {
            if k != e.address@ {
                let j = choose|j: int| 0 <= j < before.len() && before[j].address@ == k;
                assert(self.entries@[j].address@ == k);
            } else {
                assert(self.entries@[before.len() as int].address@ == k);
            }
        }
        assert forall|i: int, j: int|
            0 <= i < self.entries@.len() && 0 <= j < self.entries@.len() && i != j
                implies self.entries@[i].address@ != self.entries@[j].address@ by {
            if i < before.len() && j < before.len() {
            } else if i < before.len() {
                assert(self.accounts@.contains_key(before[i].address@));
            } else {
                assert(old(self).accounts@.contains_key(before[j].address@));
            }
        }
    }
}

} // verus!
