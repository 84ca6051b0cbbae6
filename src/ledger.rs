use vstd::prelude::*;

use crate::key::Key;
use crate::state::{ProgramState, ProgramStateView};
use crate::vault::{Collection, CollectionView, Vault, VaultView};

verus! {

/// Everything the program keeps on the ledger: its configuration and the
/// records at derived addresses. A record's address is its identity, so
/// "an address already holds data" is the existence check.
pub struct Ledger {
    program_id: Key,
    verification_program: Key,
    state: Option<ProgramState>,
    collections: Vec<Collection>,
    vaults: Vec<Vault>,
}

/// What a `Ledger` holds, with records keyed by address.
pub struct LedgerView {
    /// The program whose addresses are derived.
    pub program_id: Seq<u8>,
    /// The program that runs signature checks.
    pub verification_program: Seq<u8>,
    pub state: Option<ProgramStateView>,
    pub collections: Map<Seq<u8>, CollectionView>,
    pub vaults: Map<Seq<u8>, VaultView>,
}

/// Vaults by the address of their asset.
pub open spec fn vault_map(vs: Seq<Vault>) -> Map<Seq<u8>, VaultView> {
    Map::new(
        |a: Seq<u8>| exists|i: int| 0 <= i < vs.len() && vs[i].asset@ == a,
        |a: Seq<u8>| vs[choose|i: int| 0 <= i < vs.len() && vs[i].asset@ == a]@,
    )
}

/// No two vaults share an address.
pub open spec fn vault_addresses_unique(vs: Seq<Vault>) -> bool {
    forall|i: int, j: int|
        0 <= i < vs.len() && 0 <= j < vs.len() && vs[i].asset@ == vs[j].asset@ ==> i == j
}

/// Collections by address.
pub open spec fn collection_map(cs: Seq<Collection>) -> Map<Seq<u8>, CollectionView> {
    Map::new(
        |a: Seq<u8>| exists|i: int| 0 <= i < cs.len() && cs[i].address@ == a,
        |a: Seq<u8>| cs[choose|i: int| 0 <= i < cs.len() && cs[i].address@ == a]@,
    )
}

/// No two collections share an address.
pub open spec fn collection_addresses_unique(cs: Seq<Collection>) -> bool {
    forall|i: int, j: int|
        0 <= i < cs.len() && 0 <= j < cs.len() && cs[i].address@ == cs[j].address@ ==> i == j
}

proof fn lemma_vault_lookup(vs: Seq<Vault>, i: int)
    requires
        vault_addresses_unique(vs),
        0 <= i < vs.len(),
    ensures
        vault_map(vs).contains_key(vs[i].asset@),
        vault_map(vs)[vs[i].asset@] == vs[i]@,
{
    let a = vs[i].asset@;
    assert(exists|k: int| 0 <= k < vs.len() && vs[k].asset@ == a);
    let j = choose|k: int| 0 <= k < vs.len() && vs[k].asset@ == a;
    assert(j == i);
}

proof fn lemma_vault_push(vs: Seq<Vault>, v: Vault)
    requires
        vault_addresses_unique(vs),
        !vault_map(vs).contains_key(v.asset@),
    ensures
        vault_addresses_unique(vs.push(v)),
        vault_map(vs.push(v)) == vault_map(vs).insert(v.asset@, v@),
{
    let ws = vs.push(v);
    assert(vault_addresses_unique(ws));
    assert forall|a: Seq<u8>| #[trigger] vault_map(ws).contains_key(a)
        == vault_map(vs).insert(v.asset@, v@).contains_key(a) by {
        if vault_map(ws).contains_key(a) {
            let k = choose|k: int| 0 <= k < ws.len() && ws[k].asset@ == a;
            if k < vs.len() {
                assert(vs[k].asset@ == a);
            }
        }
        if vault_map(vs).contains_key(a) {
            let k = choose|k: int| 0 <= k < vs.len() && vs[k].asset@ == a;
            assert(ws[k].asset@ == a);
        }
        if a == v.asset@ {
            assert(ws[vs.len() as int].asset@ == a);
        }
    };
    assert forall|a: Seq<u8>| #[trigger] vault_map(ws).contains_key(a)
        implies vault_map(ws)[a] == vault_map(vs).insert(v.asset@, v@)[a] by {
        let k = choose|k: int| 0 <= k < ws.len() && ws[k].asset@ == a;
        lemma_vault_lookup(ws, k);
        if k < vs.len() {
            lemma_vault_lookup(vs, k);
        }
    };
    assert(vault_map(ws) =~= vault_map(vs).insert(v.asset@, v@));
}

proof fn lemma_vault_update(vs: Seq<Vault>, i: int, v: Vault)
    requires
        vault_addresses_unique(vs),
        0 <= i < vs.len(),
        v.asset@ == vs[i].asset@,
    ensures
        vault_addresses_unique(vs.update(i, v)),
        vault_map(vs.update(i, v)) == vault_map(vs).insert(v.asset@, v@),
{
    let ws = vs.update(i, v);
    assert(vault_addresses_unique(ws));
    assert forall|a: Seq<u8>| #[trigger] vault_map(ws).contains_key(a)
        == vault_map(vs).insert(v.asset@, v@).contains_key(a) by {
        if vault_map(ws).contains_key(a) {
            let k = choose|k: int| 0 <= k < ws.len() && ws[k].asset@ == a;
            assert(vs[k].asset@ == a);
        }
        if vault_map(vs).contains_key(a) {
            let k = choose|k: int| 0 <= k < vs.len() && vs[k].asset@ == a;
            assert(ws[k].asset@ == a);
        }
        if a == v.asset@ {
            assert(ws[i].asset@ == a);
        }
    };
    assert forall|a: Seq<u8>| #[trigger] vault_map(ws).contains_key(a)
        implies vault_map(ws)[a] == vault_map(vs).insert(v.asset@, v@)[a] by {
        let k = choose|k: int| 0 <= k < ws.len() && ws[k].asset@ == a;
        lemma_vault_lookup(ws, k);
        lemma_vault_lookup(vs, k);
    };
    assert(vault_map(ws) =~= vault_map(vs).insert(v.asset@, v@));
}

proof fn lemma_collection_lookup(cs: Seq<Collection>, i: int)
    requires
        collection_addresses_unique(cs),
        0 <= i < cs.len(),
    ensures
        collection_map(cs).contains_key(cs[i].address@),
        collection_map(cs)[cs[i].address@] == cs[i]@,
{
    let a = cs[i].address@;
    assert(exists|k: int| 0 <= k < cs.len() && cs[k].address@ == a);
    let j = choose|k: int| 0 <= k < cs.len() && cs[k].address@ == a;
    assert(j == i);
}

proof fn lemma_collection_push(cs: Seq<Collection>, c: Collection)
    requires
        collection_addresses_unique(cs),
        !collection_map(cs).contains_key(c.address@),
    ensures
        collection_addresses_unique(cs.push(c)),
        collection_map(cs.push(c)) == collection_map(cs).insert(c.address@, c@),
{
    let ds = cs.push(c);
    assert(collection_addresses_unique(ds));
    assert forall|a: Seq<u8>| #[trigger] collection_map(ds).contains_key(a)
        == collection_map(cs).insert(c.address@, c@).contains_key(a) by {
        if collection_map(ds).contains_key(a) {
            let k = choose|k: int| 0 <= k < ds.len() && ds[k].address@ == a;
            if k < cs.len() {
                assert(cs[k].address@ == a);
            }
        }
        if collection_map(cs).contains_key(a) {
            let k = choose|k: int| 0 <= k < cs.len() && cs[k].address@ == a;
            assert(ds[k].address@ == a);
        }
        if a == c.address@ {
            assert(ds[cs.len() as int].address@ == a);
        }
    };
    assert forall|a: Seq<u8>| #[trigger] collection_map(ds).contains_key(a)
        implies collection_map(ds)[a] == collection_map(cs).insert(c.address@, c@)[a] by {
        let k = choose|k: int| 0 <= k < ds.len() && ds[k].address@ == a;
        lemma_collection_lookup(ds, k);
        if k < cs.len() {
            lemma_collection_lookup(cs, k);
        }
    };
    assert(collection_map(ds) =~= collection_map(cs).insert(c.address@, c@));
}

impl View for Ledger {
    type V = LedgerView;

    closed spec fn view(&self) -> LedgerView {
        LedgerView {
            program_id: self.program_id@,
            verification_program: self.verification_program@,
            state: match self.state {
                Some(s) => Some(s@),
                None => None,
            },
            collections: collection_map(self.collections@),
            vaults: vault_map(self.vaults@),
        }
    }
}

impl Ledger {
    /// The ledger's records have distinct addresses.
    pub closed spec fn wf(&self) -> bool {
        &&& vault_addresses_unique(self.vaults@)
        &&& collection_addresses_unique(self.collections@)
    }

    /// An empty ledger for the program `program_id`, whose approvals are
    /// checked by the program `verification_program`.
    pub fn new(program_id: Key, verification_program: Key) -> (r: Ledger)
        ensures
            r.wf(),
            r@ == (LedgerView {
                program_id: program_id@,
                verification_program: verification_program@,
                state: None,
                collections: Map::empty(),
                vaults: Map::empty(),
            }),
    {
        let r = Ledger {
            program_id,
            verification_program,
            state: None,
            collections: Vec::new(),
            vaults: Vec::new(),
        };
        assert(r@.collections =~= Map::empty());
        assert(r@.vaults =~= Map::empty());
        r
    }

    pub fn program_id(&self) -> (r: Key)
        ensures
            r@ == self@.program_id,
    {
        self.program_id
    }

    pub fn verification_program(&self) -> (r: Key)
        ensures
            r@ == self@.verification_program,
    {
        self.verification_program
    }

    /// The configuration, once the program is initialized.
    pub fn program_state(&self) -> (r: Option<&ProgramState>)
        ensures
            match r {
                Some(s) => self@.state == Some(s@),
                None => self@.state is None,
            },
    {
        match &self.state {
            Some(s) => Some(s),
            None => None,
        }
    }

    fn find_vault(&self, address: &Key) -> (r: Option<usize>)
        requires
            self.wf(),
        ensures
            match r {
                Some(i) => i < self.vaults@.len() && self.vaults@[i as int].asset@ == address@,
                None => !self@.vaults.contains_key(address@),
            },
    {
        let mut i: usize = 0;
        while i < self.vaults.len()
            invariant
                i <= self.vaults@.len(),
                forall|j: int| 0 <= j < i ==> self.vaults@[j].asset@ != address@,
            decreases self.vaults@.len() - i,
        {
            if self.vaults[i].asset.same_as(address) {
                return Some(i);
            }
            i = i + 1;
        }
        None
    }

    /// The vault at `address`, if one is there.
    pub fn vault(&self, address: &Key) -> (r: Option<&Vault>)
        requires
            self.wf(),
        ensures
            match r {
                Some(v) => self@.vaults.contains_key(address@) && self@.vaults[address@] == v@
                    && v.asset@ == address@,
                None => !self@.vaults.contains_key(address@),
            },
    {
        match self.find_vault(address) {
            Some(i) => {
                proof {
                    lemma_vault_lookup(self.vaults@, i as int);
                }
                Some(&self.vaults[i])
            },
            None => None,
        }
    }

    /// Records a vault at an address that holds none.
    pub(crate) fn insert_vault(&mut self, v: Vault)
        requires
            old(self).wf(),
            !old(self)@.vaults.contains_key(v.asset@),
        ensures
            final(self).wf(),
            final(self)@ == (LedgerView { vaults: old(self)@.vaults.insert(v.asset@, v@), ..old(self)@ }),
    {
        proof {
            lemma_vault_push(self.vaults@, v);
        }
        self.vaults.push(v);
    }

    /// Replaces the vault at the address of `v`.
    pub(crate) fn replace_vault(&mut self, v: Vault)
        requires
            old(self).wf(),
            old(self)@.vaults.contains_key(v.asset@),
        ensures
            final(self).wf(),
            final(self)@ == (LedgerView { vaults: old(self)@.vaults.insert(v.asset@, v@), ..old(self)@ }),
    {
        let i = match self.find_vault(&v.asset) {
            Some(i) => i,
            None => {
                return;
            },
        };
        proof {
            lemma_vault_update(self.vaults@, i as int, v);
        }
        self.vaults.set(i, v);
    }

    /// The collection at `address`, if one is there.
    pub fn collection(&self, address: &Key) -> (r: Option<&Collection>)
        requires
            self.wf(),
        ensures
            match r {
                Some(c) => self@.collections.contains_key(address@) && self@.collections[address@] == c@,
                None => !self@.collections.contains_key(address@),
            },
    {
        let mut i: usize = 0;
        while i < self.collections.len()
            invariant
                self.wf(),
                i <= self.collections@.len(),
                forall|j: int| 0 <= j < i ==> self.collections@[j].address@ != address@,
            decreases self.collections@.len() - i,
        {
            if self.collections[i].address.same_as(address) {
                proof {
                    lemma_collection_lookup(self.collections@, i as int);
                }
                return Some(&self.collections[i]);
            }
            i = i + 1;
        }
        None
    }

    /// Records a collection at an address that holds none.
    pub(crate) fn insert_collection(&mut self, c: Collection)
        requires
            old(self).wf(),
            !old(self)@.collections.contains_key(c.address@),
        ensures
            final(self).wf(),
            final(self)@ == (LedgerView {
                collections: old(self)@.collections.insert(c.address@, c@),
                ..old(self)@
            }),
    {
        proof {
            lemma_collection_push(self.collections@, c);
        }
        self.collections.push(c);
    }

    /// Replaces the configuration; the records stay as they are.
    pub fn load_state(&mut self, s: ProgramState)
        requires
            old(self).wf(),
        ensures
            final(self).wf(),
            final(self)@ == (LedgerView { state: Some(s@), ..old(self)@ }),
    {
        self.state = Some(s);
    }

    /// Puts a stored vault back at its address; refused, with the ledger
    /// unchanged, when a vault is there already.
    pub fn load_vault(&mut self, v: Vault) -> (r: bool)
        requires
            old(self).wf(),
        ensures
            final(self).wf(),
            r == !old(self)@.vaults.contains_key(v.asset@),
            r ==> final(self)@ == (LedgerView { vaults: old(self)@.vaults.insert(v.asset@, v@), ..old(self)@ }),
            !r ==> final(self)@ == old(self)@,
    {
        if self.find_vault(&v.asset).is_some() {
            return false;
        }
        self.insert_vault(v);
        true
    }

    /// Puts a stored collection back at its address; refused, with the
    /// ledger unchanged, when a collection is there already.
    pub fn load_collection(&mut self, c: Collection) -> (r: bool)
        requires
            old(self).wf(),
        ensures
            final(self).wf(),
            r == !old(self)@.collections.contains_key(c.address@),
            r ==> final(self)@ == (LedgerView {
                collections: old(self)@.collections.insert(c.address@, c@),
                ..old(self)@
            }),
            !r ==> final(self)@ == old(self)@,
    {
        if self.collection(&c.address).is_some() {
            return false;
        }
        self.insert_collection(c);
        true
    }
}

} // verus!
