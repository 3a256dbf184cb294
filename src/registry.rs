use vstd::prelude::*;
use vstd::std_specs::hash::group_hash_axioms;

use std::collections::HashMap;

use crate::error::EngineError;
use crate::table::KeyedTable;

verus! {

broadcast use group_hash_axioms;

/// Where a new contract's module comes from.
pub enum ModuleSource {
    /// The serialized module kept from an earlier instantiation of the same address.
    Serialized(Vec<u8>),
    /// Bytecode to compile; the compiled module is to be kept for the address afterwards.
    Bytecode(Vec<u8>),
}

/// The identifier that follows `next` when identifiers are handed out: past the largest one the
/// count starts again at one.
pub open spec fn wrapped_id(next: u64) -> u64 {
    if next > u64::MAX - 1 {
        1
    } else {
        next
    }
}

/// The live contracts of a host, by identifier, and the serialized modules kept by contract
/// address.
pub struct ContractRegistry<C> {
    contracts: HashMap<u64, C>,
    modules: KeyedTable<Vec<u8>>,
    next_id: u64,
}

impl<C> ContractRegistry<C> {
    /// The live contracts, by identifier.
    pub closed spec fn contracts(&self) -> Map<u64, C> {
        self.contracts@
    }

    /// The serialized modules, by contract address.
    pub closed spec fn modules(&self) -> Map<Seq<u8>, Seq<u8>> {
        self.modules@
    }

    /// The identifier the next contract is given, before wrapping.
    pub closed spec fn next(&self) -> u64 {
        self.next_id
    }

    /// A registry with no contracts and no modules; identifiers start at one.
    pub fn new() -> (r: ContractRegistry<C>)
        ensures
            r.contracts() == Map::<u64, C>::empty(),
            r.modules() == Map::<Seq<u8>, Seq<u8>>::empty(),
            r.next() == 1,
    {
        ContractRegistry { contracts: HashMap::new(), modules: KeyedTable::new(), next_id: 1 }
    }

    /// The identifier the next registered contract will be given.
    pub fn peek_id(&self) -> (r: u64)
        ensures
            r == wrapped_id(self.next()),
    {
        if self.next_id > u64::MAX - 1 {
            1
        } else {
            self.next_id
        }
    }

    /// Registers `contract` under a fresh identifier and returns the identifier.
    pub fn add_contract(&mut self, contract: C) -> (r: u64)
        ensures
            r == wrapped_id(old(self).next()),
            final(self).next() == r + 1,
            final(self).contracts() == old(self).contracts().insert(r, contract),
            final(self).modules() == old(self).modules(),
    {
        if self.next_id > u64::MAX - 1 {
            self.next_id = 1;
        }
        let id = self.next_id;
        self.next_id = self.next_id + 1;
        self.contracts.insert(id, contract);
        id
    }

    /// The contract registered under `id`.
    pub fn get(&self, id: u64) -> (r: Result<&C, EngineError>)
        ensures
            r is Ok <==> self.contracts().contains_key(id),
            r is Err ==> r == Err::<&C, EngineError>(EngineError::NotFound),
            r matches Ok(c) ==> *c == self.contracts()[id],
    {
        match self.contracts.get(&id) {
            Some(c) => Ok(c),
            None => Err(EngineError::NotFound),
        }
    }

    /// Removes the contract registered under `id`; returns whether there was one.
    pub fn destroy(&mut self, id: u64) -> (r: bool)
        ensures
            r == old(self).contracts().contains_key(id),
            final(self).contracts() == old(self).contracts().remove(id),
            final(self).modules() == old(self).modules(),
            final(self).next() == old(self).next(),
    {
        self.contracts.remove(&id).is_some()
    }

    /// The number of live contracts.
    pub fn length(&self) -> (r: u64)
        ensures
            r == self.contracts().len(),
    {
        self.contracts.len() as u64
    }

    /// Removes every contract; the kept modules stay.
    pub fn clear(&mut self)
        ensures
            final(self).contracts() == Map::<u64, C>::empty(),
            final(self).modules() == old(self).modules(),
            final(self).next() == old(self).next(),
    {
        self.contracts.clear();
    }

    /// Removes every contract and every kept module.
    pub fn destroy_all(&mut self)
        ensures
            final(self).contracts() == Map::<u64, C>::empty(),
            final(self).modules() == Map::<Seq<u8>, Seq<u8>>::empty(),
            final(self).next() == old(self).next(),
    {
        self.contracts.clear();
        self.modules = KeyedTable::new();
    }

    /// Decides where the module of a contract at `address` comes from: the serialized module
    /// kept for the address if there is one, else `bytecode`, which is then required.
    pub fn plan_instantiate(&self, address: &[u8], bytecode: Option<Vec<u8>>) -> (r: Result<
        ModuleSource,
        EngineError,
    >)
        ensures
            self.modules().contains_key(address@) ==> (r matches Ok(ModuleSource::Serialized(s))
                && s@ == self.modules()[address@]),
            !self.modules().contains_key(address@) ==> match bytecode {
                Some(b) => r matches Ok(ModuleSource::Bytecode(c)) && c@ == b@,
                None => r == Err::<ModuleSource, EngineError>(EngineError::NotFound),
            },
    {
        match self.modules.get(address) {
            Some(s) => Ok(ModuleSource::Serialized(crate::codec::copy_bytes(s.as_slice()))),
            None => match bytecode {
                Some(b) => Ok(ModuleSource::Bytecode(b)),
                None => Err(EngineError::NotFound),
            },
        }
    }

    /// Keeps `serialized` as the module of the contract at `address`.
    pub fn keep_module(&mut self, address: &[u8], serialized: Vec<u8>)
        ensures
            final(self).modules() == old(self).modules().insert(address@, serialized@),
            final(self).contracts() == old(self).contracts(),
            final(self).next() == old(self).next(),
    {
        self.modules.insert(address, serialized);
    }
}

} // verus!
