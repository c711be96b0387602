//! Marketplace store: the simple key-to-value registry of per-service
//! metadata that sits beside the retrieval protocol.
//!
//! Each data identifier maps to a service name, description, thumbnail
//! and owner. The store has no algorithmic content of its own — it is
//! plain create/read bookkeeping — and it never touches the extension
//! call path. The caller's account is an ambient fact of the host, so
//! every entry point that needs it takes it as an argument.

use std::collections::HashMap;

use vstd::prelude::*;

verus! {

broadcast use vstd::std_specs::hash::group_hash_axioms;

/// An account on the chain, as the 32 bytes the host identifies it by.
#[derive(Clone, Copy, Debug, PartialEq, Eq)]
pub struct AccountId(pub [u8; 32]);

/// The registry of services, keyed by data identifier.
pub struct OracleMarket {
    owner: AccountId,
    service_name_map: HashMap<u64, Vec<u8>>,
    service_owner_map: HashMap<u64, AccountId>,
    service_desc_map: HashMap<u64, Vec<u8>>,
    service_thumb_map: HashMap<u64, Vec<u8>>,
}

impl OracleMarket {
    /// The account that instantiated the store.
    pub closed spec fn spec_owner(self) -> AccountId {
        self.owner
    }

    /// The registered service names, by data identifier.
    pub closed spec fn names(self) -> Map<u64, Vec<u8>> {
        self.service_name_map@
    }

    /// The registered service owners, by data identifier.
    pub closed spec fn owners(self) -> Map<u64, AccountId> {
        self.service_owner_map@
    }

    /// The registered service descriptions, by data identifier.
    pub closed spec fn descs(self) -> Map<u64, Vec<u8>> {
        self.service_desc_map@
    }

    /// The registered service thumbnails, by data identifier.
    pub closed spec fn thumbs(self) -> Map<u64, Vec<u8>> {
        self.service_thumb_map@
    }

    /// An empty registry owned by the instantiating caller.
    pub fn new(caller: AccountId) -> (r: Self)
        ensures
            r.spec_owner() == caller,
            r.names() == Map::<u64, Vec<u8>>::empty(),
            r.owners() == Map::<u64, AccountId>::empty(),
            r.descs() == Map::<u64, Vec<u8>>::empty(),
            r.thumbs() == Map::<u64, Vec<u8>>::empty(),
    {
        OracleMarket {
            owner: caller,
            service_name_map: HashMap::new(),
            service_owner_map: HashMap::new(),
            service_desc_map: HashMap::new(),
            service_thumb_map: HashMap::new(),
        }
    }

    /// An empty registry owned by the instantiating caller; delegates
    /// to [`OracleMarket::new`].
    pub fn default(caller: AccountId) -> (r: Self)
        ensures
            r.spec_owner() == caller,
            r.names() == Map::<u64, Vec<u8>>::empty(),
            r.owners() == Map::<u64, AccountId>::empty(),
            r.descs() == Map::<u64, Vec<u8>>::empty(),
            r.thumbs() == Map::<u64, Vec<u8>>::empty(),
    {
        Self::new(caller)
    }

    /// Register a service under the identifier: the caller becomes its
    /// owner and the three metadata fields are stored, replacing any
    /// earlier entry.
    pub fn add_service(
        &mut self,
        caller: AccountId,
        data_id: u64,
        name: Vec<u8>,
        desc: Vec<u8>,
        thumb: Vec<u8>,
    )
        ensures
            final(self).spec_owner() == old(self).spec_owner(),
            final(self).names() == old(self).names().insert(data_id, name),
            final(self).owners() == old(self).owners().insert(data_id, caller),
            final(self).descs() == old(self).descs().insert(data_id, desc),
            final(self).thumbs() == old(self).thumbs().insert(data_id, thumb),
    {
        self.service_owner_map.insert(data_id, caller);
        self.service_name_map.insert(data_id, name);
        self.service_desc_map.insert(data_id, desc);
        self.service_thumb_map.insert(data_id, thumb);
    }

    /// The owner of the service, or the asking caller itself where no
    /// service is registered under the identifier.
    pub fn query_service_owner(&self, caller: AccountId, data_id: u64) -> (r: AccountId)
        ensures
            self.owners().contains_key(data_id) ==> r == self.owners()[data_id],
            !self.owners().contains_key(data_id) ==> r == caller,
    {
        match self.service_owner_map.get(&data_id) {
            Some(account) => *account,
            None => caller,
        }
    }

    /// The name of the registered service.
    pub fn query_service_name(&self, data_id: u64) -> (r: Vec<u8>)
        requires
            self.names().contains_key(data_id),
        ensures
            r@ == self.names()[data_id]@,
    {
        let name = self.service_name_map.get(&data_id);
        match name {
            Some(v) => v.clone(),
            None => Vec::new(),
        }
    }

    /// The description of the registered service.
    pub fn query_service_desc(&self, data_id: u64) -> (r: Vec<u8>)
        requires
            self.descs().contains_key(data_id),
        ensures
            r@ == self.descs()[data_id]@,
    {
        let desc = self.service_desc_map.get(&data_id);
        match desc {
            Some(v) => v.clone(),
            None => Vec::new(),
        }
    }

    /// The thumbnail of the registered service.
    pub fn query_service_thumb(&self, data_id: u64) -> (r: Vec<u8>)
        requires
            self.thumbs().contains_key(data_id),
        ensures
            r@ == self.thumbs()[data_id]@,
    {
        let thumb = self.service_thumb_map.get(&data_id);
        match thumb {
            Some(v) => v.clone(),
            None => Vec::new(),
        }
    }
}

} // verus!
