//! The cache registry and the invalidation protocol.
//!
//! A fixed table of named caches, one pair per resource and query shape — one
//! cache of the pair for each content type — plus one cache mapping api keys
//! to owner ids. The registry is built once at startup and threaded through
//! request handling.
//!
//! The `after_*` methods are the contract that mutating operations follow:
//! after a write commits, the specific by-id and by-foreign-key entries whose
//! value changed are deleted for every content-type variant, every list-shaped
//! cache for the resource is cleared, and the same steps are propagated to
//! dependent resources' caches. Each method states exactly which caches it
//! empties or prunes and that it touches no other.

use vstd::prelude::*;

use crate::cache::{Cache, seq_has_key, seq_value_of, spec_delete, spec_insert, spec_promote};
use crate::params::ListParams;
use crate::problem::{unauthorized_no_api_key, Problem};
use crate::response::CachedResponse;

verus! {

/// The fixed, process-lifetime set of named caches.
pub struct Caches {
    pub owner_ids_by_api_key: Cache<u128, i32>,
    pub shop: Cache<i32, CachedResponse>,
    pub shop_bin: Cache<i32, CachedResponse>,
    pub owner: Cache<i32, CachedResponse>,
    pub owner_bin: Cache<i32, CachedResponse>,
    pub interior_ref_list: Cache<i32, CachedResponse>,
    pub interior_ref_list_bin: Cache<i32, CachedResponse>,
    pub merchandise_list: Cache<i32, CachedResponse>,
    pub merchandise_list_bin: Cache<i32, CachedResponse>,
    pub transaction: Cache<i32, CachedResponse>,
    pub transaction_bin: Cache<i32, CachedResponse>,
    pub list_shops: Cache<ListParams, CachedResponse>,
    pub list_shops_bin: Cache<ListParams, CachedResponse>,
    pub list_owners: Cache<ListParams, CachedResponse>,
    pub list_owners_bin: Cache<ListParams, CachedResponse>,
    pub list_interior_ref_lists: Cache<ListParams, CachedResponse>,
    pub list_interior_ref_lists_bin: Cache<ListParams, CachedResponse>,
    pub list_merchandise_lists: Cache<ListParams, CachedResponse>,
    pub list_merchandise_lists_bin: Cache<ListParams, CachedResponse>,
    pub list_transactions: Cache<ListParams, CachedResponse>,
    pub list_transactions_bin: Cache<ListParams, CachedResponse>,
    pub list_transactions_by_shop_id: Cache<(i32, ListParams), CachedResponse>,
    pub list_transactions_by_shop_id_bin: Cache<(i32, ListParams), CachedResponse>,
    pub interior_ref_list_by_shop_id: Cache<i32, CachedResponse>,
    pub interior_ref_list_by_shop_id_bin: Cache<i32, CachedResponse>,
    pub merchandise_list_by_shop_id: Cache<i32, CachedResponse>,
    pub merchandise_list_by_shop_id_bin: Cache<i32, CachedResponse>,
}

impl Caches {
    /// Every cache in the table is well formed.
    pub open spec fn wf(&self) -> bool {
        &&& self.owner_ids_by_api_key.wf()
        &&& self.shop.wf()
        &&& self.shop_bin.wf()
        &&& self.owner.wf()
        &&& self.owner_bin.wf()
        &&& self.interior_ref_list.wf()
        &&& self.interior_ref_list_bin.wf()
        &&& self.merchandise_list.wf()
        &&& self.merchandise_list_bin.wf()
        &&& self.transaction.wf()
        &&& self.transaction_bin.wf()
        &&& self.list_shops.wf()
        &&& self.list_shops_bin.wf()
        &&& self.list_owners.wf()
        &&& self.list_owners_bin.wf()
        &&& self.list_interior_ref_lists.wf()
        &&& self.list_interior_ref_lists_bin.wf()
        &&& self.list_merchandise_lists.wf()
        &&& self.list_merchandise_lists_bin.wf()
        &&& self.list_transactions.wf()
        &&& self.list_transactions_bin.wf()
        &&& self.list_transactions_by_shop_id.wf()
        &&& self.list_transactions_by_shop_id_bin.wf()
        &&& self.interior_ref_list_by_shop_id.wf()
        &&& self.interior_ref_list_by_shop_id_bin.wf()
        &&& self.merchandise_list_by_shop_id.wf()
        &&& self.merchandise_list_by_shop_id_bin.wf()
    }

    /// Every cache in the table is empty.
    pub open spec fn all_empty(&self) -> bool {
        &&& self.owner_ids_by_api_key@.len() == 0
        &&& self.shop@.len() == 0
        &&& self.shop_bin@.len() == 0
        &&& self.owner@.len() == 0
        &&& self.owner_bin@.len() == 0
        &&& self.interior_ref_list@.len() == 0
        &&& self.interior_ref_list_bin@.len() == 0
        &&& self.merchandise_list@.len() == 0
        &&& self.merchandise_list_bin@.len() == 0
        &&& self.transaction@.len() == 0
        &&& self.transaction_bin@.len() == 0
        &&& self.list_shops@.len() == 0
        &&& self.list_shops_bin@.len() == 0
        &&& self.list_owners@.len() == 0
        &&& self.list_owners_bin@.len() == 0
        &&& self.list_interior_ref_lists@.len() == 0
        &&& self.list_interior_ref_lists_bin@.len() == 0
        &&& self.list_merchandise_lists@.len() == 0
        &&& self.list_merchandise_lists_bin@.len() == 0
        &&& self.list_transactions@.len() == 0
        &&& self.list_transactions_bin@.len() == 0
        &&& self.list_transactions_by_shop_id@.len() == 0
        &&& self.list_transactions_by_shop_id_bin@.len() == 0
        &&& self.interior_ref_list_by_shop_id@.len() == 0
        &&& self.interior_ref_list_by_shop_id_bin@.len() == 0
        &&& self.merchandise_list_by_shop_id@.len() == 0
        &&& self.merchandise_list_by_shop_id_bin@.len() == 0
    }

    /// Build the registry: every cache empty with capacity 100, under its
    /// diagnostic name; only the api-key cache suppresses key echoing, since
    /// its keys are credentials.
    pub fn initialize() -> (c: Self)
        ensures
            c.wf(),
            c.all_empty(),
            c.owner_ids_by_api_key.spec_capacity() == 100,
            c.owner_ids_by_api_key.spec_log_keys() == false,
            c.owner_ids_by_api_key.spec_name() == "owner_ids_by_api_key"@,
            c.shop.spec_log_keys() == true,
            c.shop.spec_name() == "shop"@,
            c.shop_bin.spec_name() == "shop_bin"@,
            c.owner.spec_name() == "owner"@,
            c.owner_bin.spec_name() == "owner_bin"@,
            c.interior_ref_list.spec_name() == "interior_ref_list"@,
            c.interior_ref_list_bin.spec_name() == "interior_ref_list_bin"@,
            c.merchandise_list.spec_name() == "merchandise_list"@,
            c.merchandise_list_bin.spec_name() == "merchandise_list_bin"@,
            c.transaction.spec_name() == "transaction"@,
            c.transaction_bin.spec_name() == "transaction_bin"@,
            c.list_shops.spec_name() == "list_shops"@,
            c.list_shops_bin.spec_name() == "list_shops_bin"@,
            c.list_owners.spec_name() == "list_owners"@,
            c.list_owners_bin.spec_name() == "list_owners_bin"@,
            c.list_interior_ref_lists.spec_name() == "list_interior_ref_lists"@,
            c.list_interior_ref_lists_bin.spec_name() == "list_interior_ref_lists_bin"@,
            c.list_merchandise_lists.spec_name() == "list_merchandise_lists"@,
            c.list_merchandise_lists_bin.spec_name() == "list_merchandise_lists_bin"@,
            c.list_transactions.spec_name() == "list_transaction"@,
            c.list_transactions_bin.spec_name() == "list_transaction_bin"@,
            c.list_transactions_by_shop_id.spec_name() == "list_transaction_by_shop_id"@,
            c.list_transactions_by_shop_id_bin.spec_name() == "list_transaction_by_shop_id_bin"@,
            c.interior_ref_list_by_shop_id.spec_name() == "interior_ref_list_by_shop_id"@,
            c.interior_ref_list_by_shop_id_bin.spec_name() == "interior_ref_list_by_shop_id_bin"@,
            c.merchandise_list_by_shop_id.spec_name() == "merchandise_list_by_shop_id"@,
            c.merchandise_list_by_shop_id_bin.spec_name() == "merchandise_list_by_shop_id_bin"@,
            c.shop.spec_capacity() == 100,
            c.shop_bin.spec_capacity() == 100,
            c.owner.spec_capacity() == 100,
            c.owner_bin.spec_capacity() == 100,
            c.interior_ref_list.spec_capacity() == 100,
            c.interior_ref_list_bin.spec_capacity() == 100,
            c.merchandise_list.spec_capacity() == 100,
            c.merchandise_list_bin.spec_capacity() == 100,
            c.transaction.spec_capacity() == 100,
            c.transaction_bin.spec_capacity() == 100,
            c.list_shops.spec_capacity() == 100,
            c.list_shops_bin.spec_capacity() == 100,
            c.list_owners.spec_capacity() == 100,
            c.list_owners_bin.spec_capacity() == 100,
            c.list_interior_ref_lists.spec_capacity() == 100,
            c.list_interior_ref_lists_bin.spec_capacity() == 100,
            c.list_merchandise_lists.spec_capacity() == 100,
            c.list_merchandise_lists_bin.spec_capacity() == 100,
            c.list_transactions.spec_capacity() == 100,
            c.list_transactions_bin.spec_capacity() == 100,
            c.list_transactions_by_shop_id.spec_capacity() == 100,
            c.list_transactions_by_shop_id_bin.spec_capacity() == 100,
            c.interior_ref_list_by_shop_id.spec_capacity() == 100,
            c.interior_ref_list_by_shop_id_bin.spec_capacity() == 100,
            c.merchandise_list_by_shop_id.spec_capacity() == 100,
            c.merchandise_list_by_shop_id_bin.spec_capacity() == 100,
    {
        Caches {
            owner_ids_by_api_key: Cache::new("owner_ids_by_api_key", 100).log_keys(false),
            shop: Cache::new("shop", 100),
            shop_bin: Cache::new("shop_bin", 100),
            owner: Cache::new("owner", 100),
            owner_bin: Cache::new("owner_bin", 100),
            interior_ref_list: Cache::new("interior_ref_list", 100),
            interior_ref_list_bin: Cache::new("interior_ref_list_bin", 100),
            merchandise_list: Cache::new("merchandise_list", 100),
            merchandise_list_bin: Cache::new("merchandise_list_bin", 100),
            transaction: Cache::new("transaction", 100),
            transaction_bin: Cache::new("transaction_bin", 100),
            list_shops: Cache::new("list_shops", 100),
            list_shops_bin: Cache::new("list_shops_bin", 100),
            list_owners: Cache::new("list_owners", 100),
            list_owners_bin: Cache::new("list_owners_bin", 100),
            list_interior_ref_lists: Cache::new("list_interior_ref_lists", 100),
            list_interior_ref_lists_bin: Cache::new("list_interior_ref_lists_bin", 100),
            list_merchandise_lists: Cache::new("list_merchandise_lists", 100),
            list_merchandise_lists_bin: Cache::new("list_merchandise_lists_bin", 100),
            list_transactions: Cache::new("list_transaction", 100),
            list_transactions_bin: Cache::new("list_transaction_bin", 100),
            list_transactions_by_shop_id: Cache::new("list_transaction_by_shop_id", 100),
            list_transactions_by_shop_id_bin: Cache::new("list_transaction_by_shop_id_bin", 100),
            interior_ref_list_by_shop_id: Cache::new("interior_ref_list_by_shop_id", 100),
            interior_ref_list_by_shop_id_bin: Cache::new("interior_ref_list_by_shop_id_bin", 100),
            merchandise_list_by_shop_id: Cache::new("merchandise_list_by_shop_id", 100),
            merchandise_list_by_shop_id_bin: Cache::new("merchandise_list_by_shop_id_bin", 100),
        }
    }

    /// Authenticate a request: a missing key is refused outright; a present
    /// key is resolved to an owner id through the api-key cache, invoking
    /// `lookup_owner` only on a miss and remembering only successful lookups.
    pub fn authenticate<F: FnOnce() -> Result<i32, Problem>>(
        &mut self,
        api_key: Option<u128>,
        lookup_owner: F,
    ) -> (r: Result<i32, Problem>)
        requires
            old(self).wf(),
            call_requires(lookup_owner, ()),
        ensures
            final(self).wf(),
            (*final(self) == Caches {
                owner_ids_by_api_key: final(self).owner_ids_by_api_key,
                ..*old(self)
            }),
            final(self).owner_ids_by_api_key.config() == old(self).owner_ids_by_api_key.config(),
            api_key is None ==> (match r {
                Err(p) => p@.status == 401 && p@.detail == Some("Api-Key header not present"@),
                Ok(_) => false,
            }) && *final(self) == *old(self),
            api_key matches Some(k) ==> {
                &&& seq_has_key(old(self).owner_ids_by_api_key@, k) ==> r == Ok::<i32, Problem>(
                    seq_value_of(old(self).owner_ids_by_api_key@, k),
                ) && final(self).owner_ids_by_api_key@ == spec_promote(
                    old(self).owner_ids_by_api_key@,
                    k,
                )
                &&& !seq_has_key(old(self).owner_ids_by_api_key@, k) ==> call_ensures(
                    lookup_owner,
                    (),
                    r,
                ) && (match r {
                    Ok(v) => final(self).owner_ids_by_api_key@ == spec_insert(
                        old(self).owner_ids_by_api_key@,
                        k,
                        v,
                        old(self).owner_ids_by_api_key.spec_capacity() as nat,
                    ),
                    Err(_) => final(self).owner_ids_by_api_key@ == old(
                        self,
                    ).owner_ids_by_api_key@,
                })
            },
    {
        match api_key {
            Some(k) => match self.owner_ids_by_api_key.get(k, lookup_owner) {
                Ok(v) => Ok(*v),
                Err(e) => Err(e),
            },
            None => Err(unauthorized_no_api_key()),
        }
    }

    /// After an owner was created: the owner lists may now be stale.
    pub fn after_owner_create(&mut self)
        requires
            old(self).wf(),
        ensures
            final(self).wf(),
            (*final(self) == Caches {
                list_owners: final(self).list_owners,
                list_owners_bin: final(self).list_owners_bin,
                ..*old(self)
            }),
            final(self).list_owners@.len() == 0,
            final(self).list_owners_bin@.len() == 0,
            final(self).list_owners.config() == old(self).list_owners.config(),
            final(self).list_owners_bin.config() == old(self).list_owners_bin.config(),
    {
        self.list_owners.clear();
        self.list_owners_bin.clear();
    }

    /// After an owner was updated: drop its entry in both content-type
    /// variants and clear the owner lists.
    pub fn after_owner_update(&mut self, id: i32)
        requires
            old(self).wf(),
        ensures
            final(self).wf(),
            (*final(self) == Caches {
                owner: final(self).owner,
                owner_bin: final(self).owner_bin,
                list_owners: final(self).list_owners,
                list_owners_bin: final(self).list_owners_bin,
                ..*old(self)
            }),
            final(self).owner@ == spec_delete(old(self).owner@, id),
            final(self).owner_bin@ == spec_delete(old(self).owner_bin@, id),
            final(self).list_owners@.len() == 0,
            final(self).list_owners_bin@.len() == 0,
            final(self).owner.config() == old(self).owner.config(),
            final(self).owner_bin.config() == old(self).owner_bin.config(),
            final(self).list_owners.config() == old(self).list_owners.config(),
            final(self).list_owners_bin.config() == old(self).list_owners_bin.config(),
    {
        self.owner.delete_response(&id);
        self.owner_bin.delete_response(&id);
        self.list_owners.clear();
        self.list_owners_bin.clear();
    }

    /// After an owner was deleted: as for an update, and the owner's api key
    /// no longer authenticates.
    pub fn after_owner_delete(&mut self, id: i32, api_key: u128)
        requires
            old(self).wf(),
        ensures
            final(self).wf(),
            (*final(self) == Caches {
                owner: final(self).owner,
                owner_bin: final(self).owner_bin,
                owner_ids_by_api_key: final(self).owner_ids_by_api_key,
                list_owners: final(self).list_owners,
                list_owners_bin: final(self).list_owners_bin,
                ..*old(self)
            }),
            final(self).owner@ == spec_delete(old(self).owner@, id),
            final(self).owner_bin@ == spec_delete(old(self).owner_bin@, id),
            final(self).owner_ids_by_api_key@ == spec_delete(
                old(self).owner_ids_by_api_key@,
                api_key,
            ),
            final(self).list_owners@.len() == 0,
            final(self).list_owners_bin@.len() == 0,
            final(self).owner.config() == old(self).owner.config(),
            final(self).owner_bin.config() == old(self).owner_bin.config(),
            final(self).owner_ids_by_api_key.config() == old(self).owner_ids_by_api_key.config(),
            final(self).list_owners.config() == old(self).list_owners.config(),
            final(self).list_owners_bin.config() == old(self).list_owners_bin.config(),
    {
        self.owner.delete_response(&id);
        self.owner_bin.delete_response(&id);
        self.owner_ids_by_api_key.delete(&api_key);
        self.list_owners.clear();
        self.list_owners_bin.clear();
    }

    /// After a shop was created: the shop lists may now be stale.
    pub fn after_shop_create(&mut self)
        requires
            old(self).wf(),
        ensures
            final(self).wf(),
            (*final(self) == Caches {
                list_shops: final(self).list_shops,
                list_shops_bin: final(self).list_shops_bin,
                ..*old(self)
            }),
            final(self).list_shops@.len() == 0,
            final(self).list_shops_bin@.len() == 0,
            final(self).list_shops.config() == old(self).list_shops.config(),
            final(self).list_shops_bin.config() == old(self).list_shops_bin.config(),
    {
        self.list_shops.clear();
        self.list_shops_bin.clear();
    }

    /// After a shop was updated: drop its entry in both content-type variants
    /// and clear the shop lists.
    pub fn after_shop_update(&mut self, id: i32)
        requires
            old(self).wf(),
        ensures
            final(self).wf(),
            (*final(self) == Caches {
                shop: final(self).shop,
                shop_bin: final(self).shop_bin,
                list_shops: final(self).list_shops,
                list_shops_bin: final(self).list_shops_bin,
                ..*old(self)
            }),
            final(self).shop@ == spec_delete(old(self).shop@, id),
            final(self).shop_bin@ == spec_delete(old(self).shop_bin@, id),
            final(self).list_shops@.len() == 0,
            final(self).list_shops_bin@.len() == 0,
            final(self).shop.config() == old(self).shop.config(),
            final(self).shop_bin.config() == old(self).shop_bin.config(),
            final(self).list_shops.config() == old(self).list_shops.config(),
            final(self).list_shops_bin.config() == old(self).list_shops_bin.config(),
    {
        self.shop.delete_response(&id);
        self.shop_bin.delete_response(&id);
        self.list_shops.clear();
        self.list_shops_bin.clear();
    }

    /// After a shop was deleted: as for an update, and the dependent
    /// by-shop-id caches of its interior ref list and merchandise list no
    /// longer describe anything.
    pub fn after_shop_delete(&mut self, id: i32)
        requires
            old(self).wf(),
        ensures
            final(self).wf(),
            (*final(self) == Caches {
                shop: final(self).shop,
                shop_bin: final(self).shop_bin,
                list_shops: final(self).list_shops,
                list_shops_bin: final(self).list_shops_bin,
                interior_ref_list_by_shop_id: final(self).interior_ref_list_by_shop_id,
                interior_ref_list_by_shop_id_bin: final(self).interior_ref_list_by_shop_id_bin,
                merchandise_list_by_shop_id: final(self).merchandise_list_by_shop_id,
                merchandise_list_by_shop_id_bin: final(self).merchandise_list_by_shop_id_bin,
                ..*old(self)
            }),
            final(self).shop@ == spec_delete(old(self).shop@, id),
            final(self).shop_bin@ == spec_delete(old(self).shop_bin@, id),
            final(self).list_shops@.len() == 0,
            final(self).list_shops_bin@.len() == 0,
            final(self).interior_ref_list_by_shop_id@ == spec_delete(
                old(self).interior_ref_list_by_shop_id@,
                id,
            ),
            final(self).interior_ref_list_by_shop_id_bin@ == spec_delete(
                old(self).interior_ref_list_by_shop_id_bin@,
                id,
            ),
            final(self).merchandise_list_by_shop_id@ == spec_delete(
                old(self).merchandise_list_by_shop_id@,
                id,
            ),
            final(self).merchandise_list_by_shop_id_bin@ == spec_delete(
                old(self).merchandise_list_by_shop_id_bin@,
                id,
            ),
    {
        self.shop.delete_response(&id);
        self.shop_bin.delete_response(&id);
        self.list_shops.clear();
        self.list_shops_bin.clear();
        self.interior_ref_list_by_shop_id.delete_response(&id);
        self.interior_ref_list_by_shop_id_bin.delete_response(&id);
        self.merchandise_list_by_shop_id.delete_response(&id);
        self.merchandise_list_by_shop_id_bin.delete_response(&id);
    }

    /// After an interior ref list was created for a shop: the lists may be
    /// stale, and the by-shop-id entry of that shop changed.
    pub fn after_interior_ref_list_create(&mut self, shop_id: i32)
        requires
            old(self).wf(),
        ensures
            final(self).wf(),
            (*final(self) == Caches {
                list_interior_ref_lists: final(self).list_interior_ref_lists,
                list_interior_ref_lists_bin: final(self).list_interior_ref_lists_bin,
                interior_ref_list_by_shop_id: final(self).interior_ref_list_by_shop_id,
                interior_ref_list_by_shop_id_bin: final(self).interior_ref_list_by_shop_id_bin,
                ..*old(self)
            }),
            final(self).list_interior_ref_lists@.len() == 0,
            final(self).list_interior_ref_lists_bin@.len() == 0,
            final(self).interior_ref_list_by_shop_id@ == spec_delete(
                old(self).interior_ref_list_by_shop_id@,
                shop_id,
            ),
            final(self).interior_ref_list_by_shop_id_bin@ == spec_delete(
                old(self).interior_ref_list_by_shop_id_bin@,
                shop_id,
            ),
    {
        self.list_interior_ref_lists.clear();
        self.list_interior_ref_lists_bin.clear();
        self.interior_ref_list_by_shop_id.delete_response(&shop_id);
        self.interior_ref_list_by_shop_id_bin.delete_response(&shop_id);
    }

    /// After an interior ref list was updated or deleted: drop its by-id and
    /// by-shop-id entries in both content-type variants and clear the lists.
    pub fn after_interior_ref_list_update(&mut self, id: i32, shop_id: i32)
        requires
            old(self).wf(),
        ensures
            final(self).wf(),
            (*final(self) == Caches {
                interior_ref_list: final(self).interior_ref_list,
                interior_ref_list_bin: final(self).interior_ref_list_bin,
                interior_ref_list_by_shop_id: final(self).interior_ref_list_by_shop_id,
                interior_ref_list_by_shop_id_bin: final(self).interior_ref_list_by_shop_id_bin,
                list_interior_ref_lists: final(self).list_interior_ref_lists,
                list_interior_ref_lists_bin: final(self).list_interior_ref_lists_bin,
                ..*old(self)
            }),
            final(self).interior_ref_list@ == spec_delete(old(self).interior_ref_list@, id),
            final(self).interior_ref_list_bin@ == spec_delete(
                old(self).interior_ref_list_bin@,
                id,
            ),
            final(self).interior_ref_list_by_shop_id@ == spec_delete(
                old(self).interior_ref_list_by_shop_id@,
                shop_id,
            ),
            final(self).interior_ref_list_by_shop_id_bin@ == spec_delete(
                old(self).interior_ref_list_by_shop_id_bin@,
                shop_id,
            ),
            final(self).list_interior_ref_lists@.len() == 0,
            final(self).list_interior_ref_lists_bin@.len() == 0,
    {
        self.interior_ref_list.delete_response(&id);
        self.interior_ref_list_bin.delete_response(&id);
        self.interior_ref_list_by_shop_id.delete_response(&shop_id);
        self.interior_ref_list_by_shop_id_bin.delete_response(&shop_id);
        self.list_interior_ref_lists.clear();
        self.list_interior_ref_lists_bin.clear();
    }

    /// After a merchandise list was created for a shop: the lists may be
    /// stale, and the by-shop-id entry of that shop changed.
    pub fn after_merchandise_list_create(&mut self, shop_id: i32)
        requires
            old(self).wf(),
        ensures
            final(self).wf(),
            (*final(self) == Caches {
                list_merchandise_lists: final(self).list_merchandise_lists,
                list_merchandise_lists_bin: final(self).list_merchandise_lists_bin,
                merchandise_list_by_shop_id: final(self).merchandise_list_by_shop_id,
                merchandise_list_by_shop_id_bin: final(self).merchandise_list_by_shop_id_bin,
                ..*old(self)
            }),
            final(self).list_merchandise_lists@.len() == 0,
            final(self).list_merchandise_lists_bin@.len() == 0,
            final(self).merchandise_list_by_shop_id@ == spec_delete(
                old(self).merchandise_list_by_shop_id@,
                shop_id,
            ),
            final(self).merchandise_list_by_shop_id_bin@ == spec_delete(
                old(self).merchandise_list_by_shop_id_bin@,
                shop_id,
            ),
    {
        self.list_merchandise_lists.clear();
        self.list_merchandise_lists_bin.clear();
        self.merchandise_list_by_shop_id.delete_response(&shop_id);
        self.merchandise_list_by_shop_id_bin.delete_response(&shop_id);
    }

    /// After a merchandise list was updated or deleted: drop its by-id and
    /// by-shop-id entries in both content-type variants and clear the lists.
    pub fn after_merchandise_list_update(&mut self, id: i32, shop_id: i32)
        requires
            old(self).wf(),
        ensures
            final(self).wf(),
            (*final(self) == Caches {
                merchandise_list: final(self).merchandise_list,
                merchandise_list_bin: final(self).merchandise_list_bin,
                merchandise_list_by_shop_id: final(self).merchandise_list_by_shop_id,
                merchandise_list_by_shop_id_bin: final(self).merchandise_list_by_shop_id_bin,
                list_merchandise_lists: final(self).list_merchandise_lists,
                list_merchandise_lists_bin: final(self).list_merchandise_lists_bin,
                ..*old(self)
            }),
            final(self).merchandise_list@ == spec_delete(old(self).merchandise_list@, id),
            final(self).merchandise_list_bin@ == spec_delete(old(self).merchandise_list_bin@, id),
            final(self).merchandise_list_by_shop_id@ == spec_delete(
                old(self).merchandise_list_by_shop_id@,
                shop_id,
            ),
            final(self).merchandise_list_by_shop_id_bin@ == spec_delete(
                old(self).merchandise_list_by_shop_id_bin@,
                shop_id,
            ),
            final(self).list_merchandise_lists@.len() == 0,
            final(self).list_merchandise_lists_bin@.len() == 0,
    {
        self.merchandise_list.delete_response(&id);
        self.merchandise_list_bin.delete_response(&id);
        self.merchandise_list_by_shop_id.delete_response(&shop_id);
        self.merchandise_list_by_shop_id_bin.delete_response(&shop_id);
        self.list_merchandise_lists.clear();
        self.list_merchandise_lists_bin.clear();
    }

    /// After a transaction was created: the purchase changed the shop's
    /// merchandise list, so that dependent resource's entries are dropped in
    /// both content-type variants, and every transaction- and
    /// merchandise-list-shaped cache is cleared.
    pub fn after_transaction_create(&mut self, merchandise_list_id: i32, shop_id: i32)
        requires
            old(self).wf(),
        ensures
            final(self).wf(),
            (*final(self) == Caches {
                merchandise_list: final(self).merchandise_list,
                merchandise_list_bin: final(self).merchandise_list_bin,
                merchandise_list_by_shop_id: final(self).merchandise_list_by_shop_id,
                merchandise_list_by_shop_id_bin: final(self).merchandise_list_by_shop_id_bin,
                list_transactions: final(self).list_transactions,
                list_transactions_bin: final(self).list_transactions_bin,
                list_transactions_by_shop_id: final(self).list_transactions_by_shop_id,
                list_transactions_by_shop_id_bin: final(self).list_transactions_by_shop_id_bin,
                list_merchandise_lists: final(self).list_merchandise_lists,
                list_merchandise_lists_bin: final(self).list_merchandise_lists_bin,
                ..*old(self)
            }),
            final(self).merchandise_list@ == spec_delete(
                old(self).merchandise_list@,
                merchandise_list_id,
            ),
            final(self).merchandise_list_bin@ == spec_delete(
                old(self).merchandise_list_bin@,
                merchandise_list_id,
            ),
            final(self).merchandise_list_by_shop_id@ == spec_delete(
                old(self).merchandise_list_by_shop_id@,
                shop_id,
            ),
            final(self).merchandise_list_by_shop_id_bin@ == spec_delete(
                old(self).merchandise_list_by_shop_id_bin@,
                shop_id,
            ),
            final(self).list_transactions@.len() == 0,
            final(self).list_transactions_bin@.len() == 0,
            final(self).list_transactions_by_shop_id@.len() == 0,
            final(self).list_transactions_by_shop_id_bin@.len() == 0,
            final(self).list_merchandise_lists@.len() == 0,
            final(self).list_merchandise_lists_bin@.len() == 0,
    {
        self.merchandise_list.delete_response(&merchandise_list_id);
        self.merchandise_list_bin.delete_response(&merchandise_list_id);
        self.merchandise_list_by_shop_id.delete_response(&shop_id);
        self.merchandise_list_by_shop_id_bin.delete_response(&shop_id);
        self.list_transactions.clear();
        self.list_transactions_bin.clear();
        self.list_transactions_by_shop_id.clear();
        self.list_transactions_by_shop_id_bin.clear();
        self.list_merchandise_lists.clear();
        self.list_merchandise_lists_bin.clear();
    }

    /// After a transaction was deleted: drop its by-id entries in both
    /// content-type variants and clear the transaction lists.
    pub fn after_transaction_delete(&mut self, id: i32)
        requires
            old(self).wf(),
        ensures
            final(self).wf(),
            (*final(self) == Caches {
                transaction: final(self).transaction,
                transaction_bin: final(self).transaction_bin,
                list_transactions: final(self).list_transactions,
                list_transactions_bin: final(self).list_transactions_bin,
                list_transactions_by_shop_id: final(self).list_transactions_by_shop_id,
                list_transactions_by_shop_id_bin: final(self).list_transactions_by_shop_id_bin,
                ..*old(self)
            }),
            final(self).transaction@ == spec_delete(old(self).transaction@, id),
            final(self).transaction_bin@ == spec_delete(old(self).transaction_bin@, id),
            final(self).list_transactions@.len() == 0,
            final(self).list_transactions_bin@.len() == 0,
            final(self).list_transactions_by_shop_id@.len() == 0,
            final(self).list_transactions_by_shop_id_bin@.len() == 0,
    {
        self.transaction.delete_response(&id);
        self.transaction_bin.delete_response(&id);
        self.list_transactions.clear();
        self.list_transactions_bin.clear();
        self.list_transactions_by_shop_id.clear();
        self.list_transactions_by_shop_id_bin.clear();
    }
}

} // verus!
