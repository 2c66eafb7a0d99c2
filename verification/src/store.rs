use vstd::prelude::*;
use crate::error::{create_error, is_create_error, is_retrieve_error, retrieve_error, Error};
use crate::keyed::{
    lemma_pairs_vmap_domain, lemma_pairs_vmap_index, lemma_pairs_vmap_push,
    lemma_pairs_vmap_remove, lemma_pairs_vmap_update, pairs_has, pairs_unique, pairs_vmap,
};
use crate::models::{
    CreateDevTapplet, CreateInstalledTapplet, CreateTapplet, CreateTappletAsset,
    CreateTappletAudit, CreateTappletVersion, DevTapplet, DevTappletV, InstalledTapplet,
    InstalledTappletV, Tapplet, TappletAsset, TappletAssetV, TappletAudit, TappletAuditV,
    TappletV, TappletVersion, TappletVersionV, UpdateDevTapplet, UpdateInstalledTapplet,
    UpdateTapplet, UpdateTappletAsset, UpdateTappletAudit, UpdateTappletVersion,
    dev_tapplet_created, dev_tapplet_updated, installed_tapplet_created,
    installed_tapplet_updated, tapplet_asset_created, tapplet_asset_updated,
    tapplet_audit_created, tapplet_audit_updated, tapplet_created, tapplet_updated,
    tapplet_version_created, tapplet_version_updated,
};

verus! {

/// The catalog of tapplets and their metadata, keyed by stable integer
/// ids that the store itself assigns, starting at 1.
pub struct CatalogStore {
    dev_tapplets: Vec<(i32, DevTapplet)>,
    dev_tapplet_next_id: i32,
    tapplets: Vec<(i32, Tapplet)>,
    tapplet_next_id: i32,
    installed_tapplets: Vec<(i32, InstalledTapplet)>,
    installed_tapplet_next_id: i32,
    tapplet_versions: Vec<(i32, TappletVersion)>,
    tapplet_version_next_id: i32,
    tapplet_audits: Vec<(i32, TappletAudit)>,
    tapplet_audit_next_id: i32,
    tapplet_assets: Vec<(i32, TappletAsset)>,
    tapplet_asset_next_id: i32,
}

/// Every key is the record's own id, ids are unique, and all ids lie
/// below the table's next fresh id.
pub open spec fn table_wf<V>(s: Seq<(i32, V)>, ids: spec_fn(V) -> int, next_id: i32) -> bool {
    &&& pairs_unique(s)
    &&& next_id >= 1
    &&& forall|k: int|
        0 <= k < s.len() ==> {
            &&& (#[trigger] s[k]).0 == ids(s[k].1)
            &&& 1 <= s[k].0 < next_id
        }
}

/// All catalog state outside the dev tapplet table is the same in `a` and `b`.
pub open spec fn eq_outside_dev_tapplets(a: CatalogStore, b: CatalogStore) -> bool {
    &&& a.tapplets_map() == b.tapplets_map()
    &&& a.tapplets_list() == b.tapplets_list()
    &&& a.tapplet_next() == b.tapplet_next()
    &&& a.installed_tapplets_map() == b.installed_tapplets_map()
    &&& a.installed_tapplets_list() == b.installed_tapplets_list()
    &&& a.installed_tapplet_next() == b.installed_tapplet_next()
    &&& a.tapplet_versions_map() == b.tapplet_versions_map()
    &&& a.tapplet_versions_list() == b.tapplet_versions_list()
    &&& a.tapplet_version_next() == b.tapplet_version_next()
    &&& a.tapplet_audits_map() == b.tapplet_audits_map()
    &&& a.tapplet_audits_list() == b.tapplet_audits_list()
    &&& a.tapplet_audit_next() == b.tapplet_audit_next()
    &&& a.tapplet_assets_map() == b.tapplet_assets_map()
    &&& a.tapplet_assets_list() == b.tapplet_assets_list()
    &&& a.tapplet_asset_next() == b.tapplet_asset_next()
}

/// All catalog state outside the tapplet table is the same in `a` and `b`.
pub open spec fn eq_outside_tapplets(a: CatalogStore, b: CatalogStore) -> bool {
    &&& a.dev_tapplets_map() == b.dev_tapplets_map()
    &&& a.dev_tapplets_list() == b.dev_tapplets_list()
    &&& a.dev_tapplet_next() == b.dev_tapplet_next()
    &&& a.installed_tapplets_map() == b.installed_tapplets_map()
    &&& a.installed_tapplets_list() == b.installed_tapplets_list()
    &&& a.installed_tapplet_next() == b.installed_tapplet_next()
    &&& a.tapplet_versions_map() == b.tapplet_versions_map()
    &&& a.tapplet_versions_list() == b.tapplet_versions_list()
    &&& a.tapplet_version_next() == b.tapplet_version_next()
    &&& a.tapplet_audits_map() == b.tapplet_audits_map()
    &&& a.tapplet_audits_list() == b.tapplet_audits_list()
    &&& a.tapplet_audit_next() == b.tapplet_audit_next()
    &&& a.tapplet_assets_map() == b.tapplet_assets_map()
    &&& a.tapplet_assets_list() == b.tapplet_assets_list()
    &&& a.tapplet_asset_next() == b.tapplet_asset_next()
}

/// All catalog state outside the installed tapplet table is the same in `a` and `b`.
pub open spec fn eq_outside_installed_tapplets(a: CatalogStore, b: CatalogStore) -> bool {
    &&& a.dev_tapplets_map() == b.dev_tapplets_map()
    &&& a.dev_tapplets_list() == b.dev_tapplets_list()
    &&& a.dev_tapplet_next() == b.dev_tapplet_next()
    &&& a.tapplets_map() == b.tapplets_map()
    &&& a.tapplets_list() == b.tapplets_list()
    &&& a.tapplet_next() == b.tapplet_next()
    &&& a.tapplet_versions_map() == b.tapplet_versions_map()
    &&& a.tapplet_versions_list() == b.tapplet_versions_list()
    &&& a.tapplet_version_next() == b.tapplet_version_next()
    &&& a.tapplet_audits_map() == b.tapplet_audits_map()
    &&& a.tapplet_audits_list() == b.tapplet_audits_list()
    &&& a.tapplet_audit_next() == b.tapplet_audit_next()
    &&& a.tapplet_assets_map() == b.tapplet_assets_map()
    &&& a.tapplet_assets_list() == b.tapplet_assets_list()
    &&& a.tapplet_asset_next() == b.tapplet_asset_next()
}

/// All catalog state outside the tapplet version table is the same in `a` and `b`.
pub open spec fn eq_outside_tapplet_versions(a: CatalogStore, b: CatalogStore) -> bool {
    &&& a.dev_tapplets_map() == b.dev_tapplets_map()
    &&& a.dev_tapplets_list() == b.dev_tapplets_list()
    &&& a.dev_tapplet_next() == b.dev_tapplet_next()
    &&& a.tapplets_map() == b.tapplets_map()
    &&& a.tapplets_list() == b.tapplets_list()
    &&& a.tapplet_next() == b.tapplet_next()
    &&& a.installed_tapplets_map() == b.installed_tapplets_map()
    &&& a.installed_tapplets_list() == b.installed_tapplets_list()
    &&& a.installed_tapplet_next() == b.installed_tapplet_next()
    &&& a.tapplet_audits_map() == b.tapplet_audits_map()
    &&& a.tapplet_audits_list() == b.tapplet_audits_list()
    &&& a.tapplet_audit_next() == b.tapplet_audit_next()
    &&& a.tapplet_assets_map() == b.tapplet_assets_map()
    &&& a.tapplet_assets_list() == b.tapplet_assets_list()
    &&& a.tapplet_asset_next() == b.tapplet_asset_next()
}

/// All catalog state outside the tapplet audit table is the same in `a` and `b`.
pub open spec fn eq_outside_tapplet_audits(a: CatalogStore, b: CatalogStore) -> bool {
    &&& a.dev_tapplets_map() == b.dev_tapplets_map()
    &&& a.dev_tapplets_list() == b.dev_tapplets_list()
    &&& a.dev_tapplet_next() == b.dev_tapplet_next()
    &&& a.tapplets_map() == b.tapplets_map()
    &&& a.tapplets_list() == b.tapplets_list()
    &&& a.tapplet_next() == b.tapplet_next()
    &&& a.installed_tapplets_map() == b.installed_tapplets_map()
    &&& a.installed_tapplets_list() == b.installed_tapplets_list()
    &&& a.installed_tapplet_next() == b.installed_tapplet_next()
    &&& a.tapplet_versions_map() == b.tapplet_versions_map()
    &&& a.tapplet_versions_list() == b.tapplet_versions_list()
    &&& a.tapplet_version_next() == b.tapplet_version_next()
    &&& a.tapplet_assets_map() == b.tapplet_assets_map()
    &&& a.tapplet_assets_list() == b.tapplet_assets_list()
    &&& a.tapplet_asset_next() == b.tapplet_asset_next()
}

/// All catalog state outside the tapplet asset table is the same in `a` and `b`.
pub open spec fn eq_outside_tapplet_assets(a: CatalogStore, b: CatalogStore) -> bool {
    &&& a.dev_tapplets_map() == b.dev_tapplets_map()
    &&& a.dev_tapplets_list() == b.dev_tapplets_list()
    &&& a.dev_tapplet_next() == b.dev_tapplet_next()
    &&& a.tapplets_map() == b.tapplets_map()
    &&& a.tapplets_list() == b.tapplets_list()
    &&& a.tapplet_next() == b.tapplet_next()
    &&& a.installed_tapplets_map() == b.installed_tapplets_map()
    &&& a.installed_tapplets_list() == b.installed_tapplets_list()
    &&& a.installed_tapplet_next() == b.installed_tapplet_next()
    &&& a.tapplet_versions_map() == b.tapplet_versions_map()
    &&& a.tapplet_versions_list() == b.tapplet_versions_list()
    &&& a.tapplet_version_next() == b.tapplet_version_next()
    &&& a.tapplet_audits_map() == b.tapplet_audits_map()
    &&& a.tapplet_audits_list() == b.tapplet_audits_list()
    &&& a.tapplet_audit_next() == b.tapplet_audit_next()
}

impl CatalogStore {
    pub closed spec fn dev_tapplets_map(&self) -> Map<i32, DevTappletV> {
        pairs_vmap(self.dev_tapplets@)
    }

    pub closed spec fn dev_tapplets_list(&self) -> Seq<DevTappletV> {
        self.dev_tapplets@.map_values(|p: (i32, DevTapplet)| p.1@)
    }

    pub closed spec fn dev_tapplet_next(&self) -> i32 {
        self.dev_tapplet_next_id
    }

    pub closed spec fn tapplets_map(&self) -> Map<i32, TappletV> {
        pairs_vmap(self.tapplets@)
    }

    pub closed spec fn tapplets_list(&self) -> Seq<TappletV> {
        self.tapplets@.map_values(|p: (i32, Tapplet)| p.1@)
    }

    pub closed spec fn tapplet_next(&self) -> i32 {
        self.tapplet_next_id
    }

    pub closed spec fn installed_tapplets_map(&self) -> Map<i32, InstalledTappletV> {
        pairs_vmap(self.installed_tapplets@)
    }

    pub closed spec fn installed_tapplets_list(&self) -> Seq<InstalledTappletV> {
        self.installed_tapplets@.map_values(|p: (i32, InstalledTapplet)| p.1@)
    }

    pub closed spec fn installed_tapplet_next(&self) -> i32 {
        self.installed_tapplet_next_id
    }

    pub closed spec fn tapplet_versions_map(&self) -> Map<i32, TappletVersionV> {
        pairs_vmap(self.tapplet_versions@)
    }

    pub closed spec fn tapplet_versions_list(&self) -> Seq<TappletVersionV> {
        self.tapplet_versions@.map_values(|p: (i32, TappletVersion)| p.1@)
    }

    pub closed spec fn tapplet_version_next(&self) -> i32 {
        self.tapplet_version_next_id
    }

    pub closed spec fn tapplet_audits_map(&self) -> Map<i32, TappletAuditV> {
        pairs_vmap(self.tapplet_audits@)
    }

    pub closed spec fn tapplet_audits_list(&self) -> Seq<TappletAuditV> {
        self.tapplet_audits@.map_values(|p: (i32, TappletAudit)| p.1@)
    }

    pub closed spec fn tapplet_audit_next(&self) -> i32 {
        self.tapplet_audit_next_id
    }

    pub closed spec fn tapplet_assets_map(&self) -> Map<i32, TappletAssetV> {
        pairs_vmap(self.tapplet_assets@)
    }

    pub closed spec fn tapplet_assets_list(&self) -> Seq<TappletAssetV> {
        self.tapplet_assets@.map_values(|p: (i32, TappletAsset)| p.1@)
    }

    pub closed spec fn tapplet_asset_next(&self) -> i32 {
        self.tapplet_asset_next_id
    }

    pub closed spec fn wf(&self) -> bool {
        &&& table_wf(self.dev_tapplets@, |t: DevTapplet| t.id as int, self.dev_tapplet_next_id)
        &&& table_wf(self.tapplets@, |t: Tapplet| t.id as int, self.tapplet_next_id)
        &&& table_wf(self.installed_tapplets@, |t: InstalledTapplet| t.id as int, self.installed_tapplet_next_id)
        &&& table_wf(self.tapplet_versions@, |t: TappletVersion| t.id as int, self.tapplet_version_next_id)
        &&& table_wf(self.tapplet_audits@, |t: TappletAudit| t.id as int, self.tapplet_audit_next_id)
        &&& table_wf(self.tapplet_assets@, |t: TappletAsset| t.id as int, self.tapplet_asset_next_id)
    }

    /// An empty catalog.
    pub fn new() -> (r: Self)
        ensures
            r.wf(),
            r.dev_tapplets_map() == Map::<i32, DevTappletV>::empty(),
            r.dev_tapplets_list() == Seq::<DevTappletV>::empty(),
            r.dev_tapplet_next() == 1,
            r.tapplets_map() == Map::<i32, TappletV>::empty(),
            r.tapplets_list() == Seq::<TappletV>::empty(),
            r.tapplet_next() == 1,
            r.installed_tapplets_map() == Map::<i32, InstalledTappletV>::empty(),
            r.installed_tapplets_list() == Seq::<InstalledTappletV>::empty(),
            r.installed_tapplet_next() == 1,
            r.tapplet_versions_map() == Map::<i32, TappletVersionV>::empty(),
            r.tapplet_versions_list() == Seq::<TappletVersionV>::empty(),
            r.tapplet_version_next() == 1,
            r.tapplet_audits_map() == Map::<i32, TappletAuditV>::empty(),
            r.tapplet_audits_list() == Seq::<TappletAuditV>::empty(),
            r.tapplet_audit_next() == 1,
            r.tapplet_assets_map() == Map::<i32, TappletAssetV>::empty(),
            r.tapplet_assets_list() == Seq::<TappletAssetV>::empty(),
            r.tapplet_asset_next() == 1,
    {
        let r = CatalogStore {
            dev_tapplets: Vec::new(),
            dev_tapplet_next_id: 1,
            tapplets: Vec::new(),
            tapplet_next_id: 1,
            installed_tapplets: Vec::new(),
            installed_tapplet_next_id: 1,
            tapplet_versions: Vec::new(),
            tapplet_version_next_id: 1,
            tapplet_audits: Vec::new(),
            tapplet_audit_next_id: 1,
            tapplet_assets: Vec::new(),
            tapplet_asset_next_id: 1,
        };
        proof {
            assert(r.dev_tapplets_list() =~= Seq::<DevTappletV>::empty());
            assert(r.tapplets_list() =~= Seq::<TappletV>::empty());
            assert(r.installed_tapplets_list() =~= Seq::<InstalledTappletV>::empty());
            assert(r.tapplet_versions_list() =~= Seq::<TappletVersionV>::empty());
            assert(r.tapplet_audits_list() =~= Seq::<TappletAuditV>::empty());
            assert(r.tapplet_assets_list() =~= Seq::<TappletAssetV>::empty());
        }
        r
    }

    fn find_dev_tapplet(&self, id: i32) -> (r: Option<usize>)
        ensures
            match r {
                Some(i) => i < self.dev_tapplets@.len() && self.dev_tapplets@[i as int].0 == id,
                None => !pairs_has(self.dev_tapplets@, id),
            },
    {
        let n = self.dev_tapplets.len();
        let mut i: usize = 0;
        while i < n
            invariant
                0 <= i <= n,
                n == self.dev_tapplets@.len(),
                forall|k: int| 0 <= k < i ==> (#[trigger] self.dev_tapplets@[k]).0 != id,
            decreases n - i,
        {
            if self.dev_tapplets[i].0 == id {
                return Some(i);
            }
            i = i + 1;
        }
        None
    }

    /// Every dev tapplet, in insertion order.
    pub fn get_all_dev_tapplets(&self) -> (r: Result<Vec<DevTapplet>, Error>)
        requires
            self.wf(),
        ensures
            r matches Ok(v) && v@.map_values(|t: DevTapplet| t@) == self.dev_tapplets_list(),
    {
        let n = self.dev_tapplets.len();
        let mut out: Vec<DevTapplet> = Vec::new();
        let mut i: usize = 0;
        while i < n
            invariant
                0 <= i <= n,
                n == self.dev_tapplets@.len(),
                out@.len() == i,
                forall|k: int| 0 <= k < i ==> (#[trigger] out@[k])@ == self.dev_tapplets@[k].1@,
            decreases n - i,
        {
            out.push(self.dev_tapplets[i].1.clone());
            i = i + 1;
        }
        proof {
            assert(out@.map_values(|t: DevTapplet| t@) =~= self.dev_tapplets_list());
        }
        Ok(out)
    }

    /// The dev tapplet stored under `dev_tapplet_id`, or
    /// `FailedToRetrieveData` when no record carries that id.
    pub fn get_dev_tapplet_by_id(&self, dev_tapplet_id: i32) -> (r: Result<DevTapplet, Error>)
        requires
            self.wf(),
        ensures
            self.dev_tapplets_map().contains_key(dev_tapplet_id) ==> (r matches Ok(t) && t@
                == self.dev_tapplets_map()[dev_tapplet_id]),
            !self.dev_tapplets_map().contains_key(dev_tapplet_id) ==> (r matches Err(e)
                && is_retrieve_error(e, "Dev Tapplet"@)),
    {
        proof {
            lemma_pairs_vmap_domain(self.dev_tapplets@, dev_tapplet_id);
        }
        match self.find_dev_tapplet(dev_tapplet_id) {
            Some(i) => {
                proof {
                    lemma_pairs_vmap_index(self.dev_tapplets@, i as int);
                }
                Ok(self.dev_tapplets[i].1.clone())
            },
            None => Err(retrieve_error("Dev Tapplet")),
        }
    }

    /// Stores `item` under a fresh id and returns the stored record. The
    /// creation fails only when the table has exhausted its ids.
    pub fn create_dev_tapplet(&mut self, item: &CreateDevTapplet) -> (r: Result<DevTapplet, Error>)
        requires
            old(self).wf(),
        ensures
            final(self).wf(),
            eq_outside_dev_tapplets(*old(self), *final(self)),
            old(self).dev_tapplet_next() < i32::MAX ==> {
                &&& r matches Ok(t)
                &&& t@ == dev_tapplet_created(*item, old(self).dev_tapplet_next() as int)
                &&& final(self).dev_tapplets_map() == old(self).dev_tapplets_map().insert(
                    old(self).dev_tapplet_next(),
                    t@,
                )
                &&& final(self).dev_tapplets_list() == old(self).dev_tapplets_list().push(t@)
                &&& final(self).dev_tapplet_next() == old(self).dev_tapplet_next() + 1
            },
            old(self).dev_tapplet_next() == i32::MAX ==> (r matches Err(e) && is_create_error(
                e,
                item.display_name@,
            ) && *final(self) == *old(self)),
    {
        if self.dev_tapplet_next_id == i32::MAX {
            return Err(create_error(item.display_name.as_str()));
        }
        let id = self.dev_tapplet_next_id;
        let rec = DevTapplet {
            id,
            package_name: item.package_name.clone(),
            source: item.source.clone(),
            display_name: item.display_name.clone(),
            csp: item.csp.clone(),
            tari_permissions: item.tari_permissions.clone(),
        };
        let out = rec.clone();
        proof {
            lemma_pairs_vmap_push(self.dev_tapplets@, (id, rec));
        }
        let ghost prior = self.dev_tapplets@;
        self.dev_tapplets.push((id, rec));
        self.dev_tapplet_next_id = id + 1;
        proof {
            assert forall|a: int, b: int|
                0 <= a < b < self.dev_tapplets@.len() implies (#[trigger] self.dev_tapplets@[a]).0
                != (#[trigger] self.dev_tapplets@[b]).0 by {
                if b == self.dev_tapplets@.len() - 1 {
                    assert(prior[a].0 < id);
                }
            }
            assert(self.dev_tapplets_list() =~= old(self).dev_tapplets_list().push(out@));
        }
        Ok(out)
    }

    /// Replaces the record under `id` with `item`'s fields, returning how
    /// many records were affected: one when the id was present, zero
    /// otherwise.
    pub fn update_dev_tapplet(&mut self, id: i32, item: &UpdateDevTapplet) -> (r: Result<u64, Error>)
        requires
            old(self).wf(),
        ensures
            final(self).wf(),
            eq_outside_dev_tapplets(*old(self), *final(self)),
            final(self).dev_tapplet_next() == old(self).dev_tapplet_next(),
            old(self).dev_tapplets_map().contains_key(id) ==> r == Ok::<u64, Error>(1u64)
                && final(self).dev_tapplets_map() == old(self).dev_tapplets_map().insert(
                id,
                dev_tapplet_updated(*item, id as int),
            ),
            !old(self).dev_tapplets_map().contains_key(id) ==> r == Ok::<u64, Error>(0u64)
                && *final(self) == *old(self),
    {
        proof {
            lemma_pairs_vmap_domain(self.dev_tapplets@, id);
        }
        match self.find_dev_tapplet(id) {
            Some(i) => {
                let rec = DevTapplet {
                    id,
                    package_name: item.package_name.clone(),
                    source: item.source.clone(),
                    display_name: item.display_name.clone(),
                    csp: item.csp.clone(),
                    tari_permissions: item.tari_permissions.clone(),
                };
                proof {
                    lemma_pairs_vmap_update(self.dev_tapplets@, i as int, (id, rec));
                }
                let ghost prior = self.dev_tapplets@;
                self.dev_tapplets[i] = (id, rec);
                proof {
                    assert forall|a: int, b: int|
                        0 <= a < b < self.dev_tapplets@.len() implies (
                        #[trigger] self.dev_tapplets@[a]).0 != (
                        #[trigger] self.dev_tapplets@[b]).0 by {
                        assert(prior[a].0 != prior[b].0);
                    }
                }
                Ok(1)
            },
            None => Ok(0),
        }
    }

    /// Deletes the record under `id`, returning how many records were
    /// affected: one when the id was present, zero otherwise.
    pub fn delete_dev_tapplet(&mut self, id: i32) -> (r: Result<u64, Error>)
        requires
            old(self).wf(),
        ensures
            final(self).wf(),
            eq_outside_dev_tapplets(*old(self), *final(self)),
            final(self).dev_tapplet_next() == old(self).dev_tapplet_next(),
            old(self).dev_tapplets_map().contains_key(id) ==> r == Ok::<u64, Error>(1u64)
                && final(self).dev_tapplets_map() == old(self).dev_tapplets_map().remove(id),
            !old(self).dev_tapplets_map().contains_key(id) ==> r == Ok::<u64, Error>(0u64)
                && *final(self) == *old(self),
    {
        proof {
            lemma_pairs_vmap_domain(self.dev_tapplets@, id);
        }
        match self.find_dev_tapplet(id) {
            Some(i) => {
                proof {
                    lemma_pairs_vmap_remove(self.dev_tapplets@, i as int);
                    let removed = self.dev_tapplets@.remove(i as int);
                    assert forall|a: int, b: int|
                        0 <= a < b < removed.len() implies (#[trigger] removed[a]).0 != (
                        #[trigger] removed[b]).0 by {
                        assert(self.dev_tapplets@[if a < i as int {
                            a
                        } else {
                            a + 1
                        }].0 != self.dev_tapplets@[if b < i as int {
                            b
                        } else {
                            b + 1
                        }].0);
                    }
                }
                self.dev_tapplets.remove(i);
                Ok(1)
            },
            None => Ok(0),
        }
    }

    fn find_tapplet(&self, id: i32) -> (r: Option<usize>)
        ensures
            match r {
                Some(i) => i < self.tapplets@.len() && self.tapplets@[i as int].0 == id,
                None => !pairs_has(self.tapplets@, id),
            },
    {
        let n = self.tapplets.len();
        let mut i: usize = 0;
        while i < n
            invariant
                0 <= i <= n,
                n == self.tapplets@.len(),
                forall|k: int| 0 <= k < i ==> (#[trigger] self.tapplets@[k]).0 != id,
            decreases n - i,
        {
            if self.tapplets[i].0 == id {
                return Some(i);
            }
            i = i + 1;
        }
        None
    }

    /// Every tapplet, in insertion order.
    pub fn get_all_tapplets(&self) -> (r: Result<Vec<Tapplet>, Error>)
        requires
            self.wf(),
        ensures
            r matches Ok(v) && v@.map_values(|t: Tapplet| t@) == self.tapplets_list(),
    {
        let n = self.tapplets.len();
        let mut out: Vec<Tapplet> = Vec::new();
        let mut i: usize = 0;
        while i < n
            invariant
                0 <= i <= n,
                n == self.tapplets@.len(),
                out@.len() == i,
                forall|k: int| 0 <= k < i ==> (#[trigger] out@[k])@ == self.tapplets@[k].1@,
            decreases n - i,
        {
            out.push(self.tapplets[i].1.clone());
            i = i + 1;
        }
        proof {
            assert(out@.map_values(|t: Tapplet| t@) =~= self.tapplets_list());
        }
        Ok(out)
    }

    /// The tapplet stored under `tapplet_id`, or
    /// `FailedToRetrieveData` when no record carries that id.
    pub fn get_tapplet_by_id(&self, tapplet_id: i32) -> (r: Result<Tapplet, Error>)
        requires
            self.wf(),
        ensures
            self.tapplets_map().contains_key(tapplet_id) ==> (r matches Ok(t) && t@
                == self.tapplets_map()[tapplet_id]),
            !self.tapplets_map().contains_key(tapplet_id) ==> (r matches Err(e)
                && is_retrieve_error(e, "Tapplet"@)),
    {
        proof {
            lemma_pairs_vmap_domain(self.tapplets@, tapplet_id);
        }
        match self.find_tapplet(tapplet_id) {
            Some(i) => {
                proof {
                    lemma_pairs_vmap_index(self.tapplets@, i as int);
                }
                Ok(self.tapplets[i].1.clone())
            },
            None => Err(retrieve_error("Tapplet")),
        }
    }

    /// Stores `item` under a fresh id and returns the stored record. The
    /// creation fails only when the table has exhausted its ids.
    pub fn create_tapplet(&mut self, item: &CreateTapplet) -> (r: Result<Tapplet, Error>)
        requires
            old(self).wf(),
        ensures
            final(self).wf(),
            eq_outside_tapplets(*old(self), *final(self)),
            old(self).tapplet_next() < i32::MAX ==> {
                &&& r matches Ok(t)
                &&& t@ == tapplet_created(*item, old(self).tapplet_next() as int)
                &&& final(self).tapplets_map() == old(self).tapplets_map().insert(
                    old(self).tapplet_next(),
                    t@,
                )
                &&& final(self).tapplets_list() == old(self).tapplets_list().push(t@)
                &&& final(self).tapplet_next() == old(self).tapplet_next() + 1
            },
            old(self).tapplet_next() == i32::MAX ==> (r matches Err(e) && is_create_error(
                e,
                item.display_name@,
            ) && *final(self) == *old(self)),
    {
        if self.tapplet_next_id == i32::MAX {
            return Err(create_error(item.display_name.as_str()));
        }
        let id = self.tapplet_next_id;
        let rec = Tapplet {
            id,
            tapp_registry_id: item.tapp_registry_id.clone(),
            display_name: item.display_name.clone(),
            logo_url: item.logo_url.clone(),
            background_url: item.background_url.clone(),
            author_name: item.author_name.clone(),
            author_website: item.author_website.clone(),
            about_summary: item.about_summary.clone(),
            about_description: item.about_description.clone(),
            category: item.category.clone(),
        };
        let out = rec.clone();
        proof {
            lemma_pairs_vmap_push(self.tapplets@, (id, rec));
        }
        let ghost prior = self.tapplets@;
        self.tapplets.push((id, rec));
        self.tapplet_next_id = id + 1;
        proof {
            assert forall|a: int, b: int|
                0 <= a < b < self.tapplets@.len() implies (#[trigger] self.tapplets@[a]).0
                != (#[trigger] self.tapplets@[b]).0 by {
                if b == self.tapplets@.len() - 1 {
                    assert(prior[a].0 < id);
                }
            }
            assert(self.tapplets_list() =~= old(self).tapplets_list().push(out@));
        }
        Ok(out)
    }

    /// Replaces the record under `id` with `item`'s fields, returning how
    /// many records were affected: one when the id was present, zero
    /// otherwise.
    pub fn update_tapplet(&mut self, id: i32, item: &UpdateTapplet) -> (r: Result<u64, Error>)
        requires
            old(self).wf(),
        ensures
            final(self).wf(),
            eq_outside_tapplets(*old(self), *final(self)),
            final(self).tapplet_next() == old(self).tapplet_next(),
            old(self).tapplets_map().contains_key(id) ==> r == Ok::<u64, Error>(1u64)
                && final(self).tapplets_map() == old(self).tapplets_map().insert(
                id,
                tapplet_updated(*item, id as int),
            ),
            !old(self).tapplets_map().contains_key(id) ==> r == Ok::<u64, Error>(0u64)
                && *final(self) == *old(self),
    {
        proof {
            lemma_pairs_vmap_domain(self.tapplets@, id);
        }
        match self.find_tapplet(id) {
            Some(i) => {
                let rec = Tapplet {
                    id,
                    tapp_registry_id: item.tapp_registry_id.clone(),
                    display_name: item.display_name.clone(),
                    logo_url: item.logo_url.clone(),
                    background_url: item.background_url.clone(),
                    author_name: item.author_name.clone(),
                    author_website: item.author_website.clone(),
                    about_summary: item.about_summary.clone(),
                    about_description: item.about_description.clone(),
                    category: item.category.clone(),
                };
                proof {
                    lemma_pairs_vmap_update(self.tapplets@, i as int, (id, rec));
                }
                let ghost prior = self.tapplets@;
                self.tapplets[i] = (id, rec);
                proof {
                    assert forall|a: int, b: int|
                        0 <= a < b < self.tapplets@.len() implies (
                        #[trigger] self.tapplets@[a]).0 != (
                        #[trigger] self.tapplets@[b]).0 by {
                        assert(prior[a].0 != prior[b].0);
                    }
                }
                Ok(1)
            },
            None => Ok(0),
        }
    }

    /// Deletes the record under `id`, returning how many records were
    /// affected: one when the id was present, zero otherwise.
    pub fn delete_tapplet(&mut self, id: i32) -> (r: Result<u64, Error>)
        requires
            old(self).wf(),
        ensures
            final(self).wf(),
            eq_outside_tapplets(*old(self), *final(self)),
            final(self).tapplet_next() == old(self).tapplet_next(),
            old(self).tapplets_map().contains_key(id) ==> r == Ok::<u64, Error>(1u64)
                && final(self).tapplets_map() == old(self).tapplets_map().remove(id),
            !old(self).tapplets_map().contains_key(id) ==> r == Ok::<u64, Error>(0u64)
                && *final(self) == *old(self),
    {
        proof {
            lemma_pairs_vmap_domain(self.tapplets@, id);
        }
        match self.find_tapplet(id) {
            Some(i) => {
                proof {
                    lemma_pairs_vmap_remove(self.tapplets@, i as int);
                    let removed = self.tapplets@.remove(i as int);
                    assert forall|a: int, b: int|
                        0 <= a < b < removed.len() implies (#[trigger] removed[a]).0 != (
                        #[trigger] removed[b]).0 by {
                        assert(self.tapplets@[if a < i as int {
                            a
                        } else {
                            a + 1
                        }].0 != self.tapplets@[if b < i as int {
                            b
                        } else {
                            b + 1
                        }].0);
                    }
                }
                self.tapplets.remove(i);
                Ok(1)
            },
            None => Ok(0),
        }
    }

    fn find_installed_tapplet(&self, id: i32) -> (r: Option<usize>)
        ensures
            match r {
                Some(i) => i < self.installed_tapplets@.len() && self.installed_tapplets@[i as int].0 == id,
                None => !pairs_has(self.installed_tapplets@, id),
            },
    {
        let n = self.installed_tapplets.len();
        let mut i: usize = 0;
        while i < n
            invariant
                0 <= i <= n,
                n == self.installed_tapplets@.len(),
                forall|k: int| 0 <= k < i ==> (#[trigger] self.installed_tapplets@[k]).0 != id,
            decreases n - i,
        {
            if self.installed_tapplets[i].0 == id {
                return Some(i);
            }
            i = i + 1;
        }
        None
    }

    /// Every installed tapplet, in insertion order.
    pub fn get_all_installed_tapplets(&self) -> (r: Result<Vec<InstalledTapplet>, Error>)
        requires
            self.wf(),
        ensures
            r matches Ok(v) && v@.map_values(|t: InstalledTapplet| t@) == self.installed_tapplets_list(),
    {
        let n = self.installed_tapplets.len();
        let mut out: Vec<InstalledTapplet> = Vec::new();
        let mut i: usize = 0;
        while i < n
            invariant
                0 <= i <= n,
                n == self.installed_tapplets@.len(),
                out@.len() == i,
                forall|k: int| 0 <= k < i ==> (#[trigger] out@[k])@ == self.installed_tapplets@[k].1@,
            decreases n - i,
        {
            out.push(self.installed_tapplets[i].1.clone());
            i = i + 1;
        }
        proof {
            assert(out@.map_values(|t: InstalledTapplet| t@) =~= self.installed_tapplets_list());
        }
        Ok(out)
    }

    /// The installed tapplet stored under `id`, or
    /// `FailedToRetrieveData` when no record carries that id.
    pub fn get_installed_tapplet_by_id(&self, id: i32) -> (r: Result<InstalledTapplet, Error>)
        requires
            self.wf(),
        ensures
            self.installed_tapplets_map().contains_key(id) ==> (r matches Ok(t) && t@
                == self.installed_tapplets_map()[id]),
            !self.installed_tapplets_map().contains_key(id) ==> (r matches Err(e)
                && is_retrieve_error(e, "InstalledTapplet"@)),
    {
        proof {
            lemma_pairs_vmap_domain(self.installed_tapplets@, id);
        }
        match self.find_installed_tapplet(id) {
            Some(i) => {
                proof {
                    lemma_pairs_vmap_index(self.installed_tapplets@, i as int);
                }
                Ok(self.installed_tapplets[i].1.clone())
            },
            None => Err(retrieve_error("InstalledTapplet")),
        }
    }

    /// Stores `item` under a fresh id and returns the stored record. The
    /// creation fails only when the table has exhausted its ids.
    pub fn create_installed_tapplet(&mut self, item: &CreateInstalledTapplet) -> (r: Result<InstalledTapplet, Error>)
        requires
            old(self).wf(),
        ensures
            final(self).wf(),
            eq_outside_installed_tapplets(*old(self), *final(self)),
            old(self).installed_tapplet_next() < i32::MAX ==> {
                &&& r matches Ok(t)
                &&& t@ == installed_tapplet_created(*item, old(self).installed_tapplet_next() as int)
                &&& final(self).installed_tapplets_map() == old(self).installed_tapplets_map().insert(
                    old(self).installed_tapplet_next(),
                    t@,
                )
                &&& final(self).installed_tapplets_list() == old(self).installed_tapplets_list().push(t@)
                &&& final(self).installed_tapplet_next() == old(self).installed_tapplet_next() + 1
            },
            old(self).installed_tapplet_next() == i32::MAX ==> (r matches Err(e) && is_create_error(
                e,
                "InstalledTapplet"@,
            ) && *final(self) == *old(self)),
    {
        if self.installed_tapplet_next_id == i32::MAX {
            return Err(create_error("InstalledTapplet"));
        }
        let id = self.installed_tapplet_next_id;
        let rec = InstalledTapplet {
            id,
            tapplet_id: item.tapplet_id,
            tapplet_version_id: item.tapplet_version_id,
            source: item.source.clone(),
            csp: item.csp.clone(),
            tari_permissions: item.tari_permissions.clone(),
        };
        let out = rec.clone();
        proof {
            lemma_pairs_vmap_push(self.installed_tapplets@, (id, rec));
        }
        let ghost prior = self.installed_tapplets@;
        self.installed_tapplets.push((id, rec));
        self.installed_tapplet_next_id = id + 1;
        proof {
            assert forall|a: int, b: int|
                0 <= a < b < self.installed_tapplets@.len() implies (#[trigger] self.installed_tapplets@[a]).0
                != (#[trigger] self.installed_tapplets@[b]).0 by {
                if b == self.installed_tapplets@.len() - 1 {
                    assert(prior[a].0 < id);
                }
            }
            assert(self.installed_tapplets_list() =~= old(self).installed_tapplets_list().push(out@));
        }
        Ok(out)
    }

    /// Replaces the record under `id` with `item`'s fields, returning how
    /// many records were affected: one when the id was present, zero
    /// otherwise.
    pub fn update_installed_tapplet(&mut self, id: i32, item: &UpdateInstalledTapplet) -> (r: Result<u64, Error>)
        requires
            old(self).wf(),
        ensures
            final(self).wf(),
            eq_outside_installed_tapplets(*old(self), *final(self)),
            final(self).installed_tapplet_next() == old(self).installed_tapplet_next(),
            old(self).installed_tapplets_map().contains_key(id) ==> r == Ok::<u64, Error>(1u64)
                && final(self).installed_tapplets_map() == old(self).installed_tapplets_map().insert(
                id,
                installed_tapplet_updated(*item, id as int),
            ),
            !old(self).installed_tapplets_map().contains_key(id) ==> r == Ok::<u64, Error>(0u64)
                && *final(self) == *old(self),
    {
        proof {
            lemma_pairs_vmap_domain(self.installed_tapplets@, id);
        }
        match self.find_installed_tapplet(id) {
            Some(i) => {
                let rec = InstalledTapplet {
                    id,
                    tapplet_id: item.tapplet_id,
                    tapplet_version_id: item.tapplet_version_id,
                    source: item.source.clone(),
                    csp: item.csp.clone(),
                    tari_permissions: item.tari_permissions.clone(),
                };
                proof {
                    lemma_pairs_vmap_update(self.installed_tapplets@, i as int, (id, rec));
                }
                let ghost prior = self.installed_tapplets@;
                self.installed_tapplets[i] = (id, rec);
                proof {
                    assert forall|a: int, b: int|
                        0 <= a < b < self.installed_tapplets@.len() implies (
                        #[trigger] self.installed_tapplets@[a]).0 != (
                        #[trigger] self.installed_tapplets@[b]).0 by {
                        assert(prior[a].0 != prior[b].0);
                    }
                }
                Ok(1)
            },
            None => Ok(0),
        }
    }

    /// Deletes the record under `id`, returning how many records were
    /// affected: one when the id was present, zero otherwise.
    pub fn delete_installed_tapplet(&mut self, id: i32) -> (r: Result<u64, Error>)
        requires
            old(self).wf(),
        ensures
            final(self).wf(),
            eq_outside_installed_tapplets(*old(self), *final(self)),
            final(self).installed_tapplet_next() == old(self).installed_tapplet_next(),
            old(self).installed_tapplets_map().contains_key(id) ==> r == Ok::<u64, Error>(1u64)
                && final(self).installed_tapplets_map() == old(self).installed_tapplets_map().remove(id),
            !old(self).installed_tapplets_map().contains_key(id) ==> r == Ok::<u64, Error>(0u64)
                && *final(self) == *old(self),
    {
        proof {
            lemma_pairs_vmap_domain(self.installed_tapplets@, id);
        }
        match self.find_installed_tapplet(id) {
            Some(i) => {
                proof {
                    lemma_pairs_vmap_remove(self.installed_tapplets@, i as int);
                    let removed = self.installed_tapplets@.remove(i as int);
                    assert forall|a: int, b: int|
                        0 <= a < b < removed.len() implies (#[trigger] removed[a]).0 != (
                        #[trigger] removed[b]).0 by {
                        assert(self.installed_tapplets@[if a < i as int {
                            a
                        } else {
                            a + 1
                        }].0 != self.installed_tapplets@[if b < i as int {
                            b
                        } else {
                            b + 1
                        }].0);
                    }
                }
                self.installed_tapplets.remove(i);
                Ok(1)
            },
            None => Ok(0),
        }
    }

    fn find_tapplet_version(&self, id: i32) -> (r: Option<usize>)
        ensures
            match r {
                Some(i) => i < self.tapplet_versions@.len() && self.tapplet_versions@[i as int].0 == id,
                None => !pairs_has(self.tapplet_versions@, id),
            },
    {
        let n = self.tapplet_versions.len();
        let mut i: usize = 0;
        while i < n
            invariant
                0 <= i <= n,
                n == self.tapplet_versions@.len(),
                forall|k: int| 0 <= k < i ==> (#[trigger] self.tapplet_versions@[k]).0 != id,
            decreases n - i,
        {
            if self.tapplet_versions[i].0 == id {
                return Some(i);
            }
            i = i + 1;
        }
        None
    }

    /// Every tapplet version, in insertion order.
    pub fn get_all_tapplet_versions(&self) -> (r: Result<Vec<TappletVersion>, Error>)
        requires
            self.wf(),
        ensures
            r matches Ok(v) && v@.map_values(|t: TappletVersion| t@) == self.tapplet_versions_list(),
    {
        let n = self.tapplet_versions.len();
        let mut out: Vec<TappletVersion> = Vec::new();
        let mut i: usize = 0;
        while i < n
            invariant
                0 <= i <= n,
                n == self.tapplet_versions@.len(),
                out@.len() == i,
                forall|k: int| 0 <= k < i ==> (#[trigger] out@[k])@ == self.tapplet_versions@[k].1@,
            decreases n - i,
        {
            out.push(self.tapplet_versions[i].1.clone());
            i = i + 1;
        }
        proof {
            assert(out@.map_values(|t: TappletVersion| t@) =~= self.tapplet_versions_list());
        }
        Ok(out)
    }

    /// The tapplet version stored under `id`, or
    /// `FailedToRetrieveData` when no record carries that id.
    pub fn get_tapplet_version_by_id(&self, id: i32) -> (r: Result<TappletVersion, Error>)
        requires
            self.wf(),
        ensures
            self.tapplet_versions_map().contains_key(id) ==> (r matches Ok(t) && t@
                == self.tapplet_versions_map()[id]),
            !self.tapplet_versions_map().contains_key(id) ==> (r matches Err(e)
                && is_retrieve_error(e, "TappletVersion"@)),
    {
        proof {
            lemma_pairs_vmap_domain(self.tapplet_versions@, id);
        }
        match self.find_tapplet_version(id) {
            Some(i) => {
                proof {
                    lemma_pairs_vmap_index(self.tapplet_versions@, i as int);
                }
                Ok(self.tapplet_versions[i].1.clone())
            },
            None => Err(retrieve_error("TappletVersion")),
        }
    }

    /// Stores `item` under a fresh id and returns the stored record. The
    /// creation fails only when the table has exhausted its ids.
    pub fn create_tapplet_version(&mut self, item: &CreateTappletVersion) -> (r: Result<TappletVersion, Error>)
        requires
            old(self).wf(),
        ensures
            final(self).wf(),
            eq_outside_tapplet_versions(*old(self), *final(self)),
            old(self).tapplet_version_next() < i32::MAX ==> {
                &&& r matches Ok(t)
                &&& t@ == tapplet_version_created(*item, old(self).tapplet_version_next() as int)
                &&& final(self).tapplet_versions_map() == old(self).tapplet_versions_map().insert(
                    old(self).tapplet_version_next(),
                    t@,
                )
                &&& final(self).tapplet_versions_list() == old(self).tapplet_versions_list().push(t@)
                &&& final(self).tapplet_version_next() == old(self).tapplet_version_next() + 1
            },
            old(self).tapplet_version_next() == i32::MAX ==> (r matches Err(e) && is_create_error(
                e,
                "TappletVersion"@,
            ) && *final(self) == *old(self)),
    {
        if self.tapplet_version_next_id == i32::MAX {
            return Err(create_error("TappletVersion"));
        }
        let id = self.tapplet_version_next_id;
        let rec = TappletVersion {
            id,
            tapplet_id: item.tapplet_id,
            version: item.version.clone(),
            integrity: item.integrity.clone(),
            registry_url: item.registry_url.clone(),
        };
        let out = rec.clone();
        proof {
            lemma_pairs_vmap_push(self.tapplet_versions@, (id, rec));
        }
        let ghost prior = self.tapplet_versions@;
        self.tapplet_versions.push((id, rec));
        self.tapplet_version_next_id = id + 1;
        proof {
            assert forall|a: int, b: int|
                0 <= a < b < self.tapplet_versions@.len() implies (#[trigger] self.tapplet_versions@[a]).0
                != (#[trigger] self.tapplet_versions@[b]).0 by {
                if b == self.tapplet_versions@.len() - 1 {
                    assert(prior[a].0 < id);
                }
            }
            assert(self.tapplet_versions_list() =~= old(self).tapplet_versions_list().push(out@));
        }
        Ok(out)
    }

    /// Replaces the record under `id` with `item`'s fields, returning how
    /// many records were affected: one when the id was present, zero
    /// otherwise.
    pub fn update_tapplet_version(&mut self, id: i32, item: &UpdateTappletVersion) -> (r: Result<u64, Error>)
        requires
            old(self).wf(),
        ensures
            final(self).wf(),
            eq_outside_tapplet_versions(*old(self), *final(self)),
            final(self).tapplet_version_next() == old(self).tapplet_version_next(),
            old(self).tapplet_versions_map().contains_key(id) ==> r == Ok::<u64, Error>(1u64)
                && final(self).tapplet_versions_map() == old(self).tapplet_versions_map().insert(
                id,
                tapplet_version_updated(*item, id as int),
            ),
            !old(self).tapplet_versions_map().contains_key(id) ==> r == Ok::<u64, Error>(0u64)
                && *final(self) == *old(self),
    {
        proof {
            lemma_pairs_vmap_domain(self.tapplet_versions@, id);
        }
        match self.find_tapplet_version(id) {
            Some(i) => {
                let rec = TappletVersion {
                    id,
                    tapplet_id: item.tapplet_id,
                    version: item.version.clone(),
                    integrity: item.integrity.clone(),
                    registry_url: item.registry_url.clone(),
                };
                proof {
                    lemma_pairs_vmap_update(self.tapplet_versions@, i as int, (id, rec));
                }
                let ghost prior = self.tapplet_versions@;
                self.tapplet_versions[i] = (id, rec);
                proof {
                    assert forall|a: int, b: int|
                        0 <= a < b < self.tapplet_versions@.len() implies (
                        #[trigger] self.tapplet_versions@[a]).0 != (
                        #[trigger] self.tapplet_versions@[b]).0 by {
                        assert(prior[a].0 != prior[b].0);
                    }
                }
                Ok(1)
            },
            None => Ok(0),
        }
    }

    /// Deletes the record under `id`, returning how many records were
    /// affected: one when the id was present, zero otherwise.
    pub fn delete_tapplet_version(&mut self, id: i32) -> (r: Result<u64, Error>)
        requires
            old(self).wf(),
        ensures
            final(self).wf(),
            eq_outside_tapplet_versions(*old(self), *final(self)),
            final(self).tapplet_version_next() == old(self).tapplet_version_next(),
            old(self).tapplet_versions_map().contains_key(id) ==> r == Ok::<u64, Error>(1u64)
                && final(self).tapplet_versions_map() == old(self).tapplet_versions_map().remove(id),
            !old(self).tapplet_versions_map().contains_key(id) ==> r == Ok::<u64, Error>(0u64)
                && *final(self) == *old(self),
    {
        proof {
            lemma_pairs_vmap_domain(self.tapplet_versions@, id);
        }
        match self.find_tapplet_version(id) {
            Some(i) => {
                proof {
                    lemma_pairs_vmap_remove(self.tapplet_versions@, i as int);
                    let removed = self.tapplet_versions@.remove(i as int);
                    assert forall|a: int, b: int|
                        0 <= a < b < removed.len() implies (#[trigger] removed[a]).0 != (
                        #[trigger] removed[b]).0 by {
                        assert(self.tapplet_versions@[if a < i as int {
                            a
                        } else {
                            a + 1
                        }].0 != self.tapplet_versions@[if b < i as int {
                            b
                        } else {
                            b + 1
                        }].0);
                    }
                }
                self.tapplet_versions.remove(i);
                Ok(1)
            },
            None => Ok(0),
        }
    }

    fn find_tapplet_audit(&self, id: i32) -> (r: Option<usize>)
        ensures
            match r {
                Some(i) => i < self.tapplet_audits@.len() && self.tapplet_audits@[i as int].0 == id,
                None => !pairs_has(self.tapplet_audits@, id),
            },
    {
        let n = self.tapplet_audits.len();
        let mut i: usize = 0;
        while i < n
            invariant
                0 <= i <= n,
                n == self.tapplet_audits@.len(),
                forall|k: int| 0 <= k < i ==> (#[trigger] self.tapplet_audits@[k]).0 != id,
            decreases n - i,
        {
            if self.tapplet_audits[i].0 == id {
                return Some(i);
            }
            i = i + 1;
        }
        None
    }

    /// Every tapplet audit, in insertion order.
    pub fn get_all_tapplet_audits(&self) -> (r: Result<Vec<TappletAudit>, Error>)
        requires
            self.wf(),
        ensures
            r matches Ok(v) && v@.map_values(|t: TappletAudit| t@) == self.tapplet_audits_list(),
    {
        let n = self.tapplet_audits.len();
        let mut out: Vec<TappletAudit> = Vec::new();
        let mut i: usize = 0;
        while i < n
            invariant
                0 <= i <= n,
                n == self.tapplet_audits@.len(),
                out@.len() == i,
                forall|k: int| 0 <= k < i ==> (#[trigger] out@[k])@ == self.tapplet_audits@[k].1@,
            decreases n - i,
        {
            out.push(self.tapplet_audits[i].1.clone());
            i = i + 1;
        }
        proof {
            assert(out@.map_values(|t: TappletAudit| t@) =~= self.tapplet_audits_list());
        }
        Ok(out)
    }

    /// The tapplet audit stored under `id`, or
    /// `FailedToRetrieveData` when no record carries that id.
    pub fn get_tapplet_audit_by_id(&self, id: i32) -> (r: Result<TappletAudit, Error>)
        requires
            self.wf(),
        ensures
            self.tapplet_audits_map().contains_key(id) ==> (r matches Ok(t) && t@
                == self.tapplet_audits_map()[id]),
            !self.tapplet_audits_map().contains_key(id) ==> (r matches Err(e)
                && is_retrieve_error(e, "TappletAudit"@)),
    {
        proof {
            lemma_pairs_vmap_domain(self.tapplet_audits@, id);
        }
        match self.find_tapplet_audit(id) {
            Some(i) => {
                proof {
                    lemma_pairs_vmap_index(self.tapplet_audits@, i as int);
                }
                Ok(self.tapplet_audits[i].1.clone())
            },
            None => Err(retrieve_error("TappletAudit")),
        }
    }

    /// Stores `item` under a fresh id and returns the stored record. The
    /// creation fails only when the table has exhausted its ids.
    pub fn create_tapplet_audit(&mut self, item: &CreateTappletAudit) -> (r: Result<TappletAudit, Error>)
        requires
            old(self).wf(),
        ensures
            final(self).wf(),
            eq_outside_tapplet_audits(*old(self), *final(self)),
            old(self).tapplet_audit_next() < i32::MAX ==> {
                &&& r matches Ok(t)
                &&& t@ == tapplet_audit_created(*item, old(self).tapplet_audit_next() as int)
                &&& final(self).tapplet_audits_map() == old(self).tapplet_audits_map().insert(
                    old(self).tapplet_audit_next(),
                    t@,
                )
                &&& final(self).tapplet_audits_list() == old(self).tapplet_audits_list().push(t@)
                &&& final(self).tapplet_audit_next() == old(self).tapplet_audit_next() + 1
            },
            old(self).tapplet_audit_next() == i32::MAX ==> (r matches Err(e) && is_create_error(
                e,
                "TappletAudit"@,
            ) && *final(self) == *old(self)),
    {
        if self.tapplet_audit_next_id == i32::MAX {
            return Err(create_error("TappletAudit"));
        }
        let id = self.tapplet_audit_next_id;
        let rec = TappletAudit {
            id,
            tapplet_id: item.tapplet_id,
            auditor: item.auditor.clone(),
            report_url: item.report_url.clone(),
        };
        let out = rec.clone();
        proof {
            lemma_pairs_vmap_push(self.tapplet_audits@, (id, rec));
        }
        let ghost prior = self.tapplet_audits@;
        self.tapplet_audits.push((id, rec));
        self.tapplet_audit_next_id = id + 1;
        proof {
            assert forall|a: int, b: int|
                0 <= a < b < self.tapplet_audits@.len() implies (#[trigger] self.tapplet_audits@[a]).0
                != (#[trigger] self.tapplet_audits@[b]).0 by {
                if b == self.tapplet_audits@.len() - 1 {
                    assert(prior[a].0 < id);
                }
            }
            assert(self.tapplet_audits_list() =~= old(self).tapplet_audits_list().push(out@));
        }
        Ok(out)
    }

    /// Replaces the record under `id` with `item`'s fields, returning how
    /// many records were affected: one when the id was present, zero
    /// otherwise.
    pub fn update_tapplet_audit(&mut self, id: i32, item: &UpdateTappletAudit) -> (r: Result<u64, Error>)
        requires
            old(self).wf(),
        ensures
            final(self).wf(),
            eq_outside_tapplet_audits(*old(self), *final(self)),
            final(self).tapplet_audit_next() == old(self).tapplet_audit_next(),
            old(self).tapplet_audits_map().contains_key(id) ==> r == Ok::<u64, Error>(1u64)
                && final(self).tapplet_audits_map() == old(self).tapplet_audits_map().insert(
                id,
                tapplet_audit_updated(*item, id as int),
            ),
            !old(self).tapplet_audits_map().contains_key(id) ==> r == Ok::<u64, Error>(0u64)
                && *final(self) == *old(self),
    {
        proof {
            lemma_pairs_vmap_domain(self.tapplet_audits@, id);
        }
        match self.find_tapplet_audit(id) {
            Some(i) => {
                let rec = TappletAudit {
                    id,
                    tapplet_id: item.tapplet_id,
                    auditor: item.auditor.clone(),
                    report_url: item.report_url.clone(),
                };
                proof {
                    lemma_pairs_vmap_update(self.tapplet_audits@, i as int, (id, rec));
                }
                let ghost prior = self.tapplet_audits@;
                self.tapplet_audits[i] = (id, rec);
                proof {
                    assert forall|a: int, b: int|
                        0 <= a < b < self.tapplet_audits@.len() implies (
                        #[trigger] self.tapplet_audits@[a]).0 != (
                        #[trigger] self.tapplet_audits@[b]).0 by {
                        assert(prior[a].0 != prior[b].0);
                    }
                }
                Ok(1)
            },
            None => Ok(0),
        }
    }

    /// Deletes the record under `id`, returning how many records were
    /// affected: one when the id was present, zero otherwise.
    pub fn delete_tapplet_audit(&mut self, id: i32) -> (r: Result<u64, Error>)
        requires
            old(self).wf(),
        ensures
            final(self).wf(),
            eq_outside_tapplet_audits(*old(self), *final(self)),
            final(self).tapplet_audit_next() == old(self).tapplet_audit_next(),
            old(self).tapplet_audits_map().contains_key(id) ==> r == Ok::<u64, Error>(1u64)
                && final(self).tapplet_audits_map() == old(self).tapplet_audits_map().remove(id),
            !old(self).tapplet_audits_map().contains_key(id) ==> r == Ok::<u64, Error>(0u64)
                && *final(self) == *old(self),
    {
        proof {
            lemma_pairs_vmap_domain(self.tapplet_audits@, id);
        }
        match self.find_tapplet_audit(id) {
            Some(i) => {
                proof {
                    lemma_pairs_vmap_remove(self.tapplet_audits@, i as int);
                    let removed = self.tapplet_audits@.remove(i as int);
                    assert forall|a: int, b: int|
                        0 <= a < b < removed.len() implies (#[trigger] removed[a]).0 != (
                        #[trigger] removed[b]).0 by {
                        assert(self.tapplet_audits@[if a < i as int {
                            a
                        } else {
                            a + 1
                        }].0 != self.tapplet_audits@[if b < i as int {
                            b
                        } else {
                            b + 1
                        }].0);
                    }
                }
                self.tapplet_audits.remove(i);
                Ok(1)
            },
            None => Ok(0),
        }
    }

    fn find_tapplet_asset(&self, id: i32) -> (r: Option<usize>)
        ensures
            match r {
                Some(i) => i < self.tapplet_assets@.len() && self.tapplet_assets@[i as int].0 == id,
                None => !pairs_has(self.tapplet_assets@, id),
            },
    {
        let n = self.tapplet_assets.len();
        let mut i: usize = 0;
        while i < n
            invariant
                0 <= i <= n,
                n == self.tapplet_assets@.len(),
                forall|k: int| 0 <= k < i ==> (#[trigger] self.tapplet_assets@[k]).0 != id,
            decreases n - i,
        {
            if self.tapplet_assets[i].0 == id {
                return Some(i);
            }
            i = i + 1;
        }
        None
    }

    /// Every tapplet asset, in insertion order.
    pub fn get_all_tapplet_assets(&self) -> (r: Result<Vec<TappletAsset>, Error>)
        requires
            self.wf(),
        ensures
            r matches Ok(v) && v@.map_values(|t: TappletAsset| t@) == self.tapplet_assets_list(),
    {
        let n = self.tapplet_assets.len();
        let mut out: Vec<TappletAsset> = Vec::new();
        let mut i: usize = 0;
        while i < n
            invariant
                0 <= i <= n,
                n == self.tapplet_assets@.len(),
                out@.len() == i,
                forall|k: int| 0 <= k < i ==> (#[trigger] out@[k])@ == self.tapplet_assets@[k].1@,
            decreases n - i,
        {
            out.push(self.tapplet_assets[i].1.clone());
            i = i + 1;
        }
        proof {
            assert(out@.map_values(|t: TappletAsset| t@) =~= self.tapplet_assets_list());
        }
        Ok(out)
    }

    /// The tapplet asset stored under `id`, or
    /// `FailedToRetrieveData` when no record carries that id.
    pub fn get_tapplet_asset_by_id(&self, id: i32) -> (r: Result<TappletAsset, Error>)
        requires
            self.wf(),
        ensures
            self.tapplet_assets_map().contains_key(id) ==> (r matches Ok(t) && t@
                == self.tapplet_assets_map()[id]),
            !self.tapplet_assets_map().contains_key(id) ==> (r matches Err(e)
                && is_retrieve_error(e, "TappletAsset"@)),
    {
        proof {
            lemma_pairs_vmap_domain(self.tapplet_assets@, id);
        }
        match self.find_tapplet_asset(id) {
            Some(i) => {
                proof {
                    lemma_pairs_vmap_index(self.tapplet_assets@, i as int);
                }
                Ok(self.tapplet_assets[i].1.clone())
            },
            None => Err(retrieve_error("TappletAsset")),
        }
    }

    /// Stores `item` under a fresh id and returns the stored record. The
    /// creation fails only when the table has exhausted its ids.
    pub fn create_tapplet_asset(&mut self, item: &CreateTappletAsset) -> (r: Result<TappletAsset, Error>)
        requires
            old(self).wf(),
        ensures
            final(self).wf(),
            eq_outside_tapplet_assets(*old(self), *final(self)),
            old(self).tapplet_asset_next() < i32::MAX ==> {
                &&& r matches Ok(t)
                &&& t@ == tapplet_asset_created(*item, old(self).tapplet_asset_next() as int)
                &&& final(self).tapplet_assets_map() == old(self).tapplet_assets_map().insert(
                    old(self).tapplet_asset_next(),
                    t@,
                )
                &&& final(self).tapplet_assets_list() == old(self).tapplet_assets_list().push(t@)
                &&& final(self).tapplet_asset_next() == old(self).tapplet_asset_next() + 1
            },
            old(self).tapplet_asset_next() == i32::MAX ==> (r matches Err(e) && is_create_error(
                e,
                "TappletAsset"@,
            ) && *final(self) == *old(self)),
    {
        if self.tapplet_asset_next_id == i32::MAX {
            return Err(create_error("TappletAsset"));
        }
        let id = self.tapplet_asset_next_id;
        let rec = TappletAsset {
            id,
            tapplet_id: item.tapplet_id,
            icon_url: item.icon_url.clone(),
            background_url: item.background_url.clone(),
        };
        let out = rec.clone();
        proof {
            lemma_pairs_vmap_push(self.tapplet_assets@, (id, rec));
        }
        let ghost prior = self.tapplet_assets@;
        self.tapplet_assets.push((id, rec));
        self.tapplet_asset_next_id = id + 1;
        proof {
            assert forall|a: int, b: int|
                0 <= a < b < self.tapplet_assets@.len() implies (#[trigger] self.tapplet_assets@[a]).0
                != (#[trigger] self.tapplet_assets@[b]).0 by {
                if b == self.tapplet_assets@.len() - 1 {
                    assert(prior[a].0 < id);
                }
            }
            assert(self.tapplet_assets_list() =~= old(self).tapplet_assets_list().push(out@));
        }
        Ok(out)
    }

    /// Replaces the record under `id` with `item`'s fields, returning how
    /// many records were affected: one when the id was present, zero
    /// otherwise.
    pub fn update_tapplet_asset(&mut self, id: i32, item: &UpdateTappletAsset) -> (r: Result<u64, Error>)
        requires
            old(self).wf(),
        ensures
            final(self).wf(),
            eq_outside_tapplet_assets(*old(self), *final(self)),
            final(self).tapplet_asset_next() == old(self).tapplet_asset_next(),
            old(self).tapplet_assets_map().contains_key(id) ==> r == Ok::<u64, Error>(1u64)
                && final(self).tapplet_assets_map() == old(self).tapplet_assets_map().insert(
                id,
                tapplet_asset_updated(*item, id as int),
            ),
            !old(self).tapplet_assets_map().contains_key(id) ==> r == Ok::<u64, Error>(0u64)
                && *final(self) == *old(self),
    {
        proof {
            lemma_pairs_vmap_domain(self.tapplet_assets@, id);
        }
        match self.find_tapplet_asset(id) {
            Some(i) => {
                let rec = TappletAsset {
                    id,
                    tapplet_id: item.tapplet_id,
                    icon_url: item.icon_url.clone(),
                    background_url: item.background_url.clone(),
                };
                proof {
                    lemma_pairs_vmap_update(self.tapplet_assets@, i as int, (id, rec));
                }
                let ghost prior = self.tapplet_assets@;
                self.tapplet_assets[i] = (id, rec);
                proof {
                    assert forall|a: int, b: int|
                        0 <= a < b < self.tapplet_assets@.len() implies (
                        #[trigger] self.tapplet_assets@[a]).0 != (
                        #[trigger] self.tapplet_assets@[b]).0 by {
                        assert(prior[a].0 != prior[b].0);
                    }
                }
                Ok(1)
            },
            None => Ok(0),
        }
    }

    /// Deletes the record under `id`, returning how many records were
    /// affected: one when the id was present, zero otherwise.
    pub fn delete_tapplet_asset(&mut self, id: i32) -> (r: Result<u64, Error>)
        requires
            old(self).wf(),
        ensures
            final(self).wf(),
            eq_outside_tapplet_assets(*old(self), *final(self)),
            final(self).tapplet_asset_next() == old(self).tapplet_asset_next(),
            old(self).tapplet_assets_map().contains_key(id) ==> r == Ok::<u64, Error>(1u64)
                && final(self).tapplet_assets_map() == old(self).tapplet_assets_map().remove(id),
            !old(self).tapplet_assets_map().contains_key(id) ==> r == Ok::<u64, Error>(0u64)
                && *final(self) == *old(self),
    {
        proof {
            lemma_pairs_vmap_domain(self.tapplet_assets@, id);
        }
        match self.find_tapplet_asset(id) {
            Some(i) => {
                proof {
                    lemma_pairs_vmap_remove(self.tapplet_assets@, i as int);
                    let removed = self.tapplet_assets@.remove(i as int);
                    assert forall|a: int, b: int|
                        0 <= a < b < removed.len() implies (#[trigger] removed[a]).0 != (
                        #[trigger] removed[b]).0 by {
                        assert(self.tapplet_assets@[if a < i as int {
                            a
                        } else {
                            a + 1
                        }].0 != self.tapplet_assets@[if b < i as int {
                            b
                        } else {
                            b + 1
                        }].0);
                    }
                }
                self.tapplet_assets.remove(i);
                Ok(1)
            },
            None => Ok(0),
        }
    }

}

/// Law: on any table of the catalog, a created record is retrieved
/// unchanged by its id, an update is reflected by the next retrieval, and
/// after a deletion the id retrieves nothing.
pub proof fn lemma_store_round_trip<V>(m: Map<i32, V>, id: i32, created: V, updated: V)
    ensures
        m.insert(id, created)[id] == created,
        m.insert(id, created).insert(id, updated)[id] == updated,
        !m.insert(id, created).remove(id).contains_key(id),
{
}

} // verus!
