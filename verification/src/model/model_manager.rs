//! The model cache. It imports a model when it is first asked for and hands
//! out handles to it; it keeps the model for as long as a handle is held and
//! lets it go when the last one comes back, so that the next request imports
//! again.

use vstd::prelude::*;
use vstd::hash_map::StringHashMap;
use std::collections::hash_map::RandomState;
use std::hash::BuildHasher;
use crate::asset::Asset;
use crate::asset::AssetType;
use crate::asset::AssetView;
use crate::asset::ModelType;
use crate::error::ResultError;
use crate::error::ResultErrorView;
use crate::importer::Importer;
use crate::model::Model;
use crate::source::AssetSource;
use crate::text::owned;

verus! {

/// One hold on a cached model. It is taken by `get_model_by_id` and given
/// back by `release`; it cannot be copied. It carries the identity of the
/// cache that handed it out, and no other cache takes it for its own.
#[derive(Debug, PartialEq, Eq)]
pub struct ModelHandle {
    cache: u64,
    slot: usize,
}

impl ModelHandle {
    /// The identity of the cache that handed the handle out.
    pub closed spec fn cache(&self) -> u64 {
        self.cache
    }
}

/// Draws a number from the seed of a fresh `RandomState`, which std makes
/// anew, and differently, for every instance. Nothing is claimed of it.
#[verifier::external_body]
fn fresh_identity() -> u64 {
    RandomState::new().hash_one(0u64)
}

impl View for ModelHandle {
    type V = int;

    closed spec fn view(&self) -> int {
        self.slot as int
    }
}

/// The place of one import in the cache.
struct CacheSlot {
    id: String,
    model: Option<Model>,
    holders: usize,
}

/// A slot of the cache as contracts see it: the id that was imported, the
/// model while it is kept, and the number of handles that hold it.
pub ghost struct SlotView {
    pub id: Seq<char>,
    pub model: Option<Model>,
    pub holders: nat,
}

/// Whether slot `slot` keeps a model for `id`.
pub open spec fn is_live(slots: Seq<SlotView>, slot: int, id: Seq<char>) -> bool {
    0 <= slot < slots.len() && slots[slot].id == id && slots[slot].model is Some
}

/// The slot that keeps a model for `id`, if there is one.
pub open spec fn live_slot(slots: Seq<SlotView>, id: Seq<char>) -> Option<int> {
    if exists|slot: int| is_live(slots, slot, id) {
        Some(choose|slot: int| is_live(slots, slot, id))
    } else {
        None
    }
}

/// What every cache holds to: a model is kept exactly while handles hold
/// it, and no id has two kept models.
pub open spec fn coherent(slots: Seq<SlotView>) -> bool {
    &&& forall|slot: int|
        0 <= slot < slots.len() ==> ((#[trigger] slots[slot]).model is Some <==> slots[slot].holders
            > 0)
    &&& forall|first: int, second: int|
        0 <= first < slots.len() && 0 <= second < slots.len() && (#[trigger] slots[first]).model
            is Some && (#[trigger] slots[second]).model is Some && slots[first].id
            == slots[second].id ==> first == second
}

/// The cache after one more handle to slot `slot` was handed out.
pub open spec fn retained(slots: Seq<SlotView>, slot: int) -> Seq<SlotView> {
    slots.update(slot, SlotView { holders: slots[slot].holders + 1, ..slots[slot] })
}

/// The cache after a fresh import for `id` was stored and its first handle
/// handed out: the model stands in a new slot at the end.
pub open spec fn admitted(slots: Seq<SlotView>, id: Seq<char>, model: Model) -> Seq<SlotView> {
    slots.push(SlotView { id, model: Some(model), holders: 1 })
}

/// The cache after a handle to slot `slot` came back: the model leaves with
/// its last handle.
pub open spec fn released(slots: Seq<SlotView>, slot: int) -> Seq<SlotView> {
    if 0 <= slot < slots.len() && slots[slot].holders > 0 {
        if slots[slot].holders == 1 {
            slots.update(slot, SlotView { holders: 0, model: None, ..slots[slot] })
        } else {
            slots.update(
                slot,
                SlotView { holders: (slots[slot].holders - 1) as nat, ..slots[slot] },
            )
        }
    } else {
        slots
    }
}

/// What to import for a request: where the model is stored, and in which format.
#[derive(Debug, PartialEq, Eq)]
pub struct ImportPlan {
    pub location: String,
    pub model_type: ModelType,
}

pub ghost struct ImportPlanView {
    pub location: Seq<char>,
    pub model_type: ModelType,
}

impl View for ImportPlan {
    type V = ImportPlanView;

    open spec fn view(&self) -> ImportPlanView {
        ImportPlanView { location: self.location@, model_type: self.model_type }
    }
}

/// What the record of `id` asks the cache to import: a failed lookup is
/// handed on; the asset must be a model, have a location, and declare a
/// format that an importer serves.
pub open spec fn planned(id: Seq<char>, record: Result<AssetView, ResultErrorView>) -> Result<
    ImportPlanView,
    ResultErrorView,
> {
    match record {
        Err(e) => Err(e),
        Ok(asset) => match asset.asset_type {
            AssetType::Texture => Err(ResultErrorView::NotAModel(id)),
            AssetType::Model(sub_type) => match asset.location {
                None => Err(ResultErrorView::LocationRequired(id)),
                Some(location) => match sub_type {
                    None => Err(ResultErrorView::UnsupportedSubtype(id)),
                    Some(model_type) => Ok(ImportPlanView { location, model_type }),
                },
            },
        },
    }
}

pub open spec fn plan_view(r: Result<ImportPlan, ResultError>) -> Result<
    ImportPlanView,
    ResultErrorView,
> {
    match r {
        Ok(plan) => Ok(plan@),
        Err(e) => Err(e@),
    }
}

pub open spec fn record_view(r: Result<Asset, ResultError>) -> Result<AssetView, ResultErrorView> {
    match r {
        Ok(asset) => Ok(asset@),
        Err(e) => Err(e@),
    }
}

/// Decides from the manifest's answer for `id` what is to be imported.
pub fn plan_import(id: &str, record: Result<Asset, ResultError>) -> (r: Result<
    ImportPlan,
    ResultError,
>)
    ensures
        plan_view(r) == planned(id@, record_view(record)),
{
    let asset = match record {
        Ok(asset) => asset,
        Err(e) => {
            return Err(e);
        },
    };
    let sub_type = match asset.asset_type {
        AssetType::Model(sub_type) => sub_type,
        AssetType::Texture => {
            return Err(ResultError::NotAModel(owned(id)));
        },
    };
    let location = match asset.location {
        Some(location) => location,
        None => {
            return Err(ResultError::LocationRequired(owned(id)));
        },
    };
    match sub_type {
        Some(model_type) => Ok(ImportPlan { location, model_type }),
        None => Err(ResultError::UnsupportedSubtype(owned(id))),
    }
}

/// The cache of imported models, over the manifest that says where an asset
/// is stored and the importer that reads it.
pub struct ModelManager<S: AssetSource, I: Importer> {
    identity: u64,
    model_map: StringHashMap<usize>,
    slots: Vec<CacheSlot>,
    asset_source: S,
    wavefront: I,
}

impl<S: AssetSource, I: Importer> View for ModelManager<S, I> {
    type V = Seq<SlotView>;

    closed spec fn view(&self) -> Seq<SlotView> {
        Seq::new(
            self.slots@.len(),
            |slot: int|
                SlotView {
                    id: self.slots@[slot].id@,
                    model: self.slots@[slot].model,
                    holders: self.slots@[slot].holders as nat,
                },
        )
    }
}

impl<S: AssetSource, I: Importer> ModelManager<S, I> {
    /// The table finds the slots: an id leads to a slot of that id, and
    /// every slot that keeps a model is the one its id leads to.
    pub closed spec fn well_formed(&self) -> bool {
        &&& coherent(self@)
        &&& forall|id: Seq<char>| #[trigger]
            self.model_map@.contains_key(id) ==> self.model_map@[id] < self.slots@.len()
                && self.slots@[self.model_map@[id] as int].id@ == id
        &&& forall|slot: int|
            0 <= slot < self.slots@.len() && (#[trigger] self.slots@[slot]).model is Some
                ==> self.model_map@.contains_key(self.slots@[slot].id@)
                && self.model_map@[self.slots@[slot].id@] == slot
    }

    /// What tells this cache from every other: its handles carry it.
    pub closed spec fn identity(&self) -> u64 {
        self.identity
    }

    /// A well-formed cache is coherent.
    pub proof fn lemma_coherent(&self)
        requires
            self.well_formed(),
        ensures
            coherent(self@),
    {
    }

    /// An empty cache.
    pub fn new(asset_source: S, wavefront: I) -> (cache: Self)
        ensures
            cache.well_formed(),
            cache@.len() == 0,
    {
        ModelManager {
            identity: fresh_identity(),
            model_map: StringHashMap::new(),
            slots: Vec::new(),
            asset_source,
            wavefront,
        }
    }

    /// The slot that keeps a model for `id`, if there is one.
    fn find_live(&self, id: &str) -> (slot: Option<usize>)
        requires
            self.well_formed(),
        ensures
            match slot {
                Some(slot) => live_slot(self@, id@) == Some(slot as int) && is_live(
                    self@,
                    slot as int,
                    id@,
                ),
                None => live_slot(self@, id@) is None,
            },
    {
        let slot = match self.model_map.get(id) {
            Some(slot) => *slot,
            None => {
                return None;
            },
        };
        if self.slots[slot].model.is_some() {
            assert(is_live(self@, slot as int, id@));
            Some(slot)
        } else {
            None
        }
    }

    /// Whether a model is kept for `id`.
    pub fn is_cached(&self, id: &str) -> (cached: bool)
        requires
            self.well_formed(),
        ensures
            cached == (live_slot(self@, id@) is Some),
    {
        self.find_live(id).is_some()
    }

    /// A further handle to the model kept for `id`, or `None` where none is
    /// kept. The cache changes by that handle only.
    pub fn lookup(&mut self, id: &str) -> (r: Result<Option<ModelHandle>, ResultError>)
        requires
            old(self).well_formed(),
        ensures
            final(self).well_formed(),
            final(self).identity() == old(self).identity(),
            match live_slot(old(self)@, id@) {
                None => r == Ok::<Option<ModelHandle>, ResultError>(None) && final(self)@ == old(
                    self,
                )@,
                Some(slot) => if old(self)@[slot].holders < usize::MAX {
                    &&& r is Ok
                    &&& r->Ok_0 is Some
                    &&& r->Ok_0->0@ == slot
                    &&& r->Ok_0->0.cache() == old(self).identity()
                    &&& final(self)@ == retained(old(self)@, slot)
                } else {
                    &&& r is Err
                    &&& r->Err_0@ == ResultErrorView::HandleLimitExceeded
                    &&& final(self)@ == old(self)@
                },
            },
    {
        let slot = match self.find_live(id) {
            Some(slot) => slot,
            None => {
                return Ok(None);
            },
        };
        if self.slots[slot].holders == usize::MAX {
            return Err(ResultError::HandleLimitExceeded);
        }
        let ghost before = self@;
        let entry = &mut self.slots[slot];
        entry.holders = entry.holders + 1;
        proof {
            assert(self@ =~= retained(before, slot as int));
        }
        Ok(Some(ModelHandle { cache: self.identity, slot }))
    }

    /// Stores what an import for `id` gave and hands out the first handle
    /// to it; a failed import is handed on and leaves the cache as it was.
    pub fn complete(&mut self, id: &str, outcome: Result<Model, ResultError>) -> (r: Result<
        ModelHandle,
        ResultError,
    >)
        requires
            old(self).well_formed(),
            live_slot(old(self)@, id@) is None,
        ensures
            final(self).well_formed(),
            final(self).identity() == old(self).identity(),
            match outcome {
                Ok(model) => r is Ok && r->Ok_0@ == old(self)@.len() && r->Ok_0.cache() == old(
                    self,
                ).identity() && final(self)@ == admitted(
                    old(self)@,
                    id@,
                    model,
                ),
                Err(e) => r == Err::<ModelHandle, ResultError>(e) && final(self)@ == old(self)@,
            },
    {
        let model = match outcome {
            Ok(model) => model,
            Err(e) => {
                return Err(e);
            },
        };
        let slot = self.slots.len();
        let ghost before = self@;
        self.slots.push(CacheSlot { id: owned(id), model: Some(model), holders: 1 });
        self.model_map.insert(owned(id), slot);
        proof {
            assert forall|other: int| 0 <= other < slot implies !(old(self).slots@[other].model
                is Some && old(self).slots@[other].id@ == id@) by {
                if old(self).slots@[other].model is Some && old(self).slots@[other].id@ == id@ {
                    assert(is_live(before, other, id@));
                }
            }
            assert(coherent(self@)) by {
                assert forall|s: int| 0 <= s < self@.len() implies ((#[trigger] self@[s]).model
                    is Some <==> self@[s].holders > 0) by {
                    if s < slot {
                        assert(self@[s] == before[s]);
                    }
                }
            }
        }
        Ok(ModelHandle { cache: self.identity, slot })
    }

    /// The model for `id`: the one that is kept, where one is, and else a
    /// fresh import of what the manifest says, which is then kept. A request
    /// that meets a kept model asks neither the manifest nor the importer.
    pub fn get_model_by_id(&mut self, id: &str) -> (r: Result<ModelHandle, ResultError>)
        requires
            old(self).well_formed(),
        ensures
            final(self).well_formed(),
            final(self).identity() == old(self).identity(),
            match live_slot(old(self)@, id@) {
                Some(slot) => if old(self)@[slot].holders < usize::MAX {
                    &&& r is Ok
                    &&& r->Ok_0@ == slot
                    &&& r->Ok_0.cache() == old(self).identity()
                    &&& final(self)@ == retained(old(self)@, slot)
                } else {
                    &&& r is Err
                    &&& r->Err_0@ == ResultErrorView::HandleLimitExceeded
                    &&& final(self)@ == old(self)@
                },
                None => match r {
                    Ok(handle) => handle@ == old(self)@.len() && handle.cache() == old(
                        self,
                    ).identity() && exists|model: Model|
                        final(self)@ == #[trigger] admitted(old(self)@, id@, model),
                    Err(_) => final(self)@ == old(self)@,
                },
            },
    {
        match self.lookup(id) {
            Ok(Some(handle)) => {
                return Ok(handle);
            },
            Ok(None) => {},
            Err(e) => {
                return Err(e);
            },
        }
        let record = self.asset_source.get_by_id(id);
        let plan = match plan_import(id, record) {
            Ok(plan) => plan,
            Err(e) => {
                return Err(e);
            },
        };
        let outcome = match plan.model_type {
            ModelType::Wavefront => self.wavefront.generate_model(plan.location.as_str()),
        };
        self.complete(id, outcome)
    }

    /// The model that a handle of this cache holds.
    pub fn model(&self, handle: &ModelHandle) -> (model: Option<&Model>)
        requires
            self.well_formed(),
        ensures
            match model {
                Some(model) => handle.cache() == self.identity() && 0 <= handle@ < self@.len()
                    && self@[handle@].model == Some(*model),
                None => handle.cache() != self.identity() || !(0 <= handle@ < self@.len())
                    || self@[handle@].model is None,
            },
    {
        if handle.cache == self.identity && handle.slot < self.slots.len() {
            self.slots[handle.slot].model.as_ref()
        } else {
            None
        }
    }

    /// Takes a handle back. With the last handle the model leaves the cache.
    /// A handle of another cache changes nothing.
    pub fn release(&mut self, handle: ModelHandle)
        requires
            old(self).well_formed(),
        ensures
            final(self).well_formed(),
            final(self).identity() == old(self).identity(),
            final(self)@ == if handle.cache() == old(self).identity() {
                released(old(self)@, handle@)
            } else {
                old(self)@
            },
    {
        let slot = handle.slot;
        if handle.cache != self.identity || slot >= self.slots.len() || self.slots[slot].holders
            == 0 {
            return ;
        }
        let ghost before = self@;
        let entry = &mut self.slots[slot];
        entry.holders = entry.holders - 1;
        if entry.holders == 0 {
            entry.model = None;
        }
        proof {
            assert(coherent(self@)) by {
                assert forall|s: int| 0 <= s < self@.len() implies ((#[trigger] self@[s]).model
                    is Some <==> self@[s].holders > 0) by {
                    if s != slot {
                        assert(self@[s] == before[s]);
                    }
                }
            }
        }
    }
}

/// Memoization. After a first request for `id` has imported `model`, and
/// while the handle it gave is held, the model is kept under `id`: a second
/// request meets it, gets a handle to the same slot, which holds the same
/// model, and stores no further import.
pub proof fn lemma_memoization(slots: Seq<SlotView>, id: Seq<char>, model: Model)
    requires
        coherent(slots),
        live_slot(slots, id) is None,
    ensures
        ({
            let first = admitted(slots, id, model);
            let second = retained(first, slots.len() as int);
            &&& coherent(first)
            &&& live_slot(first, id) == Some(slots.len() as int)
            &&& first[slots.len() as int].holders < usize::MAX
            &&& second.len() == first.len()
            &&& second[slots.len() as int].model == Some(model)
            &&& second[slots.len() as int].holders == 2
        }),
{
    let first = admitted(slots, id, model);
    let slot = slots.len() as int;
    assert(is_live(first, slot, id));
    assert(coherent(first)) by {
        assert forall|a: int, b: int|
            0 <= a < first.len() && 0 <= b < first.len() && (#[trigger] first[a]).model is Some && (
            #[trigger] first[b]).model is Some && first[a].id == first[b].id implies a == b by {
            if a < slot && b == slot {
                assert(is_live(slots, a, id));
            }
            if b < slot && a == slot {
                assert(is_live(slots, b, id));
            }
        }
    }
}

/// Reclamation. When the last handle to a kept model comes back, no model
/// is kept under its id any more, so that the next request for the id
/// imports again. While other handles are out, the model stays.
pub proof fn lemma_reclamation(slots: Seq<SlotView>, slot: int)
    requires
        coherent(slots),
        0 <= slot < slots.len(),
        slots[slot].holders > 0,
    ensures
        coherent(released(slots, slot)),
        slots[slot].holders == 1 ==> live_slot(released(slots, slot), slots[slot].id) is None,
        slots[slot].holders > 1 ==> live_slot(released(slots, slot), slots[slot].id) == Some(slot)
            && released(slots, slot)[slot].model == slots[slot].model,
{
    if slots[slot].holders > 1 {
        assert(is_live(released(slots, slot), slot, slots[slot].id));
    }
}

} // verus!
