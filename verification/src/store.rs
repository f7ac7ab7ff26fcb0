//! The venue state store: the market, its latest statistics, the assets and
//! the latest position of each account, kept as one value that the feeds
//! write and the engine reads.
//!
//! The store is plain data. Whoever shares it between tasks guards it with
//! one lock, so that each operation below is seen as a whole or not at all.

use crate::market::{
    Asset, AssetView, Market, MarketData, MarketDataView, MarketView, Position, PositionView,
};
use vstd::hash_map::StringHashMap;
use vstd::pervasive::unreached;
use vstd::prelude::*;

verus! {

/// The mathematical value of a [`VegaStore`].
pub struct StoreView {
    pub market: MarketView,
    pub market_data: MarketDataView,
    /// The latest position of each account, by the account's identifier.
    pub positions: Map<Seq<char>, PositionView>,
    /// The assets, by their identifier.
    pub assets: Map<Seq<char>, AssetView>,
}

/// The assets of a list by their identifier. Of two assets with one
/// identifier the later one stays.
pub open spec fn index_assets(assets: Seq<AssetView>) -> Map<Seq<char>, AssetView>
    decreases assets.len(),
{
    if assets.len() == 0 {
        Map::empty()
    } else {
        index_assets(assets.drop_last()).insert(assets.last().id, assets.last())
    }
}

impl StoreView {
    /// The store as it is once the market, its statistics and the assets
    /// are loaded: no position is known yet.
    pub open spec fn initial(
        market: MarketView,
        market_data: MarketDataView,
        assets: Seq<AssetView>,
    ) -> StoreView {
        StoreView { market, market_data, positions: Map::empty(), assets: index_assets(assets) }
    }

    /// The store after the market statistics are replaced by `md`.
    pub open spec fn save_market_data(self, md: MarketDataView) -> StoreView {
        StoreView { market_data: md, ..self }
    }

    /// The store after the entry of the account of `p` is replaced by `p`.
    pub open spec fn save_position(self, p: PositionView) -> StoreView {
        StoreView { positions: self.positions.insert(p.party_id, p), ..self }
    }

    /// The store after each position of the list has replaced the entry of
    /// its account, in the order of the list.
    pub open spec fn save_positions(self, ps: Seq<PositionView>) -> StoreView
        decreases ps.len(),
    {
        if ps.len() == 0 {
            self
        } else {
            self.save_positions(ps.drop_last()).save_position(ps.last())
        }
    }

    /// The position of an account, if one is known.
    pub open spec fn position(self, party_id: Seq<char>) -> Option<PositionView> {
        if self.positions.contains_key(party_id) {
            Some(self.positions[party_id])
        } else {
            None
        }
    }

    /// The open volume of an account: zero where no position is known.
    pub open spec fn open_volume(self, party_id: Seq<char>) -> int {
        match self.position(party_id) {
            Some(p) => p.open_volume,
            None => 0,
        }
    }
}

/// Replacing the entry of an account by the position that it already
/// holds leaves the store as it was, and replacing it twice by one position
/// is the same as replacing it once.
pub proof fn lemma_save_position_idempotent(s: StoreView, p: PositionView)
    ensures
        s.position(p.party_id) == Some(p) ==> s.save_position(p) == s,
        s.save_position(p).save_position(p) == s.save_position(p),
        s.save_positions(seq![p]) == s.save_position(p),
{
    if s.position(p.party_id) == Some(p) {
        assert(s.positions.insert(p.party_id, p) =~= s.positions);
    }
    assert(s.positions.insert(p.party_id, p).insert(p.party_id, p) =~= s.positions.insert(
        p.party_id,
        p,
    ));
    assert(seq![p].drop_last() =~= Seq::<PositionView>::empty());
    assert(s.save_positions(seq![p].drop_last()) == s);
}

/// After a position is saved the store holds it for its account, and the
/// entry of every other account is as before.
pub proof fn lemma_save_position_reads_back(s: StoreView, p: PositionView, other: Seq<char>)
    ensures
        s.save_position(p).position(p.party_id) == Some(p),
        other != p.party_id ==> s.save_position(p).position(other) == s.position(other),
{
}

/// The market statistics are replaced as a whole: after two updates the
/// store holds the second one and nothing of the first, and nothing else of
/// the store has changed.
pub proof fn lemma_market_data_replaced(s: StoreView, first: MarketDataView, second: MarketDataView)
    ensures
        s.save_market_data(first).save_market_data(second) == s.save_market_data(second),
        s.save_market_data(second).market_data == second,
        s.save_market_data(second).market == s.market,
        s.save_market_data(second).positions == s.positions,
        s.save_market_data(second).assets == s.assets,
{
}

/// Saving positions changes the positions of a store and nothing else.
pub proof fn lemma_save_positions_keeps_rest(s: StoreView, ps: Seq<PositionView>)
    ensures
        s.save_positions(ps).market == s.market,
        s.save_positions(ps).market_data == s.market_data,
        s.save_positions(ps).assets == s.assets,
    decreases ps.len(),
{
    if ps.len() > 0 {
        lemma_save_positions_keeps_rest(s, ps.drop_last());
    }
}

/// Nothing is ever deleted: an account that the store knows is still known
/// after any positions are saved.
pub proof fn lemma_positions_are_kept(s: StoreView, ps: Seq<PositionView>, party_id: Seq<char>)
    ensures
        s.position(party_id) is Some ==> s.save_positions(ps).position(party_id) is Some,
    decreases ps.len(),
{
    if ps.len() > 0 {
        lemma_positions_are_kept(s, ps.drop_last(), party_id);
    }
}

/// The views of a list of positions.
pub open spec fn position_views(ps: Seq<Position>) -> Seq<PositionView> {
    ps.map_values(|p: Position| p@)
}

/// The views of a list of assets.
pub open spec fn asset_views(assets: Seq<Asset>) -> Seq<AssetView> {
    assets.map_values(|a: Asset| a@)
}

/// The views of the positions of a map.
spec fn positions_view(m: Map<Seq<char>, Position>) -> Map<Seq<char>, PositionView> {
    m.map_values(|p: Position| p@)
}

/// The views of the assets of a map.
spec fn assets_view(m: Map<Seq<char>, Asset>) -> Map<Seq<char>, AssetView> {
    m.map_values(|a: Asset| a@)
}

/// Whether `ids` lists the keys of `assets`, none twice, and each asset is
/// filed under its own identifier.
spec fn listed(assets: Map<Seq<char>, Asset>, ids: Seq<String>) -> bool {
    &&& forall|k: Seq<char>| #[trigger] assets.contains_key(k) ==> assets[k].id@ == k
    &&& forall|i: int, j: int| 0 <= i < j < ids.len() ==> ids[i]@ != ids[j]@
    &&& forall|i: int| 0 <= i < ids.len() ==> assets.contains_key(#[trigger] ids[i]@)
    &&& forall|k: Seq<char>| #[trigger]
        assets.contains_key(k) ==> exists|i: int| 0 <= i < ids.len() && #[trigger] ids[i]@ == k
}

/// A listing stays one when an asset is filed under its identifier, and the
/// identifier is added to the list if it was not a key before.
proof fn lemma_listed_after_insert(
    assets: Map<Seq<char>, Asset>,
    ids: Seq<String>,
    id: String,
    asset: Asset,
)
    requires
        listed(assets, ids),
        asset.id@ == id@,
    ensures
        assets.contains_key(id@) ==> listed(assets.insert(id@, asset), ids),
        !assets.contains_key(id@) ==> listed(assets.insert(id@, asset), ids.push(id)),
{
    let after = assets.insert(id@, asset);
    let longer = ids.push(id);
    if assets.contains_key(id@) {
        assert forall|k: Seq<char>| #[trigger] after.contains_key(k) implies exists|i: int|
            0 <= i < ids.len() && #[trigger] ids[i]@ == k by {
            assert(assets.contains_key(k));
        }
    } else {
        assert forall|k: Seq<char>| #[trigger] after.contains_key(k) implies exists|i: int|
            0 <= i < longer.len() && #[trigger] longer[i]@ == k by {
            if assets.contains_key(k) {
                let i = choose|i: int| 0 <= i < ids.len() && #[trigger] ids[i]@ == k;
                assert(longer[i]@ == k);
            } else {
                assert(longer[ids.len() as int]@ == k);
            }
        }
    }
}

/// The venue state store.
pub struct VegaStore {
    market: Market,
    market_data: MarketData,
    positions: StringHashMap<Position>,
    assets: StringHashMap<Asset>,
    /// The identifiers of the assets, each once, in the order of arrival.
    asset_ids: Vec<String>,
}

impl View for VegaStore {
    type V = StoreView;

    closed spec fn view(&self) -> StoreView {
        StoreView {
            market: self.market@,
            market_data: self.market_data@,
            positions: positions_view(self.positions@),
            assets: assets_view(self.assets@),
        }
    }
}

impl VegaStore {
    #[verifier::type_invariant]
    spec fn inv(self) -> bool {
        listed(self.assets@, self.asset_ids@)
    }

    /// The store once the market, its latest statistics and the full list of
    /// assets are fetched.
    pub fn new(market: Market, market_data: MarketData, assets: Vec<Asset>) -> (store: VegaStore)
        ensures
            store@ == StoreView::initial(market@, market_data@, asset_views(assets@)),
    {
        let mut by_id: StringHashMap<Asset> = StringHashMap::new();
        let mut ids: Vec<String> = Vec::new();
        let mut i: usize = 0;
        while i < assets.len()
            invariant
                i <= assets.len(),
                assets_view(by_id@) == index_assets(asset_views(assets@).take(i as int)),
                listed(by_id@, ids@),
            decreases assets.len() - i,
        {
            let asset = assets[i].clone();
            let id = asset.id.clone();
            proof {
                let views = asset_views(assets@);
                assert(views.take(i as int + 1).drop_last() =~= views.take(i as int));
                assert(views.take(i as int + 1).last() == asset@);
                assert(assets_view(by_id@.insert(id@, asset)) =~= assets_view(by_id@).insert(
                    asset@.id,
                    asset@,
                ));
                lemma_listed_after_insert(by_id@, ids@, id, asset);
            }
            if !by_id.contains_key(id.as_str()) {
                ids.push(id.clone());
            }
            by_id.insert(id, asset);
            i += 1;
        }
        let positions: StringHashMap<Position> = StringHashMap::new();
        proof {
            assert(asset_views(assets@).take(i as int) =~= asset_views(assets@));
            assert(positions_view(positions@) =~= Map::<Seq<char>, PositionView>::empty());
        }
        VegaStore { market, market_data, positions, assets: by_id, asset_ids: ids }
    }

    /// The market definition.
    pub fn get_market(&self) -> (market: Market)
        ensures
            market@ == self@.market,
    {
        self.market.clone()
    }

    /// The latest market statistics.
    pub fn get_market_data(&self) -> (md: MarketData)
        ensures
            md@ == self@.market_data,
    {
        self.market_data.clone()
    }

    /// Whether the store holds an asset of this identifier.
    pub fn has_asset(&self, id: &str) -> (known: bool)
        ensures
            known == self@.assets.contains_key(id@),
    {
        self.assets.contains_key(id)
    }

    /// The asset of this identifier, which the store must hold: every asset
    /// of the venue is loaded when the store is made.
    pub fn get_asset(&self, id: String) -> (asset: Asset)
        requires
            self@.assets.contains_key(id@),
        ensures
            asset@ == self@.assets[id@],
    {
        match self.assets.get(id.as_str()) {
            Some(found) => found.clone(),
            None => unreached(),
        }
    }

    /// The latest position of the account, or `None` where no update for it
    /// has come yet, which stands for a flat position.
    pub fn get_position(&self, party_id: &str) -> (position: Option<Position>)
        ensures
            match position {
                Some(p) => self@.position(party_id@) == Some(p@),
                None => self@.position(party_id@) is None,
            },
    {
        match self.positions.get(party_id) {
            Some(found) => Some(found.clone()),
            None => None,
        }
    }

    /// Every asset of the store, each once.
    pub fn get_assets(&self) -> (assets: Vec<Asset>)
        ensures
            forall|i: int|
                0 <= i < assets.len() ==> self@.assets.contains_key(#[trigger] assets[i]@.id)
                    && self@.assets[assets[i]@.id] == assets[i]@,
            forall|k: Seq<char>| #[trigger]
                self@.assets.contains_key(k) ==> exists|i: int|
                    0 <= i < assets.len() && #[trigger] assets[i]@.id == k,
            forall|i: int, j: int| 0 <= i < j < assets.len() ==> assets[i]@.id != assets[j]@.id,
    {
        proof {
            use_type_invariant(self);
        }
        let mut out: Vec<Asset> = Vec::new();
        let mut i: usize = 0;
        while i < self.asset_ids.len()
            invariant
                i <= self.asset_ids.len(),
                out.len() == i,
                listed(self.assets@, self.asset_ids@),
                forall|a: int|
                    0 <= a < i ==> (#[trigger] out[a])@ == self.assets@[self.asset_ids[a]@]@,
            decreases self.asset_ids.len() - i,
        {
            match self.assets.get(self.asset_ids[i].as_str()) {
                Some(found) => {
                    out.push(found.clone());
                },
                None => {
                    // every listed identifier is a key of the map
                    unreached()
                },
            }
            i += 1;
        }
        proof {
            assert forall|k: Seq<char>| #[trigger] self@.assets.contains_key(k) implies exists|
                a: int,
            | 0 <= a < out.len() && #[trigger] out[a]@.id == k by {
                assert(self.assets@.contains_key(k));
                let a = choose|a: int|
                    0 <= a < self.asset_ids.len() && #[trigger] self.asset_ids[a]@ == k;
                assert(self.assets@.contains_key(self.asset_ids[a]@));
                assert(out[a]@.id == k);
            }
            assert forall|a: int| 0 <= a < out.len() implies self@.assets.contains_key(
                #[trigger] out[a]@.id,
            ) && self@.assets[out[a]@.id] == out[a]@ by {
                assert(self.assets@.contains_key(self.asset_ids[a]@));
            }
            assert forall|a: int, b: int| 0 <= a < b < out.len() implies out[a]@.id
                != out[b]@.id by {
                assert(self.assets@.contains_key(self.asset_ids[a]@));
                assert(self.assets@.contains_key(self.asset_ids[b]@));
            }
        }
        out
    }

    /// Replaces the entry of each listed account by the listed position, in
    /// the order of the list. Nothing else of the store changes.
    pub fn save_positions(&mut self, positions: Vec<Position>)
        ensures
            final(self)@ == old(self)@.save_positions(position_views(positions@)),
            final(self)@.market == old(self)@.market,
            final(self)@.market_data == old(self)@.market_data,
            final(self)@.assets == old(self)@.assets,
    {
        proof {
            use_type_invariant(&*self);
        }
        // the map is taken out for the time of the update and put back whole
        let mut by_party: StringHashMap<Position> = StringHashMap::new();
        std::mem::swap(&mut by_party, &mut self.positions);
        let mut i: usize = 0;
        while i < positions.len()
            invariant
                i <= positions.len(),
                positions_view(by_party@) == old(self)@.save_positions(
                    position_views(positions@).take(i as int),
                ).positions,
            decreases positions.len() - i,
        {
            let p = positions[i].clone();
            proof {
                let views = position_views(positions@);
                assert(views.take(i as int + 1).drop_last() =~= views.take(i as int));
                assert(views.take(i as int + 1).last() == p@);
                assert(positions_view(by_party@.insert(p.party_id@, p)) =~= positions_view(
                    by_party@,
                ).insert(p@.party_id, p@));
            }
            by_party.insert(p.party_id.clone(), p);
            i += 1;
        }
        self.positions = by_party;
        proof {
            assert(position_views(positions@).take(i as int) =~= position_views(positions@));
            lemma_save_positions_keeps_rest(old(self)@, position_views(positions@));
        }
    }

    /// Replaces the market statistics by `md` as a whole. Nothing else of
    /// the store changes.
    pub fn save_market_data(&mut self, md: MarketData)
        ensures
            final(self)@ == old(self)@.save_market_data(md@),
    {
        proof {
            use_type_invariant(&*self);
        }
        self.market_data = md;
    }
}

} // verus!
