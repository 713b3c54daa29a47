//! The data model: a creature record held as plain values, and the static
//! catalog the resolver searches. A record is immutable once fetched and
//! replaced wholesale on each new lookup.

use vstd::prelude::*;

verus! {

/// One move of a creature: its name, how it is learned, the level it is
/// learned at, and the version group the detail belongs to. Only the
/// first version-group detail of the service's list is kept; which entry
/// is first is service-defined.
#[derive(Clone)]
pub struct MoveEntry {
    pub name: String,
    pub learn_method: String,
    pub level_learned_at: u32,
    pub version_group: String,
}

/// One base stat of a creature: the raw stat key as the service names it,
/// and the base value.
#[derive(Clone)]
pub struct StatEntry {
    pub stat_key: String,
    pub base_stat: u32,
}

/// A creature record as returned by the remote data service, reduced to
/// plain values: numeric identifier, canonical name, sprite reference
/// (stored, not rendered), ordered stats, and the ordered move list.
#[derive(Clone)]
pub struct Pokemon {
    pub id: u32,
    pub name: String,
    pub sprite: String,
    pub stats: Vec<StatEntry>,
    pub moves: Vec<MoveEntry>,
}

/// One entry of the static catalog: a canonical display name and the
/// identifier (slug) used to request the detail record.
#[derive(Clone)]
pub struct CatalogEntry {
    pub name: String,
    pub ident: String,
}

/// One entry of the stat-label translation table: a raw stat key as the
/// service names it, and the human-readable label the renderer shows.
#[derive(Clone)]
pub struct StatLabel {
    pub key: String,
    pub label: String,
}

} // verus!
