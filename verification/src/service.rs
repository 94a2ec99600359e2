//! What the storage is asked, and how its answers are read.
//!
//! The statements themselves run outside this crate. A statement is named
//! here by a `Query`; its outcome comes back as plain values and is read by
//! the function that carries the operation's name.

use crate::model::{AddressRequest, AddressView, Asset, AssetView};
use uuid::Uuid;
use vstd::prelude::*;

verus! {

/// A statement against the table of assets, with the values it is bound to.
#[derive(Clone, Debug, PartialEq, Eq)]
pub enum Query {
    /// At most `limit` rows after the first `offset`, ordered by name and,
    /// among equal names, by identifier; and the count of all rows.
    List { limit: i64, offset: i64 },
    /// The row under `id`.
    Get { id: Uuid },
    /// A new row.
    Insert { asset: Asset },
    /// New name, description and address for the row under `id`.
    Update { id: Uuid, asset: Asset },
    /// Removal of the row under `id`.
    Delete { id: Uuid },
}

impl Query {
    /// Whether the statement can add a row to the table.
    pub open spec fn creates_row(self) -> bool {
        self is Insert
    }
}

/// A row as the storage returns it. The address is `None` where the stored
/// document does not have the shape of an address.
#[derive(Clone, Debug, PartialEq, Eq)]
pub struct StoredAsset {
    pub id: Uuid,
    pub name: String,
    pub description: String,
    pub address: Option<AddressRequest>,
}

impl StoredAsset {
    /// The asset that the row stands for. A row without a readable address
    /// stands for an asset whose address has every field empty.
    pub open spec fn decoded(self) -> AssetView {
        AssetView {
            id: self.id,
            name: self.name@,
            description: self.description@,
            address: match self.address {
                Some(address) => address@,
                None => AddressView::empty(),
            },
        }
    }

    /// Whether the row stores `asset`: its identifier, its name, its
    /// description, and its address as a document of the address's shape.
    pub open spec fn holds(self, asset: AssetView) -> bool {
        &&& self.id == asset.id
        &&& self.name@ == asset.name
        &&& self.description@ == asset.description
        &&& self.address matches Some(address)
        &&& address@ == asset.address
    }

    /// Reads the row.
    pub fn into_asset(self) -> (asset: Asset)
        ensures
            asset@ == self.decoded(),
    {
        let address = match self.address {
            Some(address) => address,
            None => AddressRequest::default(),
        };
        Asset { id: self.id, name: self.name, description: self.description, address }
    }
}

/// The assets that rows stand for, in the rows' order.
pub open spec fn decoded_rows(rows: Seq<StoredAsset>) -> Seq<AssetView> {
    Seq::new(rows.len(), |i: int| rows[i].decoded())
}

/// The views of assets, in their order.
pub open spec fn asset_views(assets: Seq<Asset>) -> Seq<AssetView> {
    Seq::new(assets.len(), |i: int| assets[i]@)
}

/// Reads the rows of a page, keeping their order.
pub fn list_assets(rows: Vec<StoredAsset>) -> (assets: Vec<Asset>)
    ensures
        asset_views(assets@) == decoded_rows(rows@),
{
    let ghost all = rows@;
    let mut assets: Vec<Asset> = Vec::new();
    for row in it: rows
        invariant
            it.seq() == all,
            assets@.len() == it.index(),
            forall|j: int| 0 <= j < assets@.len() ==> (#[trigger] assets@[j])@ == all[j].decoded(),
    {
        assets.push(row.into_asset());
    }
    assert(asset_views(assets@) =~= decoded_rows(all));
    assets
}

/// Reads the outcome of a lookup: the asset, or nothing where no row has
/// the identifier.
pub fn get_asset(row: Option<StoredAsset>) -> (found: Option<Asset>)
    ensures
        found is Some <==> row is Some,
        found matches Some(asset) ==> asset@ == row->0.decoded(),
{
    match row {
        Some(row) => Some(row.into_asset()),
        None => None,
    }
}

/// Reads the row that an insert returns: the asset as it is now stored.
pub fn create_asset(row: StoredAsset) -> (asset: Asset)
    ensures
        asset@ == row.decoded(),
{
    row.into_asset()
}

/// Reads the outcome of a replacement: the asset as it is now stored, or
/// nothing where no row has the identifier.
pub fn update_asset(row: Option<StoredAsset>) -> (updated: Option<Asset>)
    ensures
        updated is Some <==> row is Some,
        updated matches Some(asset) ==> asset@ == row->0.decoded(),
{
    match row {
        Some(row) => Some(row.into_asset()),
        None => None,
    }
}

/// Reads the outcome of a removal from the number of rows it touched:
/// whether a row was removed.
pub fn delete_asset(rows_affected: u64) -> (removed: bool)
    ensures
        removed == (rows_affected > 0),
{
    rows_affected > 0
}

} // verus!
