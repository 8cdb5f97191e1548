//! The asset endpoint.

use crate::endpoint::{Endpoint, Method};
use std::borrow::Cow;
use vstd::prelude::*;

verus! {

/// Query one asset, by its symbol or by its identifier.
#[derive(Debug, Clone)]
pub struct Asset {
    symbol_or_asset_id: String,
}

impl View for Asset {
    type V = Seq<char>;

    /// The symbol or identifier of the asset.
    closed spec fn view(&self) -> Seq<char> {
        self.symbol_or_asset_id@
    }
}

/// Builder for [`Asset`]. `F` tells which fields have been set: the
/// endpoint can be built once the symbol is there.
#[derive(Debug, Clone)]
pub struct AssetBuilder<F> {
    fields: F,
}

impl Asset {
    /// Create a builder for the endpoint, with no field set.
    pub fn builder() -> (b: AssetBuilder<((),)>)
        ensures
            b == AssetBuilder::unset(),
    {
        AssetBuilder { fields: ((),) }
    }
}

impl AssetBuilder<((),)> {
    /// The builder on which no field is set yet.
    pub closed spec fn unset() -> Self {
        AssetBuilder { fields: ((),) }
    }

    /// Set the symbol or the identifier of the asset.
    pub fn symbol_or_asset_id(self, symbol_or_asset_id: String) -> (b: AssetBuilder<((String,),)>)
        ensures
            b.symbol() == symbol_or_asset_id,
    {
        AssetBuilder { fields: ((symbol_or_asset_id,),) }
    }
}

impl AssetBuilder<((String,),)> {
    /// The symbol or identifier that was set.
    pub closed spec fn symbol(self) -> String {
        self.fields.0.0
    }

    /// Make the endpoint.
    pub fn build(self) -> (asset: Asset)
        ensures
            asset@ == self.symbol()@,
    {
        Asset { symbol_or_asset_id: self.fields.0.0 }
    }
}

impl Endpoint for Asset {
    fn method(&self) -> (r: Method)
        ensures
            r == Method::Get,
    {
        Method::Get
    }

    fn endpoint(&self) -> (r: Cow<'static, str>)
        ensures
            r@ == "assets/"@ + self@,
    {
        Cow::Owned(String::from_str("assets/").concat(self.symbol_or_asset_id.as_str()))
    }
}

} // verus!
