//! The metadata store: the token's number of decimals, its name and its
//! symbol. Once made, a `Metadata` value offers no way to change it.

use crate::error::TokenError;
use vstd::prelude::*;

verus! {

/// What a `Metadata` value holds.
#[verifier::ext_equal]
pub struct MetadataView {
    /// The number of decimals in which amounts are displayed.
    pub decimal: u8,
    /// The token's name.
    pub name: Seq<u8>,
    /// The token's symbol.
    pub symbol: Seq<u8>,
}

impl MetadataView {
    /// The metadata of a token that has none yet.
    pub open spec fn unset() -> MetadataView {
        MetadataView { decimal: 0, name: Seq::empty(), symbol: Seq::empty() }
    }

    /// The metadata made of `decimal`, `name` and `symbol`, or
    /// `InvalidMetadata` when `decimal` does not fit in a `u8`.
    pub open spec fn checked(decimal: u32, name: Seq<u8>, symbol: Seq<u8>) -> Result<
        MetadataView,
        TokenError,
    > {
        if decimal > u8::MAX {
            Err(TokenError::InvalidMetadata)
        } else {
            Ok(MetadataView { decimal: decimal as u8, name, symbol })
        }
    }
}

/// The descriptive data of a token.
#[derive(Debug)]
pub struct Metadata {
    decimal: u8,
    name: Vec<u8>,
    symbol: Vec<u8>,
}

impl View for Metadata {
    type V = MetadataView;

    closed spec fn view(&self) -> MetadataView {
        MetadataView { decimal: self.decimal, name: self.name@, symbol: self.symbol@ }
    }
}

impl Metadata {
    /// The metadata of a token that has none yet: no decimals, an empty name
    /// and an empty symbol.
    pub fn unset() -> (metadata: Metadata)
        ensures
            metadata@ == MetadataView::unset(),
    {
        Metadata { decimal: 0, name: Vec::new(), symbol: Vec::new() }
    }

    /// The metadata made of `decimal`, `name` and `symbol`.
    ///
    /// Fails with `InvalidMetadata` if `decimal` does not fit in a `u8`.
    pub fn new(decimal: u32, name: Vec<u8>, symbol: Vec<u8>) -> (result: Result<
        Metadata,
        TokenError,
    >)
        ensures
            match MetadataView::checked(decimal, name@, symbol@) {
                Ok(view) => result is Ok && result->Ok_0@ == view,
                Err(e) => result is Err && result->Err_0 == e,
            },
    {
        if decimal > 255 {
            Err(TokenError::InvalidMetadata)
        } else {
            Ok(Metadata { decimal: decimal as u8, name, symbol })
        }
    }

    /// The number of decimals.
    pub fn decimal(&self) -> (decimal: u32)
        ensures
            decimal == self@.decimal,
    {
        self.decimal as u32
    }

    /// The name, byte for byte.
    pub fn name(&self) -> (name: Vec<u8>)
        ensures
            name@ == self@.name,
    {
        self.name.clone()
    }

    /// The symbol, byte for byte.
    pub fn symbol(&self) -> (symbol: Vec<u8>)
        ensures
            symbol@ == self@.symbol,
    {
        self.symbol.clone()
    }
}

} // verus!
