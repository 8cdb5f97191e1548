//! The trading account endpoint.

use crate::endpoint::{BuilderError, Endpoint, Method};
use std::borrow::Cow;
use vstd::prelude::*;

verus! {

/// Query information about the API calling user.
#[derive(Debug, Clone, Copy)]
pub struct TradingAccount {}

/// Builder for [`TradingAccount`].
#[derive(Debug, Clone, Copy)]
pub struct TradingAccountBuilder {}

/// Why a [`TradingAccountBuilder`] could not make its endpoint.
pub type TradingAccountBuilderError = BuilderError;

impl Default for TradingAccountBuilder {
    fn default() -> (b: Self)
        ensures
            b == (TradingAccountBuilder {  }),
    {
        TradingAccountBuilder {  }
    }
}

impl TradingAccountBuilder {
    /// Make the endpoint. It has no field to set, so this succeeds.
    pub fn build(&self) -> (r: Result<TradingAccount, TradingAccountBuilderError>)
        ensures
            r == Ok::<TradingAccount, TradingAccountBuilderError>(TradingAccount {  }),
    {
        Ok(TradingAccount {  })
    }
}

impl TradingAccount {
    /// Create a builder for the endpoint.
    pub fn builder() -> (b: TradingAccountBuilder)
        ensures
            b == (TradingAccountBuilder {  }),
    {
        TradingAccountBuilder::default()
    }
}

impl Endpoint for TradingAccount {
    fn method(&self) -> (r: Method)
        ensures
            r == Method::Get,
    {
        Method::Get
    }

    fn endpoint(&self) -> (r: Cow<'static, str>)
        ensures
            r@ == "account"@,
    {
        Cow::Borrowed("account")
    }
}

} // verus!
