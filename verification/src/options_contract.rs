//! The option contracts endpoint.

use crate::endpoint::{BuilderError, Endpoint, Method};
use std::borrow::Cow;
use vstd::prelude::*;

verus! {

/// Query the option contracts.
#[derive(Debug, Clone, Copy)]
pub struct OptionsContract {}

/// Builder for [`OptionsContract`].
#[derive(Debug, Clone, Copy)]
pub struct OptionsContractBuilder {}

/// Why a [`OptionsContractBuilder`] could not make its endpoint.
pub type OptionsContractBuilderError = BuilderError;

impl Default for OptionsContractBuilder {
    fn default() -> (b: Self)
        ensures
            b == (OptionsContractBuilder {  }),
    {
        OptionsContractBuilder {  }
    }
}

impl OptionsContractBuilder {
    /// Make the endpoint. It has no field to set, so this succeeds.
    pub fn build(&self) -> (r: Result<OptionsContract, OptionsContractBuilderError>)
        ensures
            r == Ok::<OptionsContract, OptionsContractBuilderError>(OptionsContract {  }),
    {
        Ok(OptionsContract {  })
    }
}

impl OptionsContract {
    /// Create a builder for the endpoint.
    pub fn builder() -> (b: OptionsContractBuilder)
        ensures
            b == (OptionsContractBuilder {  }),
    {
        OptionsContractBuilder::default()
    }
}

impl Endpoint for OptionsContract {
    fn method(&self) -> (r: Method)
        ensures
            r == Method::Get,
    {
        Method::Get
    }

    fn endpoint(&self) -> (r: Cow<'static, str>)
        ensures
            r@ == "options/contracts"@,
    {
        Cow::Borrowed("options/contracts")
    }
}

} // verus!
