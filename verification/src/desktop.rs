//! The adapter of a desktop without a store: every operation is refused.

use crate::error::{unsupported_text, IapError, IapErrorModel};
use crate::models::{
    AcknowledgePurchaseResponse, GetProductsResponse, GetPurchaseHistoryResponse,
    InitializeResponse, ProductStatus, Purchase, RestorePurchasesResponse,
};
use vstd::prelude::*;

verus! {

/// The failure with which every operation is refused.
pub open spec fn unsupported_model() -> IapErrorModel {
    IapErrorModel::Io(unsupported_text("IAP"@))
}

fn unsupported() -> (r: IapError)
    ensures
        r@ == unsupported_model(),
{
    IapError::unsupported("IAP")
}

/// Access to the iap APIs.
#[derive(Debug, Clone, Copy)]
pub struct Iap;

impl Iap {
    pub fn initialize(&self) -> (r: Result<InitializeResponse, IapError>)
        ensures
            r matches Err(failure) && failure@ == unsupported_model(),
    {
        Err(unsupported())
    }

    pub fn get_products(&self, _product_ids: Vec<String>, _product_type: String) -> (r: Result<
        GetProductsResponse,
        IapError,
    >)
        ensures
            r matches Err(failure) && failure@ == unsupported_model(),
    {
        Err(unsupported())
    }

    pub fn purchase(
        &self,
        _product_id: String,
        _product_type: String,
        _offer_token: Option<String>,
    ) -> (r: Result<Purchase, IapError>)
        ensures
            r matches Err(failure) && failure@ == unsupported_model(),
    {
        Err(unsupported())
    }

    pub fn restore_purchases(&self, _product_type: String) -> (r: Result<
        RestorePurchasesResponse,
        IapError,
    >)
        ensures
            r matches Err(failure) && failure@ == unsupported_model(),
    {
        Err(unsupported())
    }

    pub fn get_purchase_history(&self) -> (r: Result<GetPurchaseHistoryResponse, IapError>)
        ensures
            r matches Err(failure) && failure@ == unsupported_model(),
    {
        Err(unsupported())
    }

    pub fn acknowledge_purchase(&self, _purchase_token: String) -> (r: Result<
        AcknowledgePurchaseResponse,
        IapError,
    >)
        ensures
            r matches Err(failure) && failure@ == unsupported_model(),
    {
        Err(unsupported())
    }

    pub fn get_product_status(&self, _product_id: String, _product_type: String) -> (r: Result<
        ProductStatus,
        IapError,
    >)
        ensures
            r matches Err(failure) && failure@ == unsupported_model(),
    {
        Err(unsupported())
    }
}

} // verus!
