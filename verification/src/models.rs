//! The domain model that every backend produces: products, subscription
//! offers, purchases, purchase history and ownership status.
//!
//! Each type that holds text has a model, its mathematical value, in which a
//! string is a sequence of characters and a vector a sequence of models. The
//! contracts of the library speak of these models.

use vstd::prelude::*;

verus! {

/// An optional machine integer as an optional mathematical one.
pub open spec fn number(value: Option<i64>) -> Option<int> {
    match value {
        Some(v) => Some(v as int),
        None => None,
    }
}

#[derive(Debug)]
pub struct InitializeRequest {}

#[derive(Debug, Clone, PartialEq, Eq, Structural)]
pub struct InitializeResponse {
    pub success: bool,
}

impl Default for InitializeResponse {
    fn default() -> (r: InitializeResponse)
        ensures
            r == (InitializeResponse { success: false }),
    {
        InitializeResponse { success: false }
    }
}

#[derive(Debug)]
pub struct GetProductsRequest {
    pub product_ids: Vec<String>,
    pub product_type: String,
}

/// The product type that a request has when it names none.
pub fn default_product_type() -> (r: String)
    ensures
        r@ == "subs"@,
{
    String::from_str("subs")
}

#[derive(Debug, Clone)]
pub struct PricingPhase {
    pub formatted_price: String,
    pub price_currency_code: String,
    pub price_amount_micros: i64,
    pub billing_period: String,
    pub billing_cycle_count: i32,
    pub recurrence_mode: i32,
}

pub struct PricingPhaseModel {
    pub formatted_price: Seq<char>,
    pub price_currency_code: Seq<char>,
    pub price_amount_micros: int,
    pub billing_period: Seq<char>,
    pub billing_cycle_count: int,
    pub recurrence_mode: int,
}

impl DeepView for PricingPhase {
    type V = PricingPhaseModel;

    open spec fn deep_view(&self) -> PricingPhaseModel {
        PricingPhaseModel {
            formatted_price: self.formatted_price@,
            price_currency_code: self.price_currency_code@,
            price_amount_micros: self.price_amount_micros as int,
            billing_period: self.billing_period@,
            billing_cycle_count: self.billing_cycle_count as int,
            recurrence_mode: self.recurrence_mode as int,
        }
    }
}

impl View for PricingPhase {
    type V = PricingPhaseModel;

    open spec fn view(&self) -> PricingPhaseModel {
        self.deep_view()
    }
}

#[derive(Debug, Clone)]
pub struct SubscriptionOffer {
    pub offer_token: String,
    pub base_plan_id: String,
    pub offer_id: Option<String>,
    pub pricing_phases: Vec<PricingPhase>,
}

pub struct SubscriptionOfferModel {
    pub offer_token: Seq<char>,
    pub base_plan_id: Seq<char>,
    pub offer_id: Option<Seq<char>>,
    pub pricing_phases: Seq<PricingPhaseModel>,
}

impl DeepView for SubscriptionOffer {
    type V = SubscriptionOfferModel;

    open spec fn deep_view(&self) -> SubscriptionOfferModel {
        SubscriptionOfferModel {
            offer_token: self.offer_token@,
            base_plan_id: self.base_plan_id@,
            offer_id: self.offer_id.deep_view(),
            pricing_phases: self.pricing_phases.deep_view(),
        }
    }
}

impl View for SubscriptionOffer {
    type V = SubscriptionOfferModel;

    open spec fn view(&self) -> SubscriptionOfferModel {
        self.deep_view()
    }
}

#[derive(Debug, Clone)]
pub struct Product {
    pub product_id: String,
    pub title: String,
    pub description: String,
    pub product_type: String,
    pub formatted_price: Option<String>,
    pub price_currency_code: Option<String>,
    pub price_amount_micros: Option<i64>,
    pub subscription_offer_details: Option<Vec<SubscriptionOffer>>,
}

pub struct ProductModel {
    pub product_id: Seq<char>,
    pub title: Seq<char>,
    pub description: Seq<char>,
    pub product_type: Seq<char>,
    pub formatted_price: Option<Seq<char>>,
    pub price_currency_code: Option<Seq<char>>,
    pub price_amount_micros: Option<int>,
    pub subscription_offer_details: Option<Seq<SubscriptionOfferModel>>,
}

impl DeepView for Product {
    type V = ProductModel;

    open spec fn deep_view(&self) -> ProductModel {
        ProductModel {
            product_id: self.product_id@,
            title: self.title@,
            description: self.description@,
            product_type: self.product_type@,
            formatted_price: self.formatted_price.deep_view(),
            price_currency_code: self.price_currency_code.deep_view(),
            price_amount_micros: number(self.price_amount_micros),
            subscription_offer_details: self.subscription_offer_details.deep_view(),
        }
    }
}

impl View for Product {
    type V = ProductModel;

    open spec fn view(&self) -> ProductModel {
        self.deep_view()
    }
}

#[derive(Debug, Clone)]
pub struct GetProductsResponse {
    pub products: Vec<Product>,
}

impl DeepView for GetProductsResponse {
    type V = Seq<ProductModel>;

    open spec fn deep_view(&self) -> Seq<ProductModel> {
        self.products.deep_view()
    }
}

impl View for GetProductsResponse {
    type V = Seq<ProductModel>;

    open spec fn view(&self) -> Seq<ProductModel> {
        self.deep_view()
    }
}

#[derive(Debug, Clone)]
pub struct PurchaseOptions {
    pub offer_token: Option<String>,
    pub obfuscated_account_id: Option<String>,
    pub obfuscated_profile_id: Option<String>,
}

#[derive(Debug)]
pub struct PurchaseRequest {
    pub product_id: String,
    pub product_type: String,
    pub options: Option<PurchaseOptions>,
}

#[derive(Debug, Clone)]
pub struct Purchase {
    pub order_id: Option<String>,
    pub package_name: String,
    pub product_id: String,
    pub purchase_time: i64,
    pub purchase_token: String,
    pub purchase_state: i32,
    pub is_auto_renewing: bool,
    pub is_acknowledged: bool,
    pub original_json: String,
    pub signature: String,
}

pub struct PurchaseModel {
    pub order_id: Option<Seq<char>>,
    pub package_name: Seq<char>,
    pub product_id: Seq<char>,
    pub purchase_time: int,
    pub purchase_token: Seq<char>,
    pub purchase_state: int,
    pub is_auto_renewing: bool,
    pub is_acknowledged: bool,
    pub original_json: Seq<char>,
    pub signature: Seq<char>,
}

impl DeepView for Purchase {
    type V = PurchaseModel;

    open spec fn deep_view(&self) -> PurchaseModel {
        PurchaseModel {
            order_id: self.order_id.deep_view(),
            package_name: self.package_name@,
            product_id: self.product_id@,
            purchase_time: self.purchase_time as int,
            purchase_token: self.purchase_token@,
            purchase_state: self.purchase_state as int,
            is_auto_renewing: self.is_auto_renewing,
            is_acknowledged: self.is_acknowledged,
            original_json: self.original_json@,
            signature: self.signature@,
        }
    }
}

impl View for Purchase {
    type V = PurchaseModel;

    open spec fn view(&self) -> PurchaseModel {
        self.deep_view()
    }
}

#[derive(Debug, Clone)]
pub struct RestorePurchasesRequest {
    pub product_type: String,
}

#[derive(Debug, Clone)]
pub struct RestorePurchasesResponse {
    pub purchases: Vec<Purchase>,
}

impl DeepView for RestorePurchasesResponse {
    type V = Seq<PurchaseModel>;

    open spec fn deep_view(&self) -> Seq<PurchaseModel> {
        self.purchases.deep_view()
    }
}

impl View for RestorePurchasesResponse {
    type V = Seq<PurchaseModel>;

    open spec fn view(&self) -> Seq<PurchaseModel> {
        self.deep_view()
    }
}

#[derive(Debug, Clone)]
pub struct PurchaseHistoryRecord {
    pub product_id: String,
    pub purchase_time: i64,
    pub purchase_token: String,
    pub quantity: i32,
    pub original_json: String,
    pub signature: String,
}

#[derive(Debug, Clone)]
pub struct GetPurchaseHistoryResponse {
    pub history: Vec<PurchaseHistoryRecord>,
}

#[derive(Debug)]
pub struct AcknowledgePurchaseRequest {
    pub purchase_token: String,
}

#[derive(Debug, Clone, PartialEq, Eq, Structural)]
pub struct AcknowledgePurchaseResponse {
    pub success: bool,
}

/// The state of a purchase. On the wire it is the integer 0 (purchased),
/// 1 (canceled) or 2 (pending).
#[derive(Debug, Clone, Copy, PartialEq, Eq, Structural)]
pub enum PurchaseStateValue {
    Purchased,
    Canceled,
    Pending,
}

/// The wire integer of a purchase state.
pub open spec fn purchase_state_code(state: PurchaseStateValue) -> int {
    match state {
        PurchaseStateValue::Purchased => 0,
        PurchaseStateValue::Canceled => 1,
        PurchaseStateValue::Pending => 2,
    }
}

/// The message with which an integer that names no purchase state is
/// refused.
pub open spec fn invalid_purchase_state_text(value: i32) -> Seq<char> {
    "Invalid purchase state: "@ + crate::text::signed_decimal(value as int)
}

impl PurchaseStateValue {
    /// The integer that goes on the wire.
    pub fn serialize(&self) -> (r: i32)
        ensures
            r == purchase_state_code(*self),
    {
        match self {
            PurchaseStateValue::Purchased => 0,
            PurchaseStateValue::Canceled => 1,
            PurchaseStateValue::Pending => 2,
        }
    }

    /// Reads a wire integer: 0, 1 and 2 name a state, and every other
    /// integer is refused with a message that quotes it.
    pub fn deserialize(value: i32) -> (r: Result<PurchaseStateValue, String>)
        ensures
            r is Ok <==> 0 <= value <= 2,
            r matches Ok(state) ==> purchase_state_code(state) == value,
            r matches Err(message) ==> message@ == invalid_purchase_state_text(value),
    {
        if value == 0 {
            Ok(PurchaseStateValue::Purchased)
        } else if value == 1 {
            Ok(PurchaseStateValue::Canceled)
        } else if value == 2 {
            Ok(PurchaseStateValue::Pending)
        } else {
            let mut message: String = String::from_str("Invalid purchase state: ");
            crate::text::push_signed_decimal(&mut message, value as i64);
            Err(message)
        }
    }
}

#[derive(Debug)]
pub struct GetProductStatusRequest {
    pub product_id: String,
    pub product_type: String,
}

#[derive(Debug, Clone)]
pub struct ProductStatus {
    pub product_id: String,
    pub is_owned: bool,
    pub purchase_state: Option<PurchaseStateValue>,
    pub purchase_time: Option<i64>,
    pub expiration_time: Option<i64>,
    pub is_auto_renewing: Option<bool>,
    pub is_acknowledged: Option<bool>,
    pub purchase_token: Option<String>,
}

pub struct ProductStatusModel {
    pub product_id: Seq<char>,
    pub is_owned: bool,
    pub purchase_state: Option<PurchaseStateValue>,
    pub purchase_time: Option<int>,
    pub expiration_time: Option<int>,
    pub is_auto_renewing: Option<bool>,
    pub is_acknowledged: Option<bool>,
    pub purchase_token: Option<Seq<char>>,
}

impl ProductStatusModel {
    /// Ownership agrees with the purchase state wherever a state is given:
    /// owned exactly when purchased.
    pub open spec fn consistent(self) -> bool {
        self.purchase_state matches Some(state) ==> (self.is_owned <==> state
            == PurchaseStateValue::Purchased)
    }

    /// Nothing is known beyond the fact that the product is not owned.
    pub open spec fn unowned(self) -> bool {
        &&& !self.is_owned
        &&& self.purchase_state is None
        &&& self.purchase_time is None
        &&& self.expiration_time is None
        &&& self.is_auto_renewing is None
        &&& self.is_acknowledged is None
        &&& self.purchase_token is None
    }
}

impl DeepView for ProductStatus {
    type V = ProductStatusModel;

    open spec fn deep_view(&self) -> ProductStatusModel {
        ProductStatusModel {
            product_id: self.product_id@,
            is_owned: self.is_owned,
            purchase_state: self.purchase_state,
            purchase_time: number(self.purchase_time),
            expiration_time: number(self.expiration_time),
            is_auto_renewing: self.is_auto_renewing,
            is_acknowledged: self.is_acknowledged,
            purchase_token: self.purchase_token.deep_view(),
        }
    }
}

impl View for ProductStatus {
    type V = ProductStatusModel;

    open spec fn view(&self) -> ProductStatusModel {
        self.deep_view()
    }
}

} // verus!
