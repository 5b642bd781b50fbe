//! The Windows Store adapter: what the store reports, as plain values, and
//! the rules that turn it into the domain model.
//!
//! The store knows licenses, not purchases, and prices as display strings;
//! order ids, purchase times and micros are reconstructed here.

use crate::error::{agrees, unsupported_text, IapError, IapErrorModel};
use crate::foreign::{debug_text, hresult_is_err, hresult_message, str_debug, windows_error_debug};
use crate::models::{
    AcknowledgePurchaseResponse, GetProductsResponse, GetPurchaseHistoryResponse,
    InitializeResponse, PricingPhase, PricingPhaseModel, Product, ProductModel, ProductStatus,
    ProductStatusModel, Purchase, PurchaseModel, PurchaseOptions, PurchaseStateValue,
    RestorePurchasesResponse, SubscriptionOffer, SubscriptionOfferModel,
};
use crate::normalizer::period::{
    billing_period_text, encode_billing_period, unit_of_code, PeriodUnit,
};
use crate::normalizer::price::{parse_price_micros, price_micros};
use crate::normalizer::time::{
    datetime_to_unix_millis, estimate_purchase_time, estimated_purchase_time, unix_millis,
};
use crate::text::{push_signed_decimal, same_text, signed_decimal};
use vstd::prelude::*;

verus! {

/// What the store tells of a SKU that is a subscription: it is billed every
/// `billing_period` units, the unit as the store's code for it, at the
/// price that the store displays for the SKU.
#[derive(Debug, Clone)]
pub struct NativeSubscriptionInfo {
    pub billing_period: u32,
    pub billing_period_unit: i32,
    pub formatted_price: String,
}

pub struct NativeSubscriptionInfoModel {
    pub billing_period: u32,
    pub billing_period_unit: i32,
    pub formatted_price: Seq<char>,
}

impl DeepView for NativeSubscriptionInfo {
    type V = NativeSubscriptionInfoModel;

    open spec fn deep_view(&self) -> NativeSubscriptionInfoModel {
        NativeSubscriptionInfoModel {
            billing_period: self.billing_period,
            billing_period_unit: self.billing_period_unit,
            formatted_price: self.formatted_price@,
        }
    }
}

impl View for NativeSubscriptionInfo {
    type V = NativeSubscriptionInfoModel;

    open spec fn view(&self) -> NativeSubscriptionInfoModel {
        self.deep_view()
    }
}

/// One SKU of a product as the store reports it.
#[derive(Debug, Clone)]
pub struct NativeSku {
    pub store_id: String,
    /// `None` where the SKU is no subscription.
    pub subscription_info: Option<NativeSubscriptionInfo>,
}

pub struct NativeSkuModel {
    pub store_id: Seq<char>,
    pub subscription_info: Option<NativeSubscriptionInfoModel>,
}

impl DeepView for NativeSku {
    type V = NativeSkuModel;

    open spec fn deep_view(&self) -> NativeSkuModel {
        NativeSkuModel {
            store_id: self.store_id@,
            subscription_info: self.subscription_info.deep_view(),
        }
    }
}

impl View for NativeSku {
    type V = NativeSkuModel;

    open spec fn view(&self) -> NativeSkuModel {
        self.deep_view()
    }
}

/// One product as the store reports it.
#[derive(Debug, Clone)]
pub struct NativeProduct {
    pub store_id: String,
    pub title: String,
    pub description: String,
    pub formatted_price: String,
    pub currency_code: String,
    pub formatted_base_price: String,
    /// The SKUs of the product. They are read from the store only where
    /// `Iap::reads_skus` says so, and are left empty elsewhere.
    pub skus: Vec<NativeSku>,
}

pub struct NativeProductModel {
    pub store_id: Seq<char>,
    pub title: Seq<char>,
    pub description: Seq<char>,
    pub formatted_price: Seq<char>,
    pub currency_code: Seq<char>,
    pub formatted_base_price: Seq<char>,
    pub skus: Seq<NativeSkuModel>,
}

impl DeepView for NativeProduct {
    type V = NativeProductModel;

    open spec fn deep_view(&self) -> NativeProductModel {
        NativeProductModel {
            store_id: self.store_id@,
            title: self.title@,
            description: self.description@,
            formatted_price: self.formatted_price@,
            currency_code: self.currency_code@,
            formatted_base_price: self.formatted_base_price@,
            skus: self.skus.deep_view(),
        }
    }
}

impl View for NativeProduct {
    type V = NativeProductModel;

    open spec fn view(&self) -> NativeProductModel {
        self.deep_view()
    }
}

/// The recurrence mode of a phase that recurs without end.
pub const INFINITE_RECURRING: i32 = 1;

/// Whether a product type names subscriptions.
pub open spec fn is_subscription(product_type: Seq<char>) -> bool {
    product_type == "subs"@
}

/// The one pricing phase of a subscription SKU. The store gives no cycle
/// count, and the amount is that of the product.
pub open spec fn phase_model(
    info: NativeSubscriptionInfoModel,
    currency: Seq<char>,
    micros: int,
) -> PricingPhaseModel {
    PricingPhaseModel {
        formatted_price: info.formatted_price,
        price_currency_code: currency,
        price_amount_micros: micros,
        billing_period: billing_period_text(
            info.billing_period,
            unit_of_code(info.billing_period_unit),
        ),
        billing_cycle_count: 0,
        recurrence_mode: 1,
    }
}

/// The offer of a subscription SKU: the SKU's id is its token and its base
/// plan.
pub open spec fn offer_model(
    store_id: Seq<char>,
    info: NativeSubscriptionInfoModel,
    currency: Seq<char>,
    micros: int,
) -> SubscriptionOfferModel {
    SubscriptionOfferModel {
        offer_token: store_id,
        base_plan_id: store_id,
        offer_id: None,
        pricing_phases: seq![phase_model(info, currency, micros)],
    }
}

/// The offers of a product: one for each SKU that is a subscription, in the
/// order of the SKUs.
pub open spec fn offers_model(skus: Seq<NativeSkuModel>, currency: Seq<char>, micros: int) -> Seq<
    SubscriptionOfferModel,
>
    decreases skus.len(),
{
    if skus.len() == 0 {
        Seq::empty()
    } else {
        let earlier = offers_model(skus.drop_last(), currency, micros);
        match skus.last().subscription_info {
            Some(info) => earlier.push(
                offer_model(skus.last().store_id, info, currency, micros),
            ),
            None => earlier,
        }
    }
}

/// The product that a store product becomes when asked for as
/// `product_type`.
pub open spec fn product_model(native: NativeProductModel, product_type: Seq<char>) -> ProductModel {
    let micros = price_micros(native.formatted_base_price);
    let offers = offers_model(native.skus, native.currency_code, micros);
    ProductModel {
        product_id: native.store_id,
        title: native.title,
        description: native.description,
        product_type,
        formatted_price: Some(native.formatted_price),
        price_currency_code: Some(native.currency_code),
        price_amount_micros: Some(micros),
        subscription_offer_details: if is_subscription(product_type) && offers.len() > 0 {
            Some(offers)
        } else {
            None
        },
    }
}

/// The products of a store query, in the order in which the store gave
/// them.
pub open spec fn products_model(natives: Seq<NativeProductModel>, product_type: Seq<char>) -> Seq<
    ProductModel,
> {
    Seq::new(natives.len(), |i: int| product_model(natives[i], product_type))
}

/// The kinds of product that a store query for a product type asks for:
/// the three kinds of one-time product for `inapp`, subscriptions for
/// `subs`, and all four for every other type.
pub open spec fn kinds_model(product_type: Seq<char>) -> Seq<Seq<char>> {
    if product_type == "inapp"@ {
        seq!["Consumable"@, "UnmanagedConsumable"@, "Durable"@]
    } else if product_type == "subs"@ {
        seq!["Subscription"@]
    } else {
        seq!["Consumable"@, "UnmanagedConsumable"@, "Durable"@, "Subscription"@]
    }
}

/// The failure that a store query reports with the given message.
pub open spec fn query_failure_model(message: Seq<char>) -> IapErrorModel {
    IapErrorModel::Io("Store query failed with error: "@ + debug_text(message))
}

/// A call into the store that can fail as a whole.
#[derive(Debug, Clone, Copy, PartialEq, Eq, Structural)]
pub enum NativeCall {
    StoreContext,
    ProductQuery,
    PurchaseRequest,
    AppLicense,
}

/// How the failure of a call into the store is introduced.
pub open spec fn failure_prefix(call: NativeCall) -> Seq<char> {
    match call {
        NativeCall::StoreContext => "Failed to get store context: "@,
        NativeCall::ProductQuery => "Failed to get products: "@,
        NativeCall::PurchaseRequest => "Purchase request failed: "@,
        NativeCall::AppLicense => "Failed to get app license: "@,
    }
}

/// The failure of a call into the store, with the detail that the system
/// gave.
pub open spec fn native_failure_model(call: NativeCall, detail: Seq<char>) -> IapErrorModel {
    IapErrorModel::Io(failure_prefix(call) + detail)
}

/// A license as the store reports it. The expiration is a native timestamp:
/// ticks of 100 nanoseconds since 1601-01-01.
#[derive(Debug, Clone)]
pub struct NativeLicense {
    pub in_app_offer_token: String,
    pub sku_store_id: String,
    pub is_active: bool,
    pub expiration_date: i64,
}

pub struct NativeLicenseModel {
    pub in_app_offer_token: Seq<char>,
    pub sku_store_id: Seq<char>,
    pub is_active: bool,
    pub expiration_date: int,
}

impl DeepView for NativeLicense {
    type V = NativeLicenseModel;

    open spec fn deep_view(&self) -> NativeLicenseModel {
        NativeLicenseModel {
            in_app_offer_token: self.in_app_offer_token@,
            sku_store_id: self.sku_store_id@,
            is_active: self.is_active,
            expiration_date: self.expiration_date as int,
        }
    }
}

impl View for NativeLicense {
    type V = NativeLicenseModel;

    open spec fn view(&self) -> NativeLicenseModel {
        self.deep_view()
    }
}

/// `true` or `false`.
pub open spec fn bool_text(value: bool) -> Seq<char> {
    if value {
        "true"@
    } else {
        "false"@
    }
}

/// The raw payload of a purchase that stands for a license.
pub open spec fn license_json(is_active: bool, expiration_millis: int) -> Seq<char> {
    "{\"isActive\":"@ + bool_text(is_active) + ",\"expirationDate\":"@ + signed_decimal(
        expiration_millis,
    ) + "}"@
}

/// The purchase that stands for a license. The license's SKU is order id
/// and token; the time of purchase is estimated from the expiration, or is
/// `now` where that cannot be done.
pub open spec fn license_purchase_model(
    license: NativeLicenseModel,
    product_type: Seq<char>,
    package: Seq<char>,
    now: int,
) -> PurchaseModel {
    let expiration = unix_millis(license.expiration_date);
    PurchaseModel {
        order_id: Some(license.sku_store_id),
        package_name: package,
        product_id: license.in_app_offer_token,
        purchase_time: estimated_purchase_time(is_subscription(product_type), expiration, now),
        purchase_token: license.sku_store_id,
        purchase_state: if license.is_active {
            0
        } else {
            1
        },
        is_auto_renewing: is_subscription(product_type) && license.is_active,
        is_acknowledged: true,
        original_json: license_json(license.is_active, expiration),
        signature: Seq::empty(),
    }
}

/// The purchases that a list of licenses restores: those of the licenses
/// that stand for a purchase in the state purchased, in the order of the
/// licenses.
pub open spec fn restored_model(
    licenses: Seq<NativeLicenseModel>,
    product_type: Seq<char>,
    package: Seq<char>,
    now: int,
) -> Seq<PurchaseModel>
    decreases licenses.len(),
{
    if licenses.len() == 0 {
        Seq::empty()
    } else {
        let earlier = restored_model(licenses.drop_last(), product_type, package, now);
        let purchase = license_purchase_model(licenses.last(), product_type, package, now);
        if purchase.purchase_state == 0 {
            earlier.push(purchase)
        } else {
            earlier
        }
    }
}

/// Whatever the licenses are, every restored purchase is in the state
/// purchased.
pub proof fn lemma_restored_are_purchased(
    licenses: Seq<NativeLicenseModel>,
    product_type: Seq<char>,
    package: Seq<char>,
    now: int,
)
    ensures
        forall|i: int|
            0 <= i < restored_model(licenses, product_type, package, now).len()
                ==> #[trigger] restored_model(licenses, product_type, package, now)[i].purchase_state
                == 0,
    decreases licenses.len(),
{
    if licenses.len() > 0 {
        lemma_restored_are_purchased(licenses.drop_last(), product_type, package, now);
    }
}

/// What is known of the ownership of a product: from its license where it
/// has one, and nothing but "not owned" where it has none.
pub open spec fn status_model(
    product_id: Seq<char>,
    product_type: Seq<char>,
    license: Option<NativeLicenseModel>,
) -> ProductStatusModel {
    match license {
        Some(found) => {
            let expiration = unix_millis(found.expiration_date);
            ProductStatusModel {
                product_id,
                is_owned: found.is_active,
                purchase_state: Some(
                    if found.is_active {
                        PurchaseStateValue::Purchased
                    } else {
                        PurchaseStateValue::Canceled
                    },
                ),
                purchase_time: Some(
                    estimated_purchase_time(is_subscription(product_type), expiration, expiration),
                ),
                expiration_time: if expiration > 0 {
                    Some(expiration)
                } else {
                    None
                },
                is_auto_renewing: Some(is_subscription(product_type) && found.is_active),
                is_acknowledged: Some(true),
                purchase_token: Some(found.sku_store_id),
            }
        },
        None => ProductStatusModel {
            product_id,
            is_owned: false,
            purchase_state: None,
            purchase_time: None,
            expiration_time: None,
            is_auto_renewing: None,
            is_acknowledged: None,
            purchase_token: None,
        },
    }
}

/// A product without a license is reported as not owned and as nothing
/// else: no field stands in for what is not known.
pub proof fn lemma_no_license_is_unowned(product_id: Seq<char>, product_type: Seq<char>)
    ensures
        status_model(product_id, product_type, None).unowned(),
{
}

/// Every status is consistent: owned exactly when purchased.
pub proof fn lemma_status_is_consistent(
    product_id: Seq<char>,
    product_type: Seq<char>,
    license: Option<NativeLicenseModel>,
)
    ensures
        status_model(product_id, product_type, license).consistent(),
{
}

/// What the store is asked to sell: the product, and for a chosen offer the
/// extended data that names its SKU.
#[derive(Debug, Clone)]
pub struct PurchaseCall {
    pub store_id: String,
    pub extended_json_data: Option<String>,
}

pub struct PurchaseCallModel {
    pub store_id: Seq<char>,
    pub extended_json_data: Option<Seq<char>>,
}

impl DeepView for PurchaseCall {
    type V = PurchaseCallModel;

    open spec fn deep_view(&self) -> PurchaseCallModel {
        PurchaseCallModel {
            store_id: self.store_id@,
            extended_json_data: self.extended_json_data.deep_view(),
        }
    }
}

impl View for PurchaseCall {
    type V = PurchaseCallModel;

    open spec fn view(&self) -> PurchaseCallModel {
        self.deep_view()
    }
}

/// The offer token of a purchase's options, where they name one.
pub open spec fn chosen_offer(options: Option<PurchaseOptions>) -> Option<Seq<char>> {
    match options {
        Some(given) => given.offer_token.deep_view(),
        None => None,
    }
}

/// The extended data that asks for the SKU of an offer.
pub open spec fn sku_json(offer_token: Seq<char>) -> Seq<char> {
    "{\"skuId\":\""@ + offer_token + "\"}"@
}

/// The call that a purchase makes, or the failure where the store does not
/// know the product.
pub open spec fn purchase_call_model(
    product_id: Seq<char>,
    found: nat,
    options: Option<PurchaseOptions>,
) -> Result<PurchaseCallModel, IapErrorModel> {
    if found == 0 {
        Err(IapErrorModel::Io("Product not found"@))
    } else {
        Ok(
            PurchaseCallModel {
                store_id: product_id,
                extended_json_data: match chosen_offer(options) {
                    Some(token) => Some(sku_json(token)),
                    None => None,
                },
            },
        )
    }
}

/// The token that is minted for a purchase: it is unique to the call, and
/// no id that the store issued.
pub open spec fn purchase_token_text(product_id: Seq<char>, time: int) -> Seq<char> {
    "win_"@ + product_id + "_"@ + signed_decimal(time)
}

/// The raw payload of a purchase.
pub open spec fn purchase_json(status: int, message: Seq<char>, product_id: Seq<char>) -> Seq<
    char,
> {
    "{\"status\":"@ + signed_decimal(status) + ",\"message\":\""@ + message
        + "\",\"productId\":\""@ + product_id + "\"}"@
}

/// The purchase, or the failure, that a status of the store's purchase
/// dialog stands for: 0 (succeeded) and 1 (already purchased) are a
/// purchase, 2 (not purchased) is a canceled one, 3 and 4 are a network and
/// a server failure, and every other status is a failure without a name.
pub open spec fn purchase_model(
    status: i32,
    message: Seq<char>,
    product_id: Seq<char>,
    product_type: Seq<char>,
    package: Seq<char>,
    now: int,
) -> Result<PurchaseModel, IapErrorModel> {
    if status == 3 {
        Err(IapErrorModel::Io("Network error during purchase"@))
    } else if status == 4 {
        Err(IapErrorModel::Io("Server error during purchase"@))
    } else if 0 <= status <= 2 {
        Ok(
            PurchaseModel {
                order_id: Some(purchase_token_text(product_id, now)),
                package_name: package,
                product_id,
                purchase_time: now,
                purchase_token: purchase_token_text(product_id, now),
                purchase_state: if status == 2 {
                    1
                } else {
                    0
                },
                is_auto_renewing: is_subscription(product_type),
                is_acknowledged: true,
                original_json: purchase_json(status as int, message, product_id),
                signature: Seq::empty(),
            },
        )
    } else {
        Err(IapErrorModel::Io("Purchase failed"@))
    }
}

/// The store's context for the process: had once, on first use, and shared
/// from then on.
#[derive(Debug)]
pub struct ContextCache<C> {
    context: Option<C>,
}

impl<C: Clone> ContextCache<C> {
    /// The context that is held, if one has been had.
    pub closed spec fn held(&self) -> Option<C> {
        self.context
    }

    /// A cache that holds no context yet.
    pub fn new() -> (r: ContextCache<C>)
        ensures
            r.held() is None,
    {
        ContextCache { context: None }
    }

    /// Hands out the context, and has it first where none is held.
    ///
    /// Where a context is held, `create` is not called and the cache stays
    /// as it is. Where none is held, `create` is called once: what it gives
    /// is kept and handed out, and where it fails the failure is returned
    /// and the cache stays empty.
    pub fn get_or_create<F: FnOnce() -> Result<C, IapError>>(&mut self, create: F) -> (r: Result<
        C,
        IapError,
    >)
        requires
            old(self).held() is None ==> create.requires(()),
        ensures
            old(self).held() matches Some(kept) ==> final(self).held() == old(self).held() && (
            r matches Ok(context) && cloned(kept, context)),
            old(self).held() is None ==> exists|outcome: Result<C, IapError>|
                #[trigger] create.ensures((), outcome) && match outcome {
                    Ok(made) => final(self).held() == Some(made) && (r matches Ok(context)
                        && cloned(made, context)),
                    Err(failure) => final(self).held() is None && r == Err::<C, IapError>(failure),
                },
    {
        if let Some(kept) = &self.context {
            return Ok(kept.clone());
        }
        match create() {
            Ok(made) => {
                let context: C = made.clone();
                self.context = Some(made);
                Ok(context)
            },
            Err(failure) => Err(failure),
        }
    }
}

/// Access to the store's rules for one application.
#[derive(Debug, Clone)]
pub struct Iap {
    package_name: String,
}

impl Iap {
    /// The name of the application's package, which every purchase record
    /// carries.
    pub closed spec fn package(&self) -> Seq<char> {
        self.package_name@
    }

    /// An adapter for the application whose package has the given name.
    pub fn new(package_name: String) -> (r: Iap)
        ensures
            r.package() == package_name@,
    {
        Iap { package_name }
    }

    /// Reports that the store is ready. The store's context has been had by
    /// the time this is called, so there is nothing left that can fail.
    pub fn initialize(&self) -> (r: Result<InitializeResponse, IapError>)
        ensures
            r matches Ok(response) && response.success,
    {
        Ok(InitializeResponse { success: true })
    }

    /// Whether the SKUs of a product are to be read from the store: they
    /// are for a product that is asked for as a subscription.
    pub fn reads_skus(product_type: &str) -> (r: bool)
        ensures
            r == is_subscription(product_type@),
    {
        same_text(product_type, "subs")
    }

    /// The kinds of product to ask the store for.
    pub fn product_kinds(product_type: &str) -> (r: Vec<String>)
        ensures
            r.deep_view() == kinds_model(product_type@),
    {
        let mut kinds: Vec<String> = Vec::new();
        if !same_text(product_type, "subs") {
            kinds.push(String::from_str("Consumable"));
            kinds.push(String::from_str("UnmanagedConsumable"));
            kinds.push(String::from_str("Durable"));
        }
        if !same_text(product_type, "inapp") {
            kinds.push(String::from_str("Subscription"));
        }
        proof {
            reveal_strlit("subs");
            reveal_strlit("inapp");
            assert("subs"@ != "inapp"@) by {
                assert("subs"@.len() == 4);
                assert("inapp"@.len() == 5);
            }
            assert(kinds.deep_view() =~= kinds_model(product_type@));
        }
        kinds
    }

    /// The failure of a call into the store, given the detail that the
    /// system reported for it.
    pub fn describe_failure(call: NativeCall, detail: &str) -> (r: IapError)
        ensures
            r@ == native_failure_model(call, detail@),
    {
        let mut message: String = match call {
            NativeCall::StoreContext => String::from_str("Failed to get store context: "),
            NativeCall::ProductQuery => String::from_str("Failed to get products: "),
            NativeCall::PurchaseRequest => String::from_str("Purchase request failed: "),
            NativeCall::AppLicense => String::from_str("Failed to get app license: "),
        };
        message.append(detail);
        IapError::Io(message)
    }

    /// The failure of a call into the store, from the error that the call
    /// returned. The detail is the system's and differs from machine to
    /// machine; the introduction is fixed by the call.
    pub fn native_failure(call: NativeCall, error: &windows_result::Error) -> (r: IapError)
        ensures
            exists|detail: Seq<char>| r@ == #[trigger] native_failure_model(call, detail),
    {
        let detail: String = windows_error_debug(error);
        let failure = Self::describe_failure(call, detail.as_str());
        assert(failure@ == native_failure_model(call, detail@));
        failure
    }

    /// The failure of a store query whose extended error has the given
    /// message.
    pub fn store_query_failure(message: &str) -> (r: IapError)
        ensures
            r@ == query_failure_model(message@),
    {
        let mut text: String = String::from_str("Store query failed with error: ");
        let quoted: String = str_debug(message);
        text.append(quoted.as_str());
        IapError::Io(text)
    }

    /// Judges the extended error of a store query: a code below zero is a
    /// failure, with the system's message for the code.
    pub fn query_outcome(extended_error: i32) -> (r: Result<(), IapError>)
        ensures
            r is Ok <==> extended_error >= 0,
            r matches Err(failure) ==> exists|message: Seq<char>|
                failure@ == #[trigger] query_failure_model(message),
    {
        if hresult_is_err(extended_error) {
            let message: String = hresult_message(extended_error);
            let failure = Self::store_query_failure(message.as_str());
            assert(failure@ == query_failure_model(message@));
            Err(failure)
        } else {
            Ok(())
        }
    }

    /// Turns the products of a store query into products of the domain
    /// model, in the store's order.
    pub fn get_products(&self, store_products: &Vec<NativeProduct>, product_type: &str) -> (r:
        Result<GetProductsResponse, IapError>)
        ensures
            r matches Ok(response) && response@ == products_model(
                store_products.deep_view(),
                product_type@,
            ),
    {
        let mut products: Vec<Product> = Vec::new();
        let mut i: usize = 0;
        while i < store_products.len()
            invariant
                i <= store_products.len(),
                products.len() == i,
                forall|k: int|
                    0 <= k < i ==> (#[trigger] products@[k]).deep_view() == product_model(
                        store_products@[k].deep_view(),
                        product_type@,
                    ),
            decreases store_products.len() - i,
        {
            let product = self.convert_store_product_to_product(&store_products[i], product_type);
            products.push(product);
            i = i + 1;
        }
        let response = GetProductsResponse { products };
        assert(response@ =~= products_model(store_products.deep_view(), product_type@));
        Ok(response)
    }

    /// Decides what to ask the store for when a product is to be bought.
    ///
    /// `products` is what the store answered when asked for the product. A
    /// product that the store does not know cannot be bought. Where the
    /// options name an offer, the call carries the extended data that asks
    /// for the offer's SKU.
    pub fn purchase_call(
        product_id: &str,
        products: &GetProductsResponse,
        options: Option<PurchaseOptions>,
    ) -> (r: Result<PurchaseCall, IapError>)
        ensures
            agrees(r, purchase_call_model(product_id@, products.products@.len(), options)),
    {
        if products.products.len() == 0 {
            return Err(IapError::other("Product not found"));
        }
        let offer_token: Option<String> = match options {
            Some(given) => given.offer_token,
            None => None,
        };
        let extended_json_data: Option<String> = match offer_token {
            Some(token) => {
                let mut json: String = String::from_str("{\"skuId\":\"");
                json.append(token.as_str());
                json.append("\"}");
                Some(json)
            },
            None => None,
        };
        Ok(PurchaseCall { store_id: String::from_str(product_id), extended_json_data })
    }

    /// Makes the record of a purchase out of the status that the store's
    /// purchase dialog ended with and the message of its extended error.
    ///
    /// A canceled dialog is a purchase in the state canceled, not a
    /// failure. The token is minted from the product and the time of the
    /// call.
    pub fn purchase_record(
        &self,
        product_id: &str,
        product_type: &str,
        status: i32,
        error_message: &str,
        now_millis: i64,
    ) -> (r: Result<Purchase, IapError>)
        ensures
            agrees(
                r,
                purchase_model(
                    status,
                    error_message@,
                    product_id@,
                    product_type@,
                    self.package(),
                    now_millis as int,
                ),
            ),
    {
        if status == 3 {
            return Err(IapError::other("Network error during purchase"));
        }
        if status == 4 {
            return Err(IapError::other("Server error during purchase"));
        }
        if status < 0 || status > 2 {
            return Err(IapError::other("Purchase failed"));
        }
        let purchase_state: i32 = if status == 2 {
            PurchaseStateValue::Canceled.serialize()
        } else {
            PurchaseStateValue::Purchased.serialize()
        };
        let mut purchase_token: String = String::from_str("win_");
        purchase_token.append(product_id);
        purchase_token.append("_");
        push_signed_decimal(&mut purchase_token, now_millis);
        let mut original_json: String = String::from_str("{\"status\":");
        push_signed_decimal(&mut original_json, status as i64);
        original_json.append(",\"message\":\"");
        original_json.append(error_message);
        original_json.append("\",\"productId\":\"");
        original_json.append(product_id);
        original_json.append("\"}");
        Ok(
            Purchase {
                order_id: Some(purchase_token.clone()),
                package_name: self.package_name.clone(),
                product_id: String::from_str(product_id),
                purchase_time: now_millis,
                purchase_token,
                purchase_state,
                is_auto_renewing: same_text(product_type, "subs"),
                is_acknowledged: true,
                original_json,
                signature: String::new(),
            },
        )
    }

    /// Makes the record of a purchase out of what the store's purchase
    /// dialog returned: its status and, where it could be had, the code of
    /// its extended error. The record's payload quotes the system's
    /// message for that code.
    pub fn purchase(
        &self,
        product_id: String,
        product_type: String,
        status: i32,
        extended_error: Option<i32>,
        now_millis: i64,
    ) -> (r: Result<Purchase, IapError>)
        ensures
            r is Ok <==> 0 <= status <= 2,
            exists|message: Seq<char>|
                agrees(
                    r,
                    #[trigger] purchase_model(
                        status,
                        message,
                        product_id@,
                        product_type@,
                        self.package(),
                        now_millis as int,
                    ),
                ),
            extended_error is None ==> agrees(
                r,
                purchase_model(
                    status,
                    Seq::empty(),
                    product_id@,
                    product_type@,
                    self.package(),
                    now_millis as int,
                ),
            ),
    {
        let error_message: String = match extended_error {
            Some(code) => hresult_message(code),
            None => String::new(),
        };
        let record = self.purchase_record(
            product_id.as_str(),
            product_type.as_str(),
            status,
            error_message.as_str(),
            now_millis,
        );
        assert(agrees(
            record,
            purchase_model(
                status,
                error_message@,
                product_id@,
                product_type@,
                self.package(),
                now_millis as int,
            ),
        ));
        record
    }

    /// Turns a license into the purchase that stands for it.
    ///
    /// The store keeps no record of purchases. The time of purchase of a
    /// subscription is estimated as thirty days before its expiration; where
    /// the expiration is not known, and for every other product, it is
    /// `now_millis`.
    pub fn convert_license_to_purchase(
        &self,
        license: &NativeLicense,
        product_type: &str,
        now_millis: i64,
    ) -> (r: Purchase)
        ensures
            r@ == license_purchase_model(
                license@,
                product_type@,
                self.package(),
                now_millis as int,
            ),
    {
        let expiration_millis: i64 = datetime_to_unix_millis(license.expiration_date);
        let subscription: bool = same_text(product_type, "subs");
        let purchase_time: i64 = estimate_purchase_time(
            subscription,
            expiration_millis,
            now_millis,
        );
        let purchase_state: i32 = if license.is_active {
            PurchaseStateValue::Purchased.serialize()
        } else {
            PurchaseStateValue::Canceled.serialize()
        };
        let mut original_json: String = String::from_str("{\"isActive\":");
        if license.is_active {
            original_json.append("true");
        } else {
            original_json.append("false");
        }
        original_json.append(",\"expirationDate\":");
        push_signed_decimal(&mut original_json, expiration_millis);
        original_json.append("}");
        Purchase {
            order_id: Some(license.sku_store_id.clone()),
            package_name: self.package_name.clone(),
            product_id: license.in_app_offer_token.clone(),
            purchase_time,
            purchase_token: license.sku_store_id.clone(),
            purchase_state,
            is_auto_renewing: subscription && license.is_active,
            is_acknowledged: true,
            original_json,
            signature: String::new(),
        }
    }

    /// Restores the purchases that the licenses of the application stand
    /// for: those in the state purchased, and no other.
    pub fn restore_purchases(
        &self,
        licenses: &Vec<NativeLicense>,
        product_type: &str,
        now_millis: i64,
    ) -> (r: Result<RestorePurchasesResponse, IapError>)
        ensures
            r matches Ok(response) && response@ == restored_model(
                licenses.deep_view(),
                product_type@,
                self.package(),
                now_millis as int,
            ) && forall|i: int|
                0 <= i < response@.len() ==> (#[trigger] response@[i]).purchase_state == 0,
    {
        let mut purchases: Vec<Purchase> = Vec::new();
        let mut i: usize = 0;
        proof {
            assert(licenses.deep_view().take(0) =~= Seq::<NativeLicenseModel>::empty());
            assert(purchases.deep_view() =~= Seq::<PurchaseModel>::empty());
        }
        while i < licenses.len()
            invariant
                i <= licenses.len(),
                purchases.deep_view() == restored_model(
                    licenses.deep_view().take(i as int),
                    product_type@,
                    self.package(),
                    now_millis as int,
                ),
            decreases licenses.len() - i,
        {
            let license: &NativeLicense = &licenses[i];
            let ghost before = purchases.deep_view();
            proof {
                let head = licenses.deep_view().take(i + 1);
                assert(head.drop_last() =~= licenses.deep_view().take(i as int));
                assert(head.last() == license.deep_view());
            }
            let purchase = self.convert_license_to_purchase(license, product_type, now_millis);
            if purchase.purchase_state == PurchaseStateValue::Purchased.serialize() {
                purchases.push(purchase);
                proof {
                    assert(purchases.deep_view() =~= before.push(purchase.deep_view()));
                }
            }
            i = i + 1;
        }
        proof {
            assert(licenses.deep_view().take(licenses.len() as int) =~= licenses.deep_view());
            lemma_restored_are_purchased(
                licenses.deep_view(),
                product_type@,
                self.package(),
                now_millis as int,
            );
        }
        Ok(RestorePurchasesResponse { purchases })
    }

    /// Refuses to list past purchases: the store keeps no history.
    pub fn get_purchase_history(&self) -> (r: Result<GetPurchaseHistoryResponse, IapError>)
        ensures
            r matches Err(failure) && failure@ == IapErrorModel::Io(
                unsupported_text("Purchase history"@),
            ),
    {
        Err(IapError::unsupported("Purchase history"))
    }

    /// Acknowledges a purchase. The store acknowledges by itself, so this
    /// succeeds and does nothing.
    pub fn acknowledge_purchase(&self, _purchase_token: String) -> (r: Result<
        AcknowledgePurchaseResponse,
        IapError,
    >)
        ensures
            r matches Ok(response) && response.success,
    {
        Ok(AcknowledgePurchaseResponse { success: true })
    }

    /// Reports the ownership of a product from the license that the store
    /// holds for it; `None` where it holds none, which is no failure.
    pub fn get_product_status(
        &self,
        product_id: String,
        product_type: &str,
        license: Option<&NativeLicense>,
    ) -> (r: Result<ProductStatus, IapError>)
        ensures
            r matches Ok(status) && status@ == status_model(
                product_id@,
                product_type@,
                license.deep_view(),
            ) && status@.consistent() && (license is None ==> status@.unowned()),
    {
        match license {
            Some(found) => {
                let expiration_time: i64 = datetime_to_unix_millis(found.expiration_date);
                let subscription: bool = same_text(product_type, "subs");
                let purchase_time: i64 = estimate_purchase_time(
                    subscription,
                    expiration_time,
                    expiration_time,
                );
                let purchase_state: PurchaseStateValue = if found.is_active {
                    PurchaseStateValue::Purchased
                } else {
                    PurchaseStateValue::Canceled
                };
                Ok(
                    ProductStatus {
                        product_id,
                        is_owned: found.is_active,
                        purchase_state: Some(purchase_state),
                        purchase_time: Some(purchase_time),
                        expiration_time: if expiration_time > 0 {
                            Some(expiration_time)
                        } else {
                            None
                        },
                        is_auto_renewing: Some(subscription && found.is_active),
                        is_acknowledged: Some(true),
                        purchase_token: Some(found.sku_store_id.clone()),
                    },
                )
            },
            None => Ok(
                ProductStatus {
                    product_id,
                    is_owned: false,
                    purchase_state: None,
                    purchase_time: None,
                    expiration_time: None,
                    is_auto_renewing: None,
                    is_acknowledged: None,
                    purchase_token: None,
                },
            ),
        }
    }

    fn convert_offers(skus: &Vec<NativeSku>, currency: &String, micros: i64) -> (r: Vec<
        SubscriptionOffer,
    >)
        ensures
            r.deep_view() == offers_model(skus.deep_view(), currency@, micros as int),
    {
        let mut offers: Vec<SubscriptionOffer> = Vec::new();
        let mut i: usize = 0;
        proof {
            assert(skus.deep_view().take(0) =~= Seq::<NativeSkuModel>::empty());
            assert(offers.deep_view() =~= Seq::<SubscriptionOfferModel>::empty());
        }
        while i < skus.len()
            invariant
                i <= skus.len(),
                offers.deep_view() == offers_model(
                    skus.deep_view().take(i as int),
                    currency@,
                    micros as int,
                ),
            decreases skus.len() - i,
        {
            let sku: &NativeSku = &skus[i];
            let ghost before = offers.deep_view();
            proof {
                let head = skus.deep_view().take(i + 1);
                assert(head.drop_last() =~= skus.deep_view().take(i as int));
                assert(head.last() == sku.deep_view());
            }
            if let Some(info) = &sku.subscription_info {
                let phase = PricingPhase {
                    formatted_price: info.formatted_price.clone(),
                    price_currency_code: currency.clone(),
                    price_amount_micros: micros,
                    billing_period: encode_billing_period(
                        info.billing_period,
                        PeriodUnit::from_code(info.billing_period_unit),
                    ),
                    billing_cycle_count: 0,
                    recurrence_mode: INFINITE_RECURRING,
                };
                let mut phases: Vec<PricingPhase> = Vec::new();
                phases.push(phase);
                let offer = SubscriptionOffer {
                    offer_token: sku.store_id.clone(),
                    base_plan_id: sku.store_id.clone(),
                    offer_id: None,
                    pricing_phases: phases,
                };
                proof {
                    assert(offer.pricing_phases.deep_view() =~= seq![
                        phase_model(info.deep_view(), currency@, micros as int),
                    ]);
                    assert(offer.deep_view() == offer_model(
                        sku.store_id@,
                        info.deep_view(),
                        currency@,
                        micros as int,
                    ));
                }
                offers.push(offer);
                proof {
                    assert(offers.deep_view() =~= before.push(offer.deep_view()));
                }
            }
            i = i + 1;
        }
        proof {
            assert(skus.deep_view().take(skus.len() as int) =~= skus.deep_view());
        }
        offers
    }

    /// Turns a store product into a product of the domain model.
    ///
    /// The micros are read out of the base price. A product asked for as a
    /// subscription gets one offer for each of its subscription SKUs, and no
    /// offer list where it has none.
    pub fn convert_store_product_to_product(
        &self,
        store_product: &NativeProduct,
        product_type: &str,
    ) -> (r: Product)
        ensures
            r@ == product_model(store_product@, product_type@),
    {
        let micros: i64 = parse_price_micros(store_product.formatted_base_price.as_str());
        let subscription_offer_details: Option<Vec<SubscriptionOffer>> = if Self::reads_skus(
            product_type,
        ) {
            let offers = Self::convert_offers(
                &store_product.skus,
                &store_product.currency_code,
                micros,
            );
            if offers.len() > 0 {
                Some(offers)
            } else {
                None
            }
        } else {
            None
        };
        Product {
            product_id: store_product.store_id.clone(),
            title: store_product.title.clone(),
            description: store_product.description.clone(),
            product_type: String::from_str(product_type),
            formatted_price: Some(store_product.formatted_price.clone()),
            price_currency_code: Some(store_product.currency_code.clone()),
            price_amount_micros: Some(micros),
            subscription_offer_details,
        }
    }
}

} // verus!
