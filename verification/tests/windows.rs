use tauri_plugin_iap::error::IapError;
use tauri_plugin_iap::models::{GetProductsResponse, Product, PurchaseOptions};
use tauri_plugin_iap::windows::{
    ContextCache, Iap, NativeCall, NativeLicense, NativeProduct, NativeSku,
    NativeSubscriptionInfo, INFINITE_RECURRING,
};

fn adapter() -> Iap {
    Iap::new(String::from("com.example.app"))
}

const DAY: i32 = 2;
const WEEK: i32 = 3;
const MONTH: i32 = 4;
const YEAR: i32 = 5;

fn sku(id: &str, price: &str, info: Option<(u32, i32)>) -> NativeSku {
    NativeSku {
        store_id: String::from(id),
        subscription_info: info.map(|(billing_period, billing_period_unit)| {
            NativeSubscriptionInfo {
                billing_period,
                billing_period_unit,
                formatted_price: String::from(price),
            }
        }),
    }
}

fn store_product(id: &str, base_price: &str, skus: Vec<NativeSku>) -> NativeProduct {
    NativeProduct {
        store_id: String::from(id),
        title: String::from("Pro"),
        description: String::from("Everything"),
        formatted_price: String::from("$9.99"),
        currency_code: String::from("USD"),
        formatted_base_price: String::from(base_price),
        skus,
    }
}

fn license(token: &str, sku_id: &str, is_active: bool, expiration_date: i64) -> NativeLicense {
    NativeLicense {
        in_app_offer_token: String::from(token),
        sku_store_id: String::from(sku_id),
        is_active,
        expiration_date,
    }
}

fn listed(count: usize) -> GetProductsResponse {
    let products: Vec<Product> = (0..count)
        .map(|_| {
            adapter().convert_store_product_to_product(&store_product("sku_pro", "$1", vec![]), "subs")
        })
        .collect();
    GetProductsResponse { products }
}

fn options(offer_token: Option<&str>) -> PurchaseOptions {
    PurchaseOptions {
        offer_token: offer_token.map(String::from),
        obfuscated_account_id: Some(String::from("account")),
        obfuscated_profile_id: None,
    }
}

// 2024-01-01T00:00:00Z as a native timestamp.
const EXPIRATION_TICKS: i64 = (1_704_067_200 + 11_644_473_600) * 10_000_000;
const EXPIRATION_MILLIS: i64 = 1_704_067_200_000;

#[test]
fn initialize_succeeds() {
    assert!(adapter().initialize().unwrap().success);
}

#[test]
fn kinds_for_one_time_products() {
    assert_eq!(
        Iap::product_kinds("inapp"),
        vec!["Consumable", "UnmanagedConsumable", "Durable"]
    );
}

#[test]
fn kinds_for_subscriptions() {
    assert_eq!(Iap::product_kinds("subs"), vec!["Subscription"]);
}

#[test]
fn kinds_for_any_other_type() {
    for product_type in ["", "all", "SUBS", "inapp "] {
        assert_eq!(
            Iap::product_kinds(product_type),
            vec!["Consumable", "UnmanagedConsumable", "Durable", "Subscription"]
        );
    }
}

#[test]
fn query_without_error_goes_on() {
    assert!(Iap::query_outcome(0).is_ok());
    assert!(Iap::query_outcome(1).is_ok());
    assert!(Iap::query_outcome(i32::MAX).is_ok());
}

#[test]
fn query_with_error_fails() {
    for code in [-1, -2147467259, i32::MIN] {
        let failure = Iap::query_outcome(code).unwrap_err();
        assert!(matches!(failure, IapError::Io(_)));
        let text = failure.to_string();
        assert!(text.starts_with("Store query failed with error: \""));
        assert!(text.ends_with('"'));
        let message = windows_result::HRESULT(code).message();
        assert_eq!(text, format!("Store query failed with error: {:?}", message));
    }
}

#[test]
fn query_failure_quotes_the_message() {
    assert_eq!(
        Iap::store_query_failure("The store is closed").to_string(),
        "Store query failed with error: \"The store is closed\""
    );
    assert_eq!(
        Iap::store_query_failure("").to_string(),
        "Store query failed with error: \"\""
    );
}

#[test]
fn query_failure_escapes_the_message() {
    assert_eq!(
        Iap::store_query_failure("a\"b\\c\nd").to_string(),
        "Store query failed with error: \"a\\\"b\\\\c\\nd\""
    );
}

#[test]
fn native_failures_are_introduced_by_their_call() {
    assert_eq!(
        Iap::describe_failure(NativeCall::StoreContext, "denied").to_string(),
        "Failed to get store context: denied"
    );
    assert_eq!(
        Iap::describe_failure(NativeCall::ProductQuery, "denied").to_string(),
        "Failed to get products: denied"
    );
    assert_eq!(
        Iap::describe_failure(NativeCall::PurchaseRequest, "denied").to_string(),
        "Purchase request failed: denied"
    );
    assert_eq!(
        Iap::describe_failure(NativeCall::AppLicense, "").to_string(),
        "Failed to get app license: "
    );
}

#[test]
fn native_failure_carries_the_native_detail() {
    let native = windows_result::Error::from_hresult(windows_result::HRESULT(-2147024891));
    let failure = Iap::native_failure(NativeCall::PurchaseRequest, &native);
    assert!(matches!(failure, IapError::Io(_)));
    assert_eq!(
        failure.to_string(),
        format!("Purchase request failed: {:?}", native)
    );
}

#[test]
fn one_time_product_has_no_offers() {
    let native = store_product("sku_gem", "$0.99", vec![sku("sku_gem/1", "$0.99", Some((1, MONTH)))]);
    let product = adapter().convert_store_product_to_product(&native, "inapp");
    assert_eq!(product.product_id, "sku_gem");
    assert_eq!(product.title, "Pro");
    assert_eq!(product.description, "Everything");
    assert_eq!(product.product_type, "inapp");
    assert_eq!(product.formatted_price.as_deref(), Some("$9.99"));
    assert_eq!(product.price_currency_code.as_deref(), Some("USD"));
    assert_eq!(product.price_amount_micros, Some(990_000));
    assert!(product.subscription_offer_details.is_none());
}

#[test]
fn subscription_gets_one_offer_for_each_subscription_sku() {
    let native = store_product(
        "sku_pro",
        "$9.99",
        vec![
            sku("sku_pro/monthly", "$9.99", Some((1, MONTH))),
            sku("sku_pro/lifetime", "$99.00", None),
            sku("sku_pro/yearly", "$79.99", Some((1, YEAR))),
            sku("sku_pro/weekly", "$2.99", Some((2, WEEK))),
        ],
    );
    let product = adapter().convert_store_product_to_product(&native, "subs");
    assert_eq!(product.product_type, "subs");
    assert_eq!(product.price_amount_micros, Some(9_990_000));
    let offers = product.subscription_offer_details.unwrap();
    assert_eq!(offers.len(), 3);
    let tokens: Vec<&str> = offers.iter().map(|offer| offer.offer_token.as_str()).collect();
    assert_eq!(tokens, vec!["sku_pro/monthly", "sku_pro/yearly", "sku_pro/weekly"]);
    let periods: Vec<&str> = offers
        .iter()
        .map(|offer| offer.pricing_phases[0].billing_period.as_str())
        .collect();
    assert_eq!(periods, vec!["P1M", "P1Y", "P2W"]);
    for offer in &offers {
        assert_eq!(offer.base_plan_id, offer.offer_token);
        assert!(offer.offer_id.is_none());
        assert_eq!(offer.pricing_phases.len(), 1);
        let phase = &offer.pricing_phases[0];
        assert_eq!(phase.price_currency_code, "USD");
        assert_eq!(phase.price_amount_micros, 9_990_000);
        assert_eq!(phase.billing_cycle_count, 0);
        assert_eq!(phase.recurrence_mode, INFINITE_RECURRING);
        assert_eq!(phase.recurrence_mode, 1);
    }
    assert_eq!(offers[1].pricing_phases[0].formatted_price, "$79.99");
}

#[test]
fn billing_periods_of_the_native_units() {
    let native = store_product(
        "sku_pro",
        "$9.99",
        vec![
            sku("a", "$1", Some((3, YEAR))),
            sku("b", "$1", Some((7, DAY))),
            sku("c", "$1", Some((2, WEEK))),
            sku("d", "$1", Some((1, MONTH))),
            sku("e", "$1", Some((5, 0))),
            sku("f", "$1", Some((5, 1))),
            sku("g", "$1", Some((5, 6))),
            sku("h", "$1", Some((5, -1))),
        ],
    );
    let product = adapter().convert_store_product_to_product(&native, "subs");
    let periods: Vec<String> = product
        .subscription_offer_details
        .unwrap()
        .iter()
        .map(|offer| offer.pricing_phases[0].billing_period.clone())
        .collect();
    assert_eq!(
        periods,
        vec!["P3Y", "P7D", "P2W", "P1M", "P5M", "P5M", "P5M", "P5M"]
    );
}

#[test]
fn skus_are_read_for_subscriptions_only() {
    assert!(Iap::reads_skus("subs"));
    assert!(!Iap::reads_skus("inapp"));
    assert!(!Iap::reads_skus(""));
    assert!(!Iap::reads_skus("Subs"));
}

#[test]
fn subscription_without_subscription_skus_has_no_offer_list() {
    let native = store_product("sku_pro", "$9.99", vec![sku("sku_pro/lifetime", "$99.00", None)]);
    let product = adapter().convert_store_product_to_product(&native, "subs");
    assert!(product.subscription_offer_details.is_none());
    let bare = store_product("sku_pro", "$9.99", vec![]);
    assert!(adapter()
        .convert_store_product_to_product(&bare, "subs")
        .subscription_offer_details
        .is_none());
}

#[test]
fn unreadable_base_price_is_zero_micros() {
    let native = store_product("sku_pro", "Free", vec![]);
    let product = adapter().convert_store_product_to_product(&native, "subs");
    assert_eq!(product.price_amount_micros, Some(0));
    assert_eq!(product.formatted_price.as_deref(), Some("$9.99"));
}

#[test]
fn products_keep_the_order_of_the_store() {
    let natives = vec![
        store_product("b", "$2", vec![]),
        store_product("a", "$1", vec![]),
        store_product("c", "$3.5", vec![]),
    ];
    let response = adapter().get_products(&natives, "inapp").unwrap();
    let ids: Vec<&str> = response.products.iter().map(|p| p.product_id.as_str()).collect();
    assert_eq!(ids, vec!["b", "a", "c"]);
    let micros: Vec<Option<i64>> = response.products.iter().map(|p| p.price_amount_micros).collect();
    assert_eq!(micros, vec![Some(2_000_000), Some(1_000_000), Some(3_500_000)]);
    assert!(adapter().get_products(&vec![], "subs").unwrap().products.is_empty());
}

#[test]
fn unknown_product_cannot_be_bought() {
    let failure = Iap::purchase_call("sku_pro", &listed(0), Some(options(Some("tok1")))).unwrap_err();
    assert!(matches!(failure, IapError::Io(_)));
    assert_eq!(failure.to_string(), "Product not found");
}

#[test]
fn purchase_of_an_offer_names_its_sku() {
    let call = Iap::purchase_call("sku_pro", &listed(1), Some(options(Some("tok1")))).unwrap();
    assert_eq!(call.store_id, "sku_pro");
    assert_eq!(call.extended_json_data.as_deref(), Some("{\"skuId\":\"tok1\"}"));
}

#[test]
fn purchase_without_an_offer_is_plain() {
    let call = Iap::purchase_call("sku_pro", &listed(2), Some(options(None))).unwrap();
    assert_eq!(call.store_id, "sku_pro");
    assert!(call.extended_json_data.is_none());
    let call = Iap::purchase_call("sku_pro", &listed(1), None).unwrap();
    assert!(call.extended_json_data.is_none());
}

#[test]
fn purchase_with_native_success_is_purchased() {
    let call = Iap::purchase_call("sku_pro", &listed(1), Some(options(Some("tok1")))).unwrap();
    assert_eq!(call.extended_json_data.as_deref(), Some("{\"skuId\":\"tok1\"}"));
    let purchase = adapter()
        .purchase(
            String::from("sku_pro"),
            String::from("subs"),
            0,
            None,
            1_700_000_000_123,
        )
        .unwrap();
    assert_eq!(purchase.purchase_state, 0);
    assert!(!purchase.purchase_token.is_empty());
    assert_eq!(purchase.purchase_token, "win_sku_pro_1700000000123");
    assert_eq!(purchase.order_id.as_deref(), Some("win_sku_pro_1700000000123"));
    assert_eq!(purchase.package_name, "com.example.app");
    assert_eq!(purchase.product_id, "sku_pro");
    assert_eq!(purchase.purchase_time, 1_700_000_000_123);
    assert!(purchase.is_auto_renewing);
    assert!(purchase.is_acknowledged);
    assert_eq!(
        purchase.original_json,
        "{\"status\":0,\"message\":\"\",\"productId\":\"sku_pro\"}"
    );
    assert_eq!(purchase.signature, "");
}

#[test]
fn already_purchased_is_purchased() {
    let purchase = adapter()
        .purchase_record("sku_gem", "inapp", 1, "", 7)
        .unwrap();
    assert_eq!(purchase.purchase_state, 0);
    assert!(!purchase.is_auto_renewing);
    assert_eq!(purchase.purchase_token, "win_sku_gem_7");
    assert_eq!(
        purchase.original_json,
        "{\"status\":1,\"message\":\"\",\"productId\":\"sku_gem\"}"
    );
}

#[test]
fn canceled_dialog_is_a_canceled_purchase() {
    let purchase = adapter()
        .purchase_record("sku_pro", "subs", 2, "The user closed the dialog", 7)
        .unwrap();
    assert_eq!(purchase.purchase_state, 1);
    assert_eq!(
        purchase.original_json,
        "{\"status\":2,\"message\":\"The user closed the dialog\",\"productId\":\"sku_pro\"}"
    );
}

#[test]
fn network_and_server_errors_fail() {
    assert_eq!(
        adapter().purchase_record("sku_pro", "subs", 3, "", 7).unwrap_err().to_string(),
        "Network error during purchase"
    );
    assert_eq!(
        adapter().purchase_record("sku_pro", "subs", 4, "", 7).unwrap_err().to_string(),
        "Server error during purchase"
    );
}

#[test]
fn unknown_statuses_fail() {
    for status in [5, -1, 100, i32::MIN, i32::MAX] {
        let failure = adapter().purchase_record("sku_pro", "subs", status, "", 7).unwrap_err();
        assert!(matches!(failure, IapError::Io(_)));
        assert_eq!(failure.to_string(), "Purchase failed");
    }
}

#[test]
fn purchase_quotes_the_message_of_the_extended_error() {
    let code = -2147467259;
    let purchase = adapter()
        .purchase(String::from("sku_pro"), String::from("subs"), 0, Some(code), 42)
        .unwrap();
    let message = windows_result::HRESULT(code).message();
    assert_eq!(
        purchase.original_json,
        format!("{{\"status\":0,\"message\":\"{}\",\"productId\":\"sku_pro\"}}", message)
    );
    assert!(adapter()
        .purchase(String::from("sku_pro"), String::from("subs"), 3, Some(code), 42)
        .is_err());
}

#[test]
fn purchase_before_the_unix_epoch() {
    let purchase = adapter().purchase_record("x", "inapp", 0, "", -5).unwrap();
    assert_eq!(purchase.purchase_token, "win_x_-5");
    assert_eq!(purchase.purchase_time, -5);
}

#[test]
fn active_subscription_license_becomes_a_purchase() {
    let purchase = adapter().convert_license_to_purchase(
        &license("sku_pro", "sku_pro/monthly", true, EXPIRATION_TICKS),
        "subs",
        99,
    );
    assert_eq!(purchase.order_id.as_deref(), Some("sku_pro/monthly"));
    assert_eq!(purchase.package_name, "com.example.app");
    assert_eq!(purchase.product_id, "sku_pro");
    assert_eq!(purchase.purchase_time, EXPIRATION_MILLIS - 30 * 24 * 60 * 60 * 1000);
    assert_eq!(purchase.purchase_token, "sku_pro/monthly");
    assert_eq!(purchase.purchase_state, 0);
    assert!(purchase.is_auto_renewing);
    assert!(purchase.is_acknowledged);
    assert_eq!(
        purchase.original_json,
        "{\"isActive\":true,\"expirationDate\":1704067200000}"
    );
    assert_eq!(purchase.signature, "");
}

#[test]
fn inactive_license_becomes_a_canceled_purchase() {
    let purchase = adapter().convert_license_to_purchase(
        &license("sku_pro", "sku_pro/monthly", false, EXPIRATION_TICKS),
        "subs",
        99,
    );
    assert_eq!(purchase.purchase_state, 1);
    assert!(!purchase.is_auto_renewing);
    assert_eq!(
        purchase.original_json,
        "{\"isActive\":false,\"expirationDate\":1704067200000}"
    );
}

#[test]
fn one_time_license_is_bought_now() {
    let purchase = adapter().convert_license_to_purchase(
        &license("sku_gem", "sku_gem/1", true, EXPIRATION_TICKS),
        "inapp",
        99,
    );
    assert_eq!(purchase.purchase_time, 99);
    assert!(!purchase.is_auto_renewing);
}

#[test]
fn license_without_expiration_is_bought_now() {
    let purchase = adapter().convert_license_to_purchase(
        &license("sku_pro", "sku_pro/monthly", true, 0),
        "subs",
        99,
    );
    assert_eq!(purchase.purchase_time, 99);
    assert_eq!(
        purchase.original_json,
        "{\"isActive\":true,\"expirationDate\":-11644473600000}"
    );
}

#[test]
fn restore_keeps_purchased_only() {
    let licenses = vec![
        license("a", "a/1", true, EXPIRATION_TICKS),
        license("b", "b/1", false, EXPIRATION_TICKS),
        license("c", "c/1", true, 0),
        license("d", "d/1", false, 0),
        license("e", "e/1", true, EXPIRATION_TICKS),
    ];
    for product_type in ["subs", "inapp", ""] {
        let response = adapter().restore_purchases(&licenses, product_type, 5).unwrap();
        let ids: Vec<&str> = response.purchases.iter().map(|p| p.product_id.as_str()).collect();
        assert_eq!(ids, vec!["a", "c", "e"]);
        assert!(response.purchases.iter().all(|p| p.purchase_state == 0));
    }
}

#[test]
fn restore_of_nothing_is_empty() {
    assert!(adapter().restore_purchases(&vec![], "subs", 5).unwrap().purchases.is_empty());
    let inactive = vec![license("b", "b/1", false, EXPIRATION_TICKS)];
    assert!(adapter().restore_purchases(&inactive, "subs", 5).unwrap().purchases.is_empty());
}

#[test]
fn history_is_not_kept() {
    let failure = adapter().get_purchase_history().unwrap_err();
    assert!(matches!(failure, IapError::Io(_)));
    assert_eq!(
        failure.to_string(),
        "Purchase history is not supported on this platform"
    );
}

#[test]
fn acknowledgment_always_succeeds() {
    assert!(adapter().acknowledge_purchase(String::from("any")).unwrap().success);
    assert!(adapter().acknowledge_purchase(String::new()).unwrap().success);
}

#[test]
fn product_without_license_is_unowned() {
    for product_type in ["subs", "inapp"] {
        let status = adapter()
            .get_product_status(String::from("sku_pro"), product_type, None)
            .unwrap();
        assert_eq!(status.product_id, "sku_pro");
        assert!(!status.is_owned);
        assert!(status.purchase_state.is_none());
        assert!(status.purchase_time.is_none());
        assert!(status.expiration_time.is_none());
        assert!(status.is_auto_renewing.is_none());
        assert!(status.is_acknowledged.is_none());
        assert!(status.purchase_token.is_none());
    }
}

#[test]
fn status_of_an_active_subscription() {
    let found = license("sku_pro", "sku_pro/monthly", true, EXPIRATION_TICKS);
    let status = adapter()
        .get_product_status(String::from("sku_pro"), "subs", Some(&found))
        .unwrap();
    assert!(status.is_owned);
    assert_eq!(
        status.purchase_state,
        Some(tauri_plugin_iap::models::PurchaseStateValue::Purchased)
    );
    assert_eq!(status.purchase_time, Some(EXPIRATION_MILLIS - 2_592_000_000));
    assert_eq!(status.expiration_time, Some(EXPIRATION_MILLIS));
    assert_eq!(status.is_auto_renewing, Some(true));
    assert_eq!(status.is_acknowledged, Some(true));
    assert_eq!(status.purchase_token.as_deref(), Some("sku_pro/monthly"));
}

#[test]
fn status_of_an_inactive_license() {
    let found = license("sku_pro", "sku_pro/monthly", false, EXPIRATION_TICKS);
    let status = adapter()
        .get_product_status(String::from("sku_pro"), "subs", Some(&found))
        .unwrap();
    assert!(!status.is_owned);
    assert_eq!(
        status.purchase_state,
        Some(tauri_plugin_iap::models::PurchaseStateValue::Canceled)
    );
    assert_eq!(status.is_auto_renewing, Some(false));
}

#[test]
fn status_of_a_one_time_product() {
    let found = license("sku_gem", "sku_gem/1", true, EXPIRATION_TICKS);
    let status = adapter()
        .get_product_status(String::from("sku_gem"), "inapp", Some(&found))
        .unwrap();
    assert_eq!(status.purchase_time, Some(EXPIRATION_MILLIS));
    assert_eq!(status.expiration_time, Some(EXPIRATION_MILLIS));
    assert_eq!(status.is_auto_renewing, Some(false));
}

#[test]
fn status_without_expiration() {
    let found = license("sku_pro", "sku_pro/monthly", true, 0);
    let status = adapter()
        .get_product_status(String::from("sku_pro"), "subs", Some(&found))
        .unwrap();
    assert_eq!(status.purchase_time, Some(-11_644_473_600_000));
    assert!(status.expiration_time.is_none());
    let at_epoch = license("sku_pro", "sku_pro/monthly", true, 116_444_736_000_000_000);
    let status = adapter()
        .get_product_status(String::from("sku_pro"), "subs", Some(&at_epoch))
        .unwrap();
    assert_eq!(status.purchase_time, Some(0));
    assert!(status.expiration_time.is_none());
}

#[test]
fn ownership_agrees_with_the_state() {
    for is_active in [true, false] {
        for product_type in ["subs", "inapp"] {
            let found = license("p", "p/1", is_active, EXPIRATION_TICKS);
            let status = adapter()
                .get_product_status(String::from("p"), product_type, Some(&found))
                .unwrap();
            assert_eq!(
                status.is_owned,
                status.purchase_state == Some(tauri_plugin_iap::models::PurchaseStateValue::Purchased)
            );
        }
    }
}

#[test]
fn context_is_had_once() {
    let mut cache: ContextCache<String> = ContextCache::new();
    let mut calls = 0;
    let first = cache
        .get_or_create(|| {
            calls += 1;
            Ok(String::from("context"))
        })
        .unwrap();
    assert_eq!(first, "context");
    let second = cache
        .get_or_create(|| {
            calls += 1;
            Ok(String::from("another"))
        })
        .unwrap();
    assert_eq!(second, "context");
    assert_eq!(calls, 1);
}

#[test]
fn failed_context_is_tried_again() {
    let mut cache: ContextCache<u8> = ContextCache::new();
    let failure = cache
        .get_or_create(|| Err(Iap::describe_failure(NativeCall::StoreContext, "denied")))
        .unwrap_err();
    assert_eq!(failure.to_string(), "Failed to get store context: denied");
    assert_eq!(cache.get_or_create(|| Ok(7)).unwrap(), 7);
    assert_eq!(cache.get_or_create(|| Ok(8)).unwrap(), 7);
}
