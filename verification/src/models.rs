//! Typed requests and responses of the bridge's operations.
//!
//! Each response is an opaque structured value decoded from a native
//! JSON payload; the bridge checks that the payload is well-formed JSON
//! and carries it without interpreting its fields, since schema
//! ownership belongs to the native module contract.

use vstd::prelude::*;

verus! {

/// Options of a purchase request.
pub struct PurchaseOptions {
    /// Offer token to redeem, if any.
    pub offer_token: Option<String>,
}

/// A purchase request: the product, its type, and optional options.
pub struct PurchaseRequest {
    /// Product identifier.
    pub product_id: String,
    /// Product type.
    pub product_type: String,
    /// Optional purchase options.
    pub options: Option<PurchaseOptions>,
}

/// Response of `initialize`: the native module's decoded JSON payload.
pub struct InitializeResponse {
    /// The well-formed JSON payload the native module returned.
    pub raw: String,
}

/// Response of `get_products`: the native module's decoded JSON payload.
pub struct GetProductsResponse {
    /// The well-formed JSON payload the native module returned.
    pub raw: String,
}

/// Response of `purchase`: the native module's decoded JSON payload.
pub struct Purchase {
    /// The well-formed JSON payload the native module returned.
    pub raw: String,
}

/// Response of `restore_purchases`: the native module's decoded JSON
/// payload.
pub struct RestorePurchasesResponse {
    /// The well-formed JSON payload the native module returned.
    pub raw: String,
}

/// Response of `get_purchase_history`: the native module's decoded JSON
/// payload.
pub struct GetPurchaseHistoryResponse {
    /// The well-formed JSON payload the native module returned.
    pub raw: String,
}

/// Response of `acknowledge_purchase`: the native module's decoded JSON
/// payload.
pub struct AcknowledgePurchaseResponse {
    /// The well-formed JSON payload the native module returned.
    pub raw: String,
}

/// Response of `get_product_status`: the native module's decoded JSON
/// payload.
pub struct ProductStatus {
    /// The well-formed JSON payload the native module returned.
    pub raw: String,
}

} // verus!
