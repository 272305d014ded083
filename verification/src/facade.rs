//! Bridge façade: the typed operations the host calls.
//!
//! Every privileged operation follows one shape: run the signature gate;
//! on success, request the corresponding native call; once the native
//! side answers, decode its raw outcome into the typed response or the
//! structured error. The host performs the native call itself (it owns
//! the asynchronous boundary) and is handed, on this side, exactly which
//! call to make and how to read what came back; when the signature gate reports
//! invalid, no native call is ever requested. Listener registration and
//! removal operate purely on the listener table and run no gate.

use vstd::prelude::*;

use crate::error::Error;
use crate::gate::gate_ok;
use crate::gate::is_gate_error;
use crate::gate::is_signature_valid;
use crate::gate::SignatureProbe;
use crate::marshal::parse;
use crate::marshal::parsed_payload_spec;
use crate::marshal::FFIResult;
use crate::models::AcknowledgePurchaseResponse;
use crate::models::GetProductsResponse;
use crate::models::GetPurchaseHistoryResponse;
use crate::models::InitializeResponse;
use crate::models::ProductStatus;
use crate::models::Purchase;
use crate::models::PurchaseRequest;
use crate::models::RestorePurchasesResponse;
use crate::relay::Listeners;

verus! {

/// One native operation the façade may request of the native module.
#[derive(Debug)]
pub enum NativeCall {
    /// Initialize the native purchase module.
    Initialize,
    /// Look up the given products of the given type.
    GetProducts {
        /// Product identifiers to look up.
        product_ids: Vec<String>,
        /// Product type.
        product_type: String,
    },
    /// Purchase a product, redeeming an offer token if one was given.
    Purchase {
        /// Product identifier.
        product_id: String,
        /// Product type.
        product_type: String,
        /// Offer token from the request's options, if any.
        offer_token: Option<String>,
    },
    /// Restore earlier purchases of the given type.
    RestorePurchases {
        /// Product type.
        product_type: String,
    },
    /// Fetch the purchase history.
    GetPurchaseHistory,
    /// Acknowledge a purchase by its token.
    AcknowledgePurchase {
        /// Purchase token to acknowledge.
        purchase_token: String,
    },
    /// Fetch the status of one product.
    GetProductStatus {
        /// Product identifier.
        product_id: String,
        /// Product type.
        product_type: String,
    },
}

/// Access to the bridge's APIs: owns the process-wide listener table.
pub struct Iap<H> {
    /// The listener table behind event fan-out.
    pub listeners: Listeners<H>,
}

/// Sets up the bridge: establishes the listener table (exactly once per
/// process; the host keeps the returned value for the process lifetime)
/// and hands back the façade.
pub fn init<H>() -> (r: Result<Iap<H>, Error>)
    ensures
        r matches Ok(iap) && iap.listeners.wf() && iap.listeners.is_initialized() && forall|
            e: Seq<char>,
        | #[trigger] iap.listeners.subs(e) == Map::<u32, H>::empty(),
{
    let mut listeners = Listeners::new();
    listeners.ensure_init();
    Ok(Iap { listeners })
}

impl<H> Iap<H> {
    /// Gate-checks and requests the native initialize call. An invalid
    /// signature short-circuits with the signature gate's error and requests no
    /// native call.
    pub fn initialize(&self, probe: &SignatureProbe) -> (r: Result<NativeCall, Error>)
        ensures
            gate_ok(*probe) ==> r == Ok::<NativeCall, Error>(NativeCall::Initialize),
            !gate_ok(*probe) ==> (r matches Err(e) && is_gate_error(*probe, e)),
    {
        match is_signature_valid(probe) {
            Ok(_) => Ok(NativeCall::Initialize),
            Err(e) => Err(e),
        }
    }

    /// Gate-checks and requests the native product lookup. An invalid
    /// signature short-circuits with the signature gate's error and requests no
    /// native call.
    pub fn get_products(
        &self,
        probe: &SignatureProbe,
        product_ids: Vec<String>,
        product_type: String,
    ) -> (r: Result<NativeCall, Error>)
        ensures
            gate_ok(*probe) ==> r == Ok::<NativeCall, Error>(
                NativeCall::GetProducts { product_ids, product_type },
            ),
            !gate_ok(*probe) ==> (r matches Err(e) && is_gate_error(*probe, e)),
    {
        match is_signature_valid(probe) {
            Ok(_) => Ok(NativeCall::GetProducts { product_ids, product_type }),
            Err(e) => Err(e),
        }
    }

    /// Gate-checks and requests the native purchase call, flattening the
    /// request's optional options into the offer token the native side
    /// takes. An invalid signature short-circuits with the signature gate's error
    /// and requests no native call.
    pub fn purchase(&self, probe: &SignatureProbe, payload: PurchaseRequest) -> (r: Result<
        NativeCall,
        Error,
    >)
        ensures
            gate_ok(*probe) ==> r == Ok::<NativeCall, Error>(
                NativeCall::Purchase {
                    product_id: payload.product_id,
                    product_type: payload.product_type,
                    offer_token: match payload.options {
                        Some(options) => options.offer_token,
                        None => None,
                    },
                },
            ),
            !gate_ok(*probe) ==> (r matches Err(e) && is_gate_error(*probe, e)),
    {
        match is_signature_valid(probe) {
            Ok(_) => {
                let offer_token = match payload.options {
                    Some(options) => options.offer_token,
                    None => None,
                };
                Ok(
                    NativeCall::Purchase {
                        product_id: payload.product_id,
                        product_type: payload.product_type,
                        offer_token,
                    },
                )
            },
            Err(e) => Err(e),
        }
    }

    /// Gate-checks and requests the native restore call. An invalid
    /// signature short-circuits with the signature gate's error and requests no
    /// native call.
    pub fn restore_purchases(&self, probe: &SignatureProbe, product_type: String) -> (r: Result<
        NativeCall,
        Error,
    >)
        ensures
            gate_ok(*probe) ==> r == Ok::<NativeCall, Error>(
                NativeCall::RestorePurchases { product_type },
            ),
            !gate_ok(*probe) ==> (r matches Err(e) && is_gate_error(*probe, e)),
    {
        match is_signature_valid(probe) {
            Ok(_) => Ok(NativeCall::RestorePurchases { product_type }),
            Err(e) => Err(e),
        }
    }

    /// Gate-checks and requests the native purchase-history call. An
    /// invalid signature short-circuits with the signature gate's error and
    /// requests no native call.
    pub fn get_purchase_history(&self, probe: &SignatureProbe) -> (r: Result<NativeCall, Error>)
        ensures
            gate_ok(*probe) ==> r == Ok::<NativeCall, Error>(NativeCall::GetPurchaseHistory),
            !gate_ok(*probe) ==> (r matches Err(e) && is_gate_error(*probe, e)),
    {
        match is_signature_valid(probe) {
            Ok(_) => Ok(NativeCall::GetPurchaseHistory),
            Err(e) => Err(e),
        }
    }

    /// Gate-checks and requests the native acknowledge call. An invalid
    /// signature short-circuits with the signature gate's error and requests no
    /// native call.
    pub fn acknowledge_purchase(&self, probe: &SignatureProbe, purchase_token: String) -> (r:
        Result<NativeCall, Error>)
        ensures
            gate_ok(*probe) ==> r == Ok::<NativeCall, Error>(
                NativeCall::AcknowledgePurchase { purchase_token },
            ),
            !gate_ok(*probe) ==> (r matches Err(e) && is_gate_error(*probe, e)),
    {
        match is_signature_valid(probe) {
            Ok(_) => Ok(NativeCall::AcknowledgePurchase { purchase_token }),
            Err(e) => Err(e),
        }
    }

    /// Gate-checks and requests the native product-status call. An
    /// invalid signature short-circuits with the signature gate's error and
    /// requests no native call.
    pub fn get_product_status(
        &self,
        probe: &SignatureProbe,
        product_id: String,
        product_type: String,
    ) -> (r: Result<NativeCall, Error>)
        ensures
            gate_ok(*probe) ==> r == Ok::<NativeCall, Error>(
                NativeCall::GetProductStatus { product_id, product_type },
            ),
            !gate_ok(*probe) ==> (r matches Err(e) && is_gate_error(*probe, e)),
    {
        match is_signature_valid(probe) {
            Ok(_) => Ok(NativeCall::GetProductStatus { product_id, product_type }),
            Err(e) => Err(e),
        }
    }

    /// Registers a listener for an event; runs no gate and no native
    /// call. Registering the same id twice replaces the handle.
    pub fn register_listener(&mut self, event: String, id: u32, handle: H) -> (r: Result<(), Error>)
        requires
            old(self).listeners.wf(),
        ensures
            final(self).listeners.wf(),
            final(self).listeners.is_initialized(),
            r is Ok,
            final(self).listeners.subs(event@) == old(self).listeners.subs(event@).insert(
                id,
                handle,
            ),
            forall|e: Seq<char>|
                e != event@ ==> #[trigger] final(self).listeners.subs(e) == old(
                    self,
                ).listeners.subs(e),
    {
        self.listeners.register_listener(event, id, handle)
    }

    /// Removes a listener; runs no gate and no native call. Removing an
    /// id that was never registered is a no-op, never an error, and an
    /// established listener table stays established, so removing twice
    /// in a row ends as removing once does.
    pub fn remove_listener(&mut self, event: &String, id: u32) -> (r: Result<(), Error>)
        requires
            old(self).listeners.wf(),
        ensures
            final(self).listeners.wf(),
            r is Ok,
            final(self).listeners.is_initialized() == old(self).listeners.is_initialized(),
            final(self).listeners.subs(event@) == old(self).listeners.subs(event@).remove(id),
            forall|e: Seq<char>|
                e != event@ ==> #[trigger] final(self).listeners.subs(e) == old(
                    self,
                ).listeners.subs(e),
    {
        self.listeners.remove_listener(event, id)
    }
}

/// Decodes the native outcome of `initialize`.
pub fn parse_initialize(outcome: Result<String, FFIResult>) -> (r: Result<
    InitializeResponse,
    Error,
>)
    ensures
        parsed_payload_spec(outcome, match r {
            Ok(resp) => Ok(resp.raw),
            Err(e) => Err(e),
        }),
{
    match parse(outcome) {
        Ok(raw) => Ok(InitializeResponse { raw }),
        Err(e) => Err(e),
    }
}

/// Decodes the native outcome of `get_products`.
pub fn parse_get_products(outcome: Result<String, FFIResult>) -> (r: Result<
    GetProductsResponse,
    Error,
>)
    ensures
        parsed_payload_spec(outcome, match r {
            Ok(resp) => Ok(resp.raw),
            Err(e) => Err(e),
        }),
{
    match parse(outcome) {
        Ok(raw) => Ok(GetProductsResponse { raw }),
        Err(e) => Err(e),
    }
}

/// Decodes the native outcome of `purchase`.
pub fn parse_purchase(outcome: Result<String, FFIResult>) -> (r: Result<Purchase, Error>)
    ensures
        parsed_payload_spec(outcome, match r {
            Ok(resp) => Ok(resp.raw),
            Err(e) => Err(e),
        }),
{
    match parse(outcome) {
        Ok(raw) => Ok(Purchase { raw }),
        Err(e) => Err(e),
    }
}

/// Decodes the native outcome of `restore_purchases`.
pub fn parse_restore_purchases(outcome: Result<String, FFIResult>) -> (r: Result<
    RestorePurchasesResponse,
    Error,
>)
    ensures
        parsed_payload_spec(outcome, match r {
            Ok(resp) => Ok(resp.raw),
            Err(e) => Err(e),
        }),
{
    match parse(outcome) {
        Ok(raw) => Ok(RestorePurchasesResponse { raw }),
        Err(e) => Err(e),
    }
}

/// Decodes the native outcome of `get_purchase_history`.
pub fn parse_get_purchase_history(outcome: Result<String, FFIResult>) -> (r: Result<
    GetPurchaseHistoryResponse,
    Error,
>)
    ensures
        parsed_payload_spec(outcome, match r {
            Ok(resp) => Ok(resp.raw),
            Err(e) => Err(e),
        }),
{
    match parse(outcome) {
        Ok(raw) => Ok(GetPurchaseHistoryResponse { raw }),
        Err(e) => Err(e),
    }
}

/// Decodes the native outcome of `acknowledge_purchase`.
pub fn parse_acknowledge_purchase(outcome: Result<String, FFIResult>) -> (r: Result<
    AcknowledgePurchaseResponse,
    Error,
>)
    ensures
        parsed_payload_spec(outcome, match r {
            Ok(resp) => Ok(resp.raw),
            Err(e) => Err(e),
        }),
{
    match parse(outcome) {
        Ok(raw) => Ok(AcknowledgePurchaseResponse { raw }),
        Err(e) => Err(e),
    }
}

/// Decodes the native outcome of `get_product_status`.
pub fn parse_product_status(outcome: Result<String, FFIResult>) -> (r: Result<ProductStatus, Error>)
    ensures
        parsed_payload_spec(outcome, match r {
            Ok(resp) => Ok(resp.raw),
            Err(e) => Err(e),
        }),
{
    match parse(outcome) {
        Ok(raw) => Ok(ProductStatus { raw }),
        Err(e) => Err(e),
    }
}

} // verus!
