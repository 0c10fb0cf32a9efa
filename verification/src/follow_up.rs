//! The payloads of the calls that follow an authorization: capture, cancellation,
//! refund, and the two status lookups. Each names an existing transaction by the
//! gateway's identifier.

use crate::auth::{
    lemma_some_outcome_may_be_issued, may_be_issued, PlacetopayAuth, PlacetopayAuthView,
    TokenOutcome,
};
use crate::domain::{
    payment_identifier_of, PaymentsCancelRouterData, PaymentsCaptureRouterData,
    PaymentsSyncRouterData, RSync, RefundsRouterData,
};
use crate::errors::{
    fails_with, or_encoding_failure, outcome_view, ConnectorError, ConnectorErrorView,
};
use crate::text::optional_text;
use crate::metadata::{authorization_in, json_as_text};
use crate::transaction_id::{is_transaction_id, parse_transaction_id, transaction_id_value};
use vstd::prelude::*;
use vstd::std_specs::convert::TryFromSpecImpl;
use vstd::string::*;

verus! {

/// The state transition that a call asks for on an existing transaction.
#[derive(Debug, Clone, Copy, PartialEq, Eq, Structural)]
pub enum PlacetopayNextAction {
    Refund,
    Reverse,
    Void,
    Process,
    Checkout,
}

impl PlacetopayNextAction {
    /// The name of the action on the wire.
    pub open spec fn wire_name(self) -> Seq<char> {
        match self {
            PlacetopayNextAction::Refund => "refund"@,
            PlacetopayNextAction::Reverse => "reverse"@,
            PlacetopayNextAction::Void => "void"@,
            PlacetopayNextAction::Process => "process"@,
            PlacetopayNextAction::Checkout => "checkout"@,
        }
    }

    /// The name under which the action travels.
    pub fn as_wire_name(self) -> (r: &'static str)
        ensures
            r@ == self.wire_name(),
    {
        match self {
            PlacetopayNextAction::Refund => "refund",
            PlacetopayNextAction::Reverse => "reverse",
            PlacetopayNextAction::Void => "void",
            PlacetopayNextAction::Process => "process",
            PlacetopayNextAction::Checkout => "checkout",
        }
    }
}

/// The identifier that a text names, or the failure of a text that names none.
pub open spec fn internal_reference_of(id: Seq<char>) -> Result<u64, ConnectorErrorView> {
    if is_transaction_id(id) {
        Ok(transaction_id_value(id) as u64)
    } else {
        Err(ConnectorErrorView::RequestEncodingFailed)
    }
}

/// The payload of a capture or a cancellation.
#[derive(Clone, PartialEq, Eq)]
pub struct PlacetopayNextActionRequest {
    pub auth: PlacetopayAuth,
    pub internal_reference: u64,
    pub action: PlacetopayNextAction,
}

/// The mathematical content of a [`PlacetopayNextActionRequest`].
pub struct PlacetopayNextActionRequestView {
    pub auth: PlacetopayAuthView,
    pub internal_reference: u64,
    pub action: PlacetopayNextAction,
}

impl View for PlacetopayNextActionRequest {
    type V = PlacetopayNextActionRequestView;

    open spec fn view(&self) -> PlacetopayNextActionRequestView {
        PlacetopayNextActionRequestView {
            auth: self.auth@,
            internal_reference: self.internal_reference,
            action: self.action,
        }
    }
}

/// What building a capture or a cancellation ends in, given the outcome of issuing
/// its token: a token that could not be issued fails first, then an identifier that
/// cannot be read.
pub open spec fn next_action_request_of(
    connector_transaction_id: Seq<char>,
    action: PlacetopayNextAction,
    token: TokenOutcome,
) -> Result<PlacetopayNextActionRequestView, ConnectorErrorView> {
    match token {
        Ok(auth) => match internal_reference_of(connector_transaction_id) {
            Ok(internal_reference) => Ok(
                PlacetopayNextActionRequestView { auth, internal_reference, action },
            ),
            Err(e) => Err(e),
        },
        Err(e) => Err(e),
    }
}

impl PlacetopayNextActionRequest {
    /// Builds the payload that asks for `action` on a transaction, from the outcome
    /// of issuing its token.
    pub fn with_auth(
        connector_transaction_id: &str,
        action: PlacetopayNextAction,
        token: Result<PlacetopayAuth, ConnectorError>,
    ) -> (r: Result<Self, ConnectorError>)
        ensures
            outcome_view(r) == next_action_request_of(
                connector_transaction_id@,
                action,
                outcome_view(token),
            ),
    {
        let auth = match token {
            Ok(auth) => auth,
            Err(e) => { return Err(e); },
        };
        match parse_transaction_id(connector_transaction_id) {
            Ok(internal_reference) => Ok(Self { auth, internal_reference, action }),
            Err(e) => Err(e),
        }
    }
}

/// The conversion is specified on `try_from` itself: no spec function gives its
/// result.
impl TryFromSpecImpl<&PaymentsCaptureRouterData> for PlacetopayNextActionRequest {
    open spec fn obeys_try_from_spec() -> bool {
        false
    }

    open spec fn try_from_spec(item: &PaymentsCaptureRouterData) -> Result<Self, ConnectorError> {
        arbitrary()
    }
}

impl TryFrom<&PaymentsCaptureRouterData> for PlacetopayNextActionRequest {
    type Error = ConnectorError;

    /// Builds the payload of a capture, issuing a fresh token for it. A capture asks
    /// the gateway to check the transaction out.
    fn try_from(item: &PaymentsCaptureRouterData) -> (r: Result<Self, ConnectorError>)
        ensures
            exists|token: TokenOutcome| #[trigger]
                may_be_issued(item.connector_auth_type, token) && outcome_view(r)
                    == next_action_request_of(
                    item.request.connector_transaction_id@,
                    PlacetopayNextAction::Checkout,
                    token,
                ),
    {
        let token = PlacetopayAuth::try_from(&item.connector_auth_type);
        Self::with_auth(
            item.request.connector_transaction_id.as_str(),
            PlacetopayNextAction::Checkout,
            token,
        )
    }
}

/// The conversion is specified on `try_from` itself: no spec function gives its
/// result.
impl TryFromSpecImpl<&PaymentsCancelRouterData> for PlacetopayNextActionRequest {
    open spec fn obeys_try_from_spec() -> bool {
        false
    }

    open spec fn try_from_spec(item: &PaymentsCancelRouterData) -> Result<Self, ConnectorError> {
        arbitrary()
    }
}

impl TryFrom<&PaymentsCancelRouterData> for PlacetopayNextActionRequest {
    type Error = ConnectorError;

    /// Builds the payload of a cancellation, issuing a fresh token for it. A
    /// cancellation asks the gateway to void the transaction.
    fn try_from(item: &PaymentsCancelRouterData) -> (r: Result<Self, ConnectorError>)
        ensures
            exists|token: TokenOutcome| #[trigger]
                may_be_issued(item.connector_auth_type, token) && outcome_view(r)
                    == next_action_request_of(
                    item.request.connector_transaction_id@,
                    PlacetopayNextAction::Void,
                    token,
                ),
    {
        let token = PlacetopayAuth::try_from(&item.connector_auth_type);
        Self::with_auth(
            item.request.connector_transaction_id.as_str(),
            PlacetopayNextAction::Void,
            token,
        )
    }
}

/// The payload of a refund.
#[derive(Clone, PartialEq, Eq)]
pub struct PlacetopayRefundRequest {
    pub auth: PlacetopayAuth,
    pub internal_reference: u64,
    pub action: PlacetopayNextAction,
    pub authorization: Option<String>,
}

/// The mathematical content of a [`PlacetopayRefundRequest`].
pub struct PlacetopayRefundRequestView {
    pub auth: PlacetopayAuthView,
    pub internal_reference: u64,
    pub action: PlacetopayNextAction,
    pub authorization: Option<Seq<char>>,
}

impl View for PlacetopayRefundRequest {
    type V = PlacetopayRefundRequestView;

    open spec fn view(&self) -> PlacetopayRefundRequestView {
        PlacetopayRefundRequestView {
            auth: self.auth@,
            internal_reference: self.internal_reference,
            action: self.action,
            authorization: optional_text(self.authorization),
        }
    }
}

/// The failure of a refund of less than the whole payment.
pub open spec fn partial_refund_not_supported() -> ConnectorErrorView {
    ConnectorErrorView::NotSupported { message: "Partial Refund"@, connector: "placetopay"@ }
}

/// What building a refund ends in, given the outcome of issuing its token.
///
/// Only the whole payment can be refunded: any other amount fails first. Then comes
/// a token that could not be issued, then an identifier that cannot be read. A
/// refund asks the gateway to reverse the transaction, and hands back the
/// authorization code that the payment's metadata carries, if it carries one.
pub open spec fn refund_request_of<F>(item: &RefundsRouterData<F>, token: TokenOutcome) -> Result<
    PlacetopayRefundRequestView,
    ConnectorErrorView,
> {
    if item.request.minor_refund_amount == item.request.minor_payment_amount {
        match token {
            Ok(auth) => match internal_reference_of(item.request.connector_transaction_id@) {
                Ok(internal_reference) => Ok(
                    PlacetopayRefundRequestView {
                        auth,
                        internal_reference,
                        action: PlacetopayNextAction::Reverse,
                        authorization: authorization_in(item.request.connector_metadata),
                    },
                ),
                Err(e) => Err(e),
            },
            Err(e) => Err(e),
        }
    } else {
        Err(partial_refund_not_supported())
    }
}

/// A refund of the whole payment is built whenever its token was issued and its
/// identifier can be read; a refund of any other amount is refused as not
/// supported, whatever the token and the identifier.
pub proof fn lemma_refund_amount_decides<F>(item: &RefundsRouterData<F>, token: TokenOutcome)
    ensures
        item.request.minor_refund_amount == item.request.minor_payment_amount && token is Ok
            && is_transaction_id(item.request.connector_transaction_id@) ==> refund_request_of(
            item,
            token,
        ) is Ok,
        item.request.minor_refund_amount != item.request.minor_payment_amount ==> fails_with(
            refund_request_of(item, token),
            partial_refund_not_supported(),
        ),
{
}

/// A follow-up call that is built carries the token that was issued for it, be it a
/// capture, a cancellation, a refund or a status lookup.
pub proof fn lemma_follow_up_carries_token<F>(
    connector_transaction_id: Seq<char>,
    action: PlacetopayNextAction,
    refund: &RefundsRouterData<F>,
    lookup: Result<Seq<char>, ConnectorErrorView>,
    token: TokenOutcome,
)
    ensures
        next_action_request_of(connector_transaction_id, action, token) matches Ok(request)
            ==> token matches Ok(auth) && request.auth == auth,
        refund_request_of(refund, token) matches Ok(request) ==> token matches Ok(auth)
            && request.auth == auth,
        sync_request_of(lookup, token) matches Ok(request) ==> token matches Ok(auth)
            && request.auth == auth,
{
}

impl PlacetopayRefundRequest {
    /// The failure of a refund of less or more than the whole payment.
    fn partial_refund() -> (e: ConnectorError)
        ensures
            e@ == partial_refund_not_supported(),
    {
        ConnectorError::NotSupported {
            message: "Partial Refund".to_owned(),
            connector: "placetopay",
        }
    }

    /// Builds the payload of a refund from the outcome of issuing its token.
    pub fn with_auth<F>(item: &RefundsRouterData<F>, token: Result<PlacetopayAuth, ConnectorError>)
        -> (r: Result<Self, ConnectorError>)
        ensures
            outcome_view(r) == refund_request_of(item, outcome_view(token)),
    {
        if item.request.minor_refund_amount.0 != item.request.minor_payment_amount.0 {
            return Err(Self::partial_refund());
        }
        let auth = match token {
            Ok(auth) => auth,
            Err(e) => { return Err(e); },
        };
        let internal_reference = match parse_transaction_id(
            item.request.connector_transaction_id.as_str(),
        ) {
            Ok(internal_reference) => internal_reference,
            Err(e) => { return Err(e); },
        };
        let authorization = match &item.request.connector_metadata {
            Some(metadata) => json_as_text(metadata),
            None => None,
        };
        Ok(
            Self {
                auth,
                internal_reference,
                action: PlacetopayNextAction::Reverse,
                authorization,
            },
        )
    }
}

/// The conversion is specified on `try_from` itself: no spec function gives its
/// result.
impl<F> TryFromSpecImpl<&RefundsRouterData<F>> for PlacetopayRefundRequest {
    open spec fn obeys_try_from_spec() -> bool {
        false
    }

    open spec fn try_from_spec(item: &RefundsRouterData<F>) -> Result<Self, ConnectorError> {
        arbitrary()
    }
}

impl<F> TryFrom<&RefundsRouterData<F>> for PlacetopayRefundRequest {
    type Error = ConnectorError;

    /// Builds the payload of a refund, issuing a fresh token for it.
    ///
    /// No token is issued for a refund of less or more than the whole payment.
    fn try_from(item: &RefundsRouterData<F>) -> (r: Result<Self, ConnectorError>)
        ensures
            exists|token: TokenOutcome| #[trigger]
                may_be_issued(item.connector_auth_type, token) && outcome_view(r)
                    == refund_request_of(item, token),
            item.request.minor_refund_amount != item.request.minor_payment_amount ==> fails_with(
                outcome_view(r),
                partial_refund_not_supported(),
            ),
    {
        if item.request.minor_refund_amount.0 == item.request.minor_payment_amount.0 {
            let token = PlacetopayAuth::try_from(&item.connector_auth_type);
            Self::with_auth(item, token)
        } else {
            proof {
                lemma_some_outcome_may_be_issued(item.connector_auth_type);
            }
            Err(Self::partial_refund())
        }
    }
}

/// The mathematical content of a status lookup, of a refund or of a payment.
pub struct PlacetopaySyncRequestView {
    pub auth: PlacetopayAuthView,
    pub internal_reference: u64,
}

/// What building a status lookup ends in, given the outcome of issuing its token
/// and the text of the identifier: a lookup asks for no action.
pub open spec fn sync_request_of(
    connector_transaction_id: Result<Seq<char>, ConnectorErrorView>,
    token: TokenOutcome,
) -> Result<PlacetopaySyncRequestView, ConnectorErrorView> {
    match token {
        Ok(auth) => match connector_transaction_id {
            Ok(id) => match internal_reference_of(id) {
                Ok(internal_reference) => Ok(
                    PlacetopaySyncRequestView { auth, internal_reference },
                ),
                Err(e) => Err(e),
            },
            Err(e) => Err(e),
        },
        Err(e) => Err(e),
    }
}

/// The payload of a refund status lookup.
#[derive(Clone, PartialEq, Eq)]
pub struct PlacetopayRsyncRequest {
    pub auth: PlacetopayAuth,
    pub internal_reference: u64,
}

impl View for PlacetopayRsyncRequest {
    type V = PlacetopaySyncRequestView;

    open spec fn view(&self) -> PlacetopaySyncRequestView {
        PlacetopaySyncRequestView { auth: self.auth@, internal_reference: self.internal_reference }
    }
}

impl PlacetopayRsyncRequest {
    /// Builds the payload of a refund status lookup from the outcome of issuing its
    /// token.
    pub fn with_auth(item: &RefundsRouterData<RSync>, token: Result<PlacetopayAuth, ConnectorError>)
        -> (r: Result<Self, ConnectorError>)
        ensures
            outcome_view(r) == sync_request_of(
                Ok(item.request.connector_transaction_id@),
                outcome_view(token),
            ),
    {
        let auth = match token {
            Ok(auth) => auth,
            Err(e) => { return Err(e); },
        };
        match parse_transaction_id(item.request.connector_transaction_id.as_str()) {
            Ok(internal_reference) => Ok(Self { auth, internal_reference }),
            Err(e) => Err(e),
        }
    }
}

/// The conversion is specified on `try_from` itself: no spec function gives its
/// result.
impl TryFromSpecImpl<&RefundsRouterData<RSync>> for PlacetopayRsyncRequest {
    open spec fn obeys_try_from_spec() -> bool {
        false
    }

    open spec fn try_from_spec(item: &RefundsRouterData<RSync>) -> Result<Self, ConnectorError> {
        arbitrary()
    }
}

impl TryFrom<&RefundsRouterData<RSync>> for PlacetopayRsyncRequest {
    type Error = ConnectorError;

    /// Builds the payload of a refund status lookup, issuing a fresh token for it.
    fn try_from(item: &RefundsRouterData<RSync>) -> (r: Result<Self, ConnectorError>)
        ensures
            exists|token: TokenOutcome| #[trigger]
                may_be_issued(item.connector_auth_type, token) && outcome_view(r)
                    == sync_request_of(Ok(item.request.connector_transaction_id@), token),
    {
        let token = PlacetopayAuth::try_from(&item.connector_auth_type);
        Self::with_auth(item, token)
    }
}

/// The payload of a payment status lookup.
#[derive(Clone, PartialEq, Eq)]
pub struct PlacetopayPsyncRequest {
    pub auth: PlacetopayAuth,
    pub internal_reference: u64,
}

impl View for PlacetopayPsyncRequest {
    type V = PlacetopaySyncRequestView;

    open spec fn view(&self) -> PlacetopaySyncRequestView {
        PlacetopaySyncRequestView { auth: self.auth@, internal_reference: self.internal_reference }
    }
}

impl PlacetopayPsyncRequest {
    /// Builds the payload of a payment status lookup from the outcome of issuing its
    /// token.
    pub fn with_auth(item: &PaymentsSyncRouterData, token: Result<PlacetopayAuth, ConnectorError>)
        -> (r: Result<Self, ConnectorError>)
        ensures
            outcome_view(r) == sync_request_of(
                or_encoding_failure(payment_identifier_of(item.request.connector_transaction_id)),
                outcome_view(token),
            ),
    {
        let auth = match token {
            Ok(auth) => auth,
            Err(e) => { return Err(e); },
        };
        let id = match item.request.get_connector_transaction_id() {
            Ok(id) => id,
            Err(e) => { return Err(e); },
        };
        match parse_transaction_id(id.as_str()) {
            Ok(internal_reference) => Ok(Self { auth, internal_reference }),
            Err(e) => Err(e),
        }
    }
}

/// The conversion is specified on `try_from` itself: no spec function gives its
/// result.
impl TryFromSpecImpl<&PaymentsSyncRouterData> for PlacetopayPsyncRequest {
    open spec fn obeys_try_from_spec() -> bool {
        false
    }

    open spec fn try_from_spec(item: &PaymentsSyncRouterData) -> Result<Self, ConnectorError> {
        arbitrary()
    }
}

impl TryFrom<&PaymentsSyncRouterData> for PlacetopayPsyncRequest {
    type Error = ConnectorError;

    /// Builds the payload of a payment status lookup, issuing a fresh token for it.
    fn try_from(item: &PaymentsSyncRouterData) -> (r: Result<Self, ConnectorError>)
        ensures
            exists|token: TokenOutcome| #[trigger]
                may_be_issued(item.connector_auth_type, token) && outcome_view(r)
                    == sync_request_of(
                    or_encoding_failure(
                        payment_identifier_of(item.request.connector_transaction_id),
                    ),
                    token,
                ),
    {
        let token = PlacetopayAuth::try_from(&item.connector_auth_type);
        Self::with_auth(item, token)
    }
}

} // verus!
