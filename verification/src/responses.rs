//! The gateway's answers, and how each is written into the canonical record of the
//! call that it answers.

use crate::auth::TokenOutcome;
use crate::domain::{
    AttemptStatus, Execute, PaymentsResponseData, RSync, RefundStatus, RefundsResponseData,
    RefundsResponseRouterData, RefundsRouterData, ResponseId, ResponseRouterData, RouterData,
};
use crate::errors::{ConnectorError, ConnectorErrorView};
use crate::follow_up::{internal_reference_of, refund_request_of};
use crate::metadata::{authorization_in, json_from_text};
use crate::status::{PlacetopayErrorStatus, PlacetopayRefundStatus, PlacetopayTransactionStatus};
use crate::text::optional_text;
use crate::transaction_id::{decimal_text, lemma_render_then_parse, render_transaction_id};
use vstd::prelude::*;
use vstd::std_specs::convert::TryFromSpecImpl;

verus! {

/// The status block of an answer to a payment call.
#[derive(Debug, Clone, Copy, PartialEq, Eq)]
pub struct PlacetopayStatusResponse {
    pub status: PlacetopayTransactionStatus,
}

/// The gateway's answer to a payment call.
#[derive(Debug, Clone, PartialEq, Eq)]
pub struct PlacetopayPaymentsResponse {
    pub status: PlacetopayStatusResponse,
    pub internal_reference: u64,
    pub authorization: Option<String>,
}

/// The status block of an answer to a refund call.
#[derive(Debug, Clone, Copy, PartialEq, Eq)]
pub struct PlacetopayRefundStatusResponse {
    pub status: PlacetopayRefundStatus,
}

/// The gateway's answer to a refund call.
#[derive(Debug, Clone, Copy, PartialEq, Eq)]
pub struct PlacetopayRefundResponse {
    pub status: PlacetopayRefundStatusResponse,
    pub internal_reference: u64,
}

/// The gateway's answer where the call failed.
#[derive(Debug, Clone, PartialEq, Eq)]
pub struct PlacetopayErrorResponse {
    pub status: PlacetopayError,
}

/// What the gateway says of a failed call.
#[derive(Debug, Clone, PartialEq, Eq)]
pub struct PlacetopayError {
    pub status: PlacetopayErrorStatus,
    pub message: String,
    pub reason: String,
}

impl PlacetopayPaymentsResponse {
    /// Reads an answer to a payment call from the values on the wire. The answer is
    /// refused where its status is none of the accepted ones.
    pub fn from_wire(status: &str, internal_reference: u64, authorization: Option<String>) -> (r:
        Result<Self, ConnectorError>)
        ensures
            match r {
                Ok(answer) => {
                    &&& PlacetopayTransactionStatus::named(status@) == Some(answer.status.status)
                    &&& answer.internal_reference == internal_reference
                    &&& answer.authorization == authorization
                },
                Err(e) => PlacetopayTransactionStatus::named(status@) is None && e@
                    == ConnectorErrorView::ResponseDeserializationFailed,
            },
    {
        match PlacetopayTransactionStatus::from_wire_name(status) {
            Ok(status) => Ok(
                Self {
                    status: PlacetopayStatusResponse { status },
                    internal_reference,
                    authorization,
                },
            ),
            Err(e) => Err(e),
        }
    }
}

impl PlacetopayRefundResponse {
    /// Reads an answer to a refund call from the values on the wire. The answer is
    /// refused where its status is none of the accepted ones.
    pub fn from_wire(status: &str, internal_reference: u64) -> (r: Result<Self, ConnectorError>)
        ensures
            match r {
                Ok(answer) => {
                    &&& PlacetopayRefundStatus::named(status@) == Some(answer.status.status)
                    &&& answer.internal_reference == internal_reference
                },
                Err(e) => PlacetopayRefundStatus::named(status@) is None && e@
                    == ConnectorErrorView::ResponseDeserializationFailed,
            },
    {
        match PlacetopayRefundStatus::from_wire_name(status) {
            Ok(status) => Ok(
                Self { status: PlacetopayRefundStatusResponse { status }, internal_reference },
            ),
            Err(e) => Err(e),
        }
    }
}

impl PlacetopayErrorResponse {
    /// Reads an error-shaped answer from the values on the wire. The answer is
    /// refused where its status is not the one that such answers carry.
    pub fn from_wire(status: &str, message: String, reason: String) -> (r: Result<
        Self,
        ConnectorError,
    >)
        ensures
            match r {
                Ok(answer) => {
                    &&& PlacetopayErrorStatus::named(status@) == Some(answer.status.status)
                    &&& answer.status.message == message
                    &&& answer.status.reason == reason
                },
                Err(e) => PlacetopayErrorStatus::named(status@) is None && e@
                    == ConnectorErrorView::ResponseDeserializationFailed,
            },
    {
        match PlacetopayErrorStatus::from_wire_name(status) {
            Ok(status) => Ok(Self { status: PlacetopayError { status, message, reason } }),
            Err(e) => Err(e),
        }
    }
}

/// Whether `data` is the canonical content of the answer `response`: the gateway's
/// identifier as decimal text, the authorization code as metadata where there is
/// one, and nothing else.
pub open spec fn is_payment_response_of(
    data: PaymentsResponseData,
    response: PlacetopayPaymentsResponse,
) -> bool {
    match data {
        PaymentsResponseData::TransactionResponse {
            resource_id,
            connector_metadata,
            network_txn_id,
            connector_response_reference_id,
        } => {
            &&& resource_id matches ResponseId::ConnectorTransactionId(id) && id@ == decimal_text(
                response.internal_reference as nat,
            )
            &&& connector_metadata is Some <==> response.authorization is Some
            &&& authorization_in(connector_metadata) == optional_text(response.authorization)
            &&& network_txn_id is None
            &&& connector_response_reference_id is None
        },
    }
}

/// Whether `data` is the canonical content of the answer `response`: the gateway's
/// identifier as decimal text, which becomes the refund's identifier, and the
/// canonical status.
pub open spec fn is_refund_response_of(
    data: RefundsResponseData,
    response: PlacetopayRefundResponse,
) -> bool {
    &&& data.connector_refund_id@ == decimal_text(response.internal_reference as nat)
    &&& data.refund_status == response.status.status.normalized()
}

/// Whether two records of a call agree in everything but status and answer.
pub open spec fn same_call<Flow, Request, Response>(
    a: RouterData<Flow, Request, Response>,
    b: RouterData<Flow, Request, Response>,
) -> bool {
    &&& a.flow == b.flow
    &&& a.connector_auth_type == b.connector_auth_type
    &&& a.connector_request_reference_id == b.connector_request_reference_id
    &&& a.description == b.description
    &&& a.request == b.request
}

/// The conversion is specified on `try_from` itself: no spec function gives its
/// result.
impl<F, T>
    TryFromSpecImpl<ResponseRouterData<F, PlacetopayPaymentsResponse, T, PaymentsResponseData>>
    for RouterData<F, T, PaymentsResponseData>
{
    open spec fn obeys_try_from_spec() -> bool {
        false
    }

    open spec fn try_from_spec(
        item: ResponseRouterData<F, PlacetopayPaymentsResponse, T, PaymentsResponseData>,
    ) -> Result<Self, ConnectorError> {
        arbitrary()
    }
}

impl<F, T>
    TryFrom<ResponseRouterData<F, PlacetopayPaymentsResponse, T, PaymentsResponseData>>
    for RouterData<F, T, PaymentsResponseData>
{
    type Error = ConnectorError;

    /// Writes the gateway's answer to a payment call into the record of the call.
    /// This always succeeds: the status becomes the canonical one, the answer takes
    /// the place of whatever the record held, and the rest of the record stays.
    fn try_from(
        item: ResponseRouterData<F, PlacetopayPaymentsResponse, T, PaymentsResponseData>,
    ) -> (r: Result<Self, ConnectorError>)
        ensures
            r matches Ok(data) && {
                &&& same_call(data, item.data)
                &&& data.status == item.response.status.status.normalized()
                &&& data.response matches Ok(answer) && is_payment_response_of(
                    answer,
                    item.response,
                )
            },
    {
        let ResponseRouterData { response, data, http_code: _ } = item;
        let connector_metadata = match response.authorization {
            Some(authorization) => Some(json_from_text(authorization)),
            None => None,
        };
        Ok(
            Self {
                status: AttemptStatus::from(response.status.status),
                response: Ok(
                    PaymentsResponseData::TransactionResponse {
                        resource_id: ResponseId::ConnectorTransactionId(
                            render_transaction_id(response.internal_reference),
                        ),
                        connector_metadata,
                        network_txn_id: None,
                        connector_response_reference_id: None,
                    },
                ),
                flow: data.flow,
                connector_auth_type: data.connector_auth_type,
                connector_request_reference_id: data.connector_request_reference_id,
                description: data.description,
                request: data.request,
            },
        )
    }
}

/// Writes the gateway's answer to a refund call into the record of the call.
fn refund_answered<F>(item: RefundsResponseRouterData<F, PlacetopayRefundResponse>) -> (data:
    RefundsRouterData<F>)
    ensures
        same_call(data, item.data),
        data.status == item.data.status,
        data.response matches Ok(answer) && is_refund_response_of(answer, item.response),
{
    let ResponseRouterData { response, data, http_code: _ } = item;
    RouterData {
        response: Ok(
            RefundsResponseData {
                connector_refund_id: render_transaction_id(response.internal_reference),
                refund_status: RefundStatus::from(response.status.status),
            },
        ),
        flow: data.flow,
        connector_auth_type: data.connector_auth_type,
        connector_request_reference_id: data.connector_request_reference_id,
        description: data.description,
        status: data.status,
        request: data.request,
    }
}

/// The conversion is specified on `try_from` itself: no spec function gives its
/// result.
impl TryFromSpecImpl<RefundsResponseRouterData<Execute, PlacetopayRefundResponse>>
    for RefundsRouterData<Execute>
{
    open spec fn obeys_try_from_spec() -> bool {
        false
    }

    open spec fn try_from_spec(
        item: RefundsResponseRouterData<Execute, PlacetopayRefundResponse>,
    ) -> Result<Self, ConnectorError> {
        arbitrary()
    }
}

impl TryFrom<RefundsResponseRouterData<Execute, PlacetopayRefundResponse>>
    for RefundsRouterData<Execute>
{
    type Error = ConnectorError;

    /// Writes the gateway's answer to a refund into the record of the call. This
    /// always succeeds: the gateway's identifier becomes the refund's, the status the
    /// canonical one, and the rest of the record stays.
    fn try_from(item: RefundsResponseRouterData<Execute, PlacetopayRefundResponse>) -> (r: Result<
        Self,
        ConnectorError,
    >)
        ensures
            r matches Ok(data) && {
                &&& same_call(data, item.data)
                &&& data.status == item.data.status
                &&& data.response matches Ok(answer) && is_refund_response_of(answer, item.response)
            },
    {
        Ok(refund_answered(item))
    }
}

/// The conversion is specified on `try_from` itself: no spec function gives its
/// result.
impl TryFromSpecImpl<RefundsResponseRouterData<RSync, PlacetopayRefundResponse>>
    for RefundsRouterData<RSync>
{
    open spec fn obeys_try_from_spec() -> bool {
        false
    }

    open spec fn try_from_spec(
        item: RefundsResponseRouterData<RSync, PlacetopayRefundResponse>,
    ) -> Result<Self, ConnectorError> {
        arbitrary()
    }
}

impl TryFrom<RefundsResponseRouterData<RSync, PlacetopayRefundResponse>>
    for RefundsRouterData<RSync>
{
    type Error = ConnectorError;

    /// Writes the gateway's answer to a refund status lookup into the record of the
    /// call. This always succeeds: the gateway's identifier becomes the refund's, the
    /// status the canonical one, and the rest of the record stays.
    fn try_from(item: RefundsResponseRouterData<RSync, PlacetopayRefundResponse>) -> (r: Result<
        Self,
        ConnectorError,
    >)
        ensures
            r matches Ok(data) && {
                &&& same_call(data, item.data)
                &&& data.status == item.data.status
                &&& data.response matches Ok(answer) && is_refund_response_of(answer, item.response)
            },
    {
        Ok(refund_answered(item))
    }
}

/// The identifier that a canonical answer carries names the transaction that the
/// gateway answered for: read back for a later call, it is the gateway's number
/// again.
pub proof fn lemma_answer_names_transaction(
    data: PaymentsResponseData,
    response: PlacetopayPaymentsResponse,
)
    requires
        is_payment_response_of(data, response),
    ensures
        data matches PaymentsResponseData::TransactionResponse {
            resource_id: ResponseId::ConnectorTransactionId(id),
            ..
        } && internal_reference_of(id@) matches Ok(n) && n == response.internal_reference,
{
    lemma_render_then_parse(response.internal_reference);
}

/// The authorization code of a payment comes back with its refund: a refund that is
/// built on the metadata of a canonical answer carries the code that the gateway
/// gave, or none where it gave none.
pub proof fn lemma_authorization_carries_over<F>(
    data: PaymentsResponseData,
    response: PlacetopayPaymentsResponse,
    refund: &RefundsRouterData<F>,
    token: TokenOutcome,
)
    requires
        is_payment_response_of(data, response),
        data matches PaymentsResponseData::TransactionResponse { connector_metadata, .. }
            && refund.request.connector_metadata == connector_metadata,
    ensures
        refund_request_of(refund, token) matches Ok(request) ==> request.authorization
            == optional_text(response.authorization),
{
}

} // verus!
