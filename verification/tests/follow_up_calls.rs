use placetopay::auth::{PlacetopayAuth, PlacetopayAuthType};
use placetopay::domain::{
    AttemptStatus, ConnectorAuthType, Currency, ErrorResponse, MinorUnit, PaymentsCancelData,
    PaymentsCancelRouterData, PaymentsCaptureData, PaymentsCaptureRouterData, PaymentsSyncData,
    PaymentsSyncRouterData, RSync, RefundsData, RefundsRouterData, ResponseId, RouterData, Execute,
};
use placetopay::errors::ConnectorError;
use placetopay::follow_up::{
    PlacetopayNextAction, PlacetopayNextActionRequest, PlacetopayPsyncRequest,
    PlacetopayRefundRequest, PlacetopayRsyncRequest,
};
use std::marker::PhantomData;

fn body_key() -> ConnectorAuthType {
    ConnectorAuthType::BodyKey { api_key: "login".to_string(), key1: "secret".to_string() }
}

fn fixed_token() -> PlacetopayAuth {
    let credentials =
        PlacetopayAuthType { login: "login".to_string(), tran_key: "secret".to_string() };
    PlacetopayAuth::from_parts(&credentials, &[0u8; 16], "2024-01-01T00:00:00.000+00:00".to_string())
        .unwrap()
}

fn record<F, Req, Resp>(request: Req) -> RouterData<F, Req, Resp> {
    RouterData {
        flow: PhantomData,
        connector_auth_type: body_key(),
        connector_request_reference_id: "order-42".to_string(),
        description: None,
        status: AttemptStatus::Pending,
        request,
        response: Err(ErrorResponse {
            code: "".to_string(),
            message: "".to_string(),
            reason: None,
            status_code: 0,
        }),
    }
}

fn capture(id: &str) -> PaymentsCaptureRouterData {
    record(PaymentsCaptureData {
        connector_transaction_id: id.to_string(),
        minor_amount_to_capture: MinorUnit::new(100),
        currency: Currency::USD,
    })
}

fn cancel(id: &str) -> PaymentsCancelRouterData {
    record(PaymentsCancelData { connector_transaction_id: id.to_string(), cancellation_reason: None })
}

fn refund_data(id: &str, payment: i64, refund: i64, metadata: Option<serde_json::Value>) -> RefundsData {
    RefundsData {
        refund_id: "refund-1".to_string(),
        connector_transaction_id: id.to_string(),
        minor_payment_amount: MinorUnit::new(payment),
        minor_refund_amount: MinorUnit::new(refund),
        currency: Currency::USD,
        connector_metadata: metadata,
    }
}

fn partial_refund() -> ConnectorError {
    ConnectorError::NotSupported { message: "Partial Refund".to_string(), connector: "placetopay" }
}

#[test]
fn capture_checks_out() {
    let item = capture("123456789");
    let request = PlacetopayNextActionRequest::try_from(&item).unwrap();
    assert_eq!(request.internal_reference, 123456789);
    assert_eq!(request.action, PlacetopayNextAction::Checkout);
    assert_eq!(request.auth.login, "login");
}

#[test]
fn cancel_voids() {
    let item = cancel("987");
    let request = PlacetopayNextActionRequest::try_from(&item).unwrap();
    assert_eq!(request.internal_reference, 987);
    assert_eq!(request.action, PlacetopayNextAction::Void);
}

#[test]
fn next_action_with_given_token() {
    let request =
        PlacetopayNextActionRequest::with_auth("42", PlacetopayNextAction::Process, Ok(fixed_token()))
            .unwrap();
    assert!(request.auth == fixed_token());
    assert_eq!(request.internal_reference, 42);
    assert_eq!(request.action, PlacetopayNextAction::Process);
}

#[test]
fn next_action_refuses_unreadable_identifier() {
    assert!(
        PlacetopayNextActionRequest::try_from(&capture("abc"))
            == Err(ConnectorError::RequestEncodingFailed)
    );
    assert!(
        PlacetopayNextActionRequest::try_from(&cancel(""))
            == Err(ConnectorError::RequestEncodingFailed)
    );
    assert!(
        PlacetopayNextActionRequest::try_from(&capture("18446744073709551616"))
            == Err(ConnectorError::RequestEncodingFailed)
    );
}

#[test]
fn token_failure_comes_before_identifier() {
    let mut item = capture("abc");
    item.connector_auth_type = ConnectorAuthType::NoKey;
    assert!(
        PlacetopayNextActionRequest::try_from(&item) == Err(ConnectorError::FailedToObtainAuthType)
    );
    let mut item = cancel("12");
    item.connector_auth_type = ConnectorAuthType::TemporaryAuth;
    assert!(
        PlacetopayNextActionRequest::try_from(&item) == Err(ConnectorError::FailedToObtainAuthType)
    );
}

#[test]
fn full_refund_reverses() {
    let item: RefundsRouterData<Execute> = record(refund_data(
        "123456789",
        5000,
        5000,
        Some(serde_json::Value::String("AUTH-77".to_string())),
    ));
    let request = PlacetopayRefundRequest::try_from(&item).unwrap();
    assert_eq!(request.internal_reference, 123456789);
    assert_eq!(request.action, PlacetopayNextAction::Reverse);
    assert_eq!(request.authorization, Some("AUTH-77".to_string()));
    assert_eq!(request.auth.login, "login");
}

#[test]
fn refund_authorization_only_from_text_metadata() {
    let item: RefundsRouterData<Execute> = record(refund_data("1", 10, 10, None));
    assert_eq!(
        PlacetopayRefundRequest::with_auth(&item, Ok(fixed_token())).unwrap().authorization,
        None
    );
    let item: RefundsRouterData<Execute> =
        record(refund_data("1", 10, 10, Some(serde_json::Value::from(77))));
    assert_eq!(
        PlacetopayRefundRequest::with_auth(&item, Ok(fixed_token())).unwrap().authorization,
        None
    );
    let item: RefundsRouterData<Execute> =
        record(refund_data("1", 10, 10, Some(serde_json::Value::Null)));
    assert_eq!(
        PlacetopayRefundRequest::with_auth(&item, Ok(fixed_token())).unwrap().authorization,
        None
    );
    let item: RefundsRouterData<Execute> =
        record(refund_data("1", 10, 10, Some(serde_json::Value::String("".to_string()))));
    assert_eq!(
        PlacetopayRefundRequest::with_auth(&item, Ok(fixed_token())).unwrap().authorization,
        Some("".to_string())
    );
}

#[test]
fn partial_refund_is_not_supported() {
    for (payment, refund) in vec![(5000, 4999), (5000, 5001), (5000, 0), (0, 1), (10, -10)] {
        let item: RefundsRouterData<Execute> = record(refund_data("123", payment, refund, None));
        assert!(PlacetopayRefundRequest::try_from(&item) == Err(partial_refund()));
        assert!(PlacetopayRefundRequest::with_auth(&item, Ok(fixed_token())) == Err(partial_refund()));
    }
}

#[test]
fn partial_refund_fails_before_anything_else() {
    let mut item: RefundsRouterData<Execute> = record(refund_data("not-a-number", 5000, 1, None));
    item.connector_auth_type = ConnectorAuthType::NoKey;
    assert!(PlacetopayRefundRequest::try_from(&item) == Err(partial_refund()));
    assert!(
        PlacetopayRefundRequest::with_auth(&item, Err(ConnectorError::FailedToObtainAuthType))
            == Err(partial_refund())
    );
}

#[test]
fn full_refund_can_still_fail() {
    let item: RefundsRouterData<Execute> = record(refund_data("abc", 5000, 5000, None));
    assert!(PlacetopayRefundRequest::try_from(&item) == Err(ConnectorError::RequestEncodingFailed));
    let mut item: RefundsRouterData<Execute> = record(refund_data("12", 5000, 5000, None));
    item.connector_auth_type = ConnectorAuthType::NoKey;
    assert!(PlacetopayRefundRequest::try_from(&item) == Err(ConnectorError::FailedToObtainAuthType));
}

#[test]
fn refund_sync_names_the_transaction() {
    let item: RefundsRouterData<RSync> = record(refund_data("555", 1, 1, None));
    let request = PlacetopayRsyncRequest::try_from(&item).unwrap();
    assert_eq!(request.internal_reference, 555);
    assert_eq!(request.auth.login, "login");
    let request = PlacetopayRsyncRequest::with_auth(&item, Ok(fixed_token())).unwrap();
    assert!(request.auth == fixed_token());
    assert_eq!(request.internal_reference, 555);
}

#[test]
fn refund_sync_ignores_amounts() {
    let item: RefundsRouterData<RSync> = record(refund_data("555", 100, 1, None));
    assert_eq!(PlacetopayRsyncRequest::try_from(&item).unwrap().internal_reference, 555);
}

#[test]
fn refund_sync_refuses_unreadable_identifier() {
    let item: RefundsRouterData<RSync> = record(refund_data("5x5", 1, 1, None));
    assert!(PlacetopayRsyncRequest::try_from(&item) == Err(ConnectorError::RequestEncodingFailed));
}

#[test]
fn payment_sync_names_the_transaction() {
    let item: PaymentsSyncRouterData = record(PaymentsSyncData {
        connector_transaction_id: ResponseId::ConnectorTransactionId("123456789".to_string()),
    });
    let request = PlacetopayPsyncRequest::try_from(&item).unwrap();
    assert_eq!(request.internal_reference, 123456789);
    let request = PlacetopayPsyncRequest::with_auth(&item, Ok(fixed_token())).unwrap();
    assert!(request.auth == fixed_token());
}

#[test]
fn payment_sync_needs_a_gateway_identifier() {
    let item: PaymentsSyncRouterData =
        record(PaymentsSyncData { connector_transaction_id: ResponseId::NoResponseId });
    assert!(PlacetopayPsyncRequest::try_from(&item) == Err(ConnectorError::RequestEncodingFailed));
    let item: PaymentsSyncRouterData = record(PaymentsSyncData {
        connector_transaction_id: ResponseId::EncodedData("123".to_string()),
    });
    assert!(PlacetopayPsyncRequest::try_from(&item) == Err(ConnectorError::RequestEncodingFailed));
    assert_eq!(
        item.request.get_connector_transaction_id(),
        Err(ConnectorError::RequestEncodingFailed)
    );
    let item: PaymentsSyncRouterData = record(PaymentsSyncData {
        connector_transaction_id: ResponseId::ConnectorTransactionId("x".to_string()),
    });
    assert!(PlacetopayPsyncRequest::try_from(&item) == Err(ConnectorError::RequestEncodingFailed));
}
