use placetopay::auth::{compute_digest, PlacetopayAuth, PlacetopayAuthType};
use placetopay::domain::{
    AttemptStatus, BrowserInformation, Card, ConnectorAuthType, Currency, ErrorResponse, MinorUnit,
    PaymentMethodData, PaymentsAuthorizeData, PaymentsAuthorizeRouterData, RouterData,
};
use placetopay::errors::ConnectorError;
use placetopay::requests::{
    get_unimplemented_payment_method_error_message, PlacetopayPaymentsRequest, PlacetopayRouterData,
};
use std::marker::PhantomData;

fn card(month: &str, year: &str) -> Card {
    Card {
        card_number: "4111111111111111".to_string(),
        card_exp_month: month.to_string(),
        card_exp_year: year.to_string(),
        card_cvc: "123".to_string(),
    }
}

fn browser() -> BrowserInformation {
    BrowserInformation {
        ip_address: Some("203.0.113.7".to_string()),
        user_agent: Some("Mozilla/5.0".to_string()),
    }
}

fn no_response() -> ErrorResponse {
    ErrorResponse {
        code: "".to_string(),
        message: "".to_string(),
        reason: None,
        status_code: 0,
    }
}

fn record(method: PaymentMethodData) -> PaymentsAuthorizeRouterData {
    RouterData {
        flow: PhantomData,
        connector_auth_type: ConnectorAuthType::BodyKey {
            api_key: "login".to_string(),
            key1: "secret".to_string(),
        },
        connector_request_reference_id: "order-42".to_string(),
        description: Some("Two tickets".to_string()),
        status: AttemptStatus::Pending,
        request: PaymentsAuthorizeData {
            payment_method_data: method,
            currency: Currency::COP,
            minor_amount: MinorUnit::new(150000),
            browser_info: Some(browser()),
        },
        response: Err(no_response()),
    }
}

fn fixed_token() -> PlacetopayAuth {
    let credentials =
        PlacetopayAuthType { login: "login".to_string(), tran_key: "secret".to_string() };
    PlacetopayAuth::from_parts(&credentials, &[0u8; 16], "2024-01-01T00:00:00.000+00:00".to_string())
        .unwrap()
}

fn other_methods() -> Vec<PaymentMethodData> {
    vec![
        PaymentMethodData::CardRedirect,
        PaymentMethodData::Wallet,
        PaymentMethodData::PayLater,
        PaymentMethodData::BankRedirect,
        PaymentMethodData::BankDebit,
        PaymentMethodData::BankTransfer,
        PaymentMethodData::Crypto,
        PaymentMethodData::MandatePayment,
        PaymentMethodData::Reward,
        PaymentMethodData::RealTimePayment,
        PaymentMethodData::Upi,
        PaymentMethodData::Voucher,
        PaymentMethodData::GiftCard,
        PaymentMethodData::CardToken,
        PaymentMethodData::OpenBanking,
        PaymentMethodData::NetworkToken,
        PaymentMethodData::MobilePayment,
        PaymentMethodData::CardDetailsForNetworkTransactionId,
    ]
}

#[test]
fn expiry_is_month_slash_two_digit_year() {
    assert_eq!(
        card("03", "29").get_card_expiry_month_year_2_digit_with_delimiter("/".to_string()),
        Ok("03/29".to_string())
    );
    assert_eq!(
        card("03", "2029").get_card_expiry_month_year_2_digit_with_delimiter("/".to_string()),
        Ok("03/29".to_string())
    );
    assert_eq!(
        card("12", "2031").get_card_expiry_month_year_2_digit_with_delimiter("-".to_string()),
        Ok("12-31".to_string())
    );
    assert_eq!(card("03", "2029").get_card_expiry_year_2_digit(), Ok("29".to_string()));
}

#[test]
fn expiry_needs_two_characters_of_year() {
    assert_eq!(
        card("03", "9").get_card_expiry_month_year_2_digit_with_delimiter("/".to_string()),
        Err(ConnectorError::RequestEncodingFailed)
    );
    assert_eq!(card("03", "").get_card_expiry_year_2_digit(), Err(ConnectorError::RequestEncodingFailed));
}

#[test]
fn amount_pairs_with_record() {
    let data = record(PaymentMethodData::Card(card("03", "29")));
    let item = PlacetopayRouterData::from((MinorUnit::new(150000), &data));
    assert_eq!(item.amount, MinorUnit(150000));
    assert_eq!(item.amount.get_amount_as_i64(), 150000);
    assert_eq!(item.router_data.connector_request_reference_id, "order-42");
}

#[test]
fn authorize_with_card_builds_payload() {
    let data = record(PaymentMethodData::Card(card("03", "2029")));
    let item = PlacetopayRouterData::from((MinorUnit::new(150000), &data));
    let request = PlacetopayPaymentsRequest::with_auth(&item, Ok(fixed_token())).unwrap();
    assert!(request.auth == fixed_token());
    assert_eq!(request.payment.reference, "order-42");
    assert_eq!(request.payment.description, "Two tickets");
    assert_eq!(request.payment.amount.currency, Currency::COP);
    assert_eq!(request.payment.amount.total, MinorUnit(150000));
    assert_eq!(request.instrument.card.number, "4111111111111111");
    assert_eq!(request.instrument.card.expiration, "03/29");
    assert_eq!(request.instrument.card.cvv, "123");
    assert_eq!(request.ip_address, "203.0.113.7");
    assert_eq!(request.user_agent, "Mozilla/5.0");
}

#[test]
fn authorize_issues_a_token() {
    let data = record(PaymentMethodData::Card(card("03", "29")));
    let item = PlacetopayRouterData::from((MinorUnit::new(990), &data));
    let request = PlacetopayPaymentsRequest::try_from(&item).unwrap();
    assert_eq!(request.auth.login, "login");
    assert_eq!(request.auth.seed.len(), 25);
    assert_ne!(request.auth.tran_key, "secret");
    assert_eq!(request.payment.amount.total, MinorUnit(990));
    assert_eq!(request.instrument.card.expiration, "03/29");
    let again = PlacetopayPaymentsRequest::try_from(&item).unwrap();
    assert_ne!(request.auth.nonce, again.auth.nonce);
    assert_ne!(request.auth.tran_key, again.auth.tran_key);
}

#[test]
fn authorize_without_card_is_not_implemented() {
    for method in other_methods() {
        let data = record(method);
        let item = PlacetopayRouterData::from((MinorUnit::new(1), &data));
        let expected = Err(ConnectorError::NotImplemented(
            "Selected payment method through Placetopay".to_string(),
        ));
        assert!(PlacetopayPaymentsRequest::try_from(&item) == expected);
        assert!(PlacetopayPaymentsRequest::with_auth(&item, Ok(fixed_token())) == expected);
    }
}

#[test]
fn authorize_without_card_fails_whatever_else_is_wrong() {
    for method in other_methods() {
        let mut data = record(method);
        data.connector_auth_type = ConnectorAuthType::NoKey;
        data.description = None;
        data.request.browser_info = None;
        let item = PlacetopayRouterData::from((MinorUnit::new(-5), &data));
        assert!(matches!(
            PlacetopayPaymentsRequest::try_from(&item),
            Err(ConnectorError::NotImplemented(_))
        ));
        assert!(matches!(
            PlacetopayPaymentsRequest::with_auth(&item, Err(ConnectorError::RequestEncodingFailed)),
            Err(ConnectorError::NotImplemented(_))
        ));
    }
}

#[test]
fn unimplemented_message_names_the_connector() {
    assert_eq!(
        get_unimplemented_payment_method_error_message("Placetopay"),
        "Selected payment method through Placetopay"
    );
}

#[test]
fn authorize_needs_browser_context() {
    let mut data = record(PaymentMethodData::Card(card("03", "29")));
    data.request.browser_info = None;
    let item = PlacetopayRouterData::from((MinorUnit::new(1), &data));
    assert!(PlacetopayPaymentsRequest::try_from(&item) == Err(ConnectorError::RequestEncodingFailed));

    let mut data = record(PaymentMethodData::Card(card("03", "29")));
    data.request.browser_info =
        Some(BrowserInformation { ip_address: None, user_agent: Some("agent".to_string()) });
    let item = PlacetopayRouterData::from((MinorUnit::new(1), &data));
    assert!(PlacetopayPaymentsRequest::try_from(&item) == Err(ConnectorError::RequestEncodingFailed));

    let mut data = record(PaymentMethodData::Card(card("03", "29")));
    data.request.browser_info =
        Some(BrowserInformation { ip_address: Some("203.0.113.7".to_string()), user_agent: None });
    let item = PlacetopayRouterData::from((MinorUnit::new(1), &data));
    assert!(PlacetopayPaymentsRequest::try_from(&item) == Err(ConnectorError::RequestEncodingFailed));
}

#[test]
fn missing_browser_context_comes_before_credentials() {
    let mut data = record(PaymentMethodData::Card(card("03", "29")));
    data.request.browser_info = None;
    data.connector_auth_type = ConnectorAuthType::NoKey;
    let item = PlacetopayRouterData::from((MinorUnit::new(1), &data));
    assert!(PlacetopayPaymentsRequest::try_from(&item) == Err(ConnectorError::RequestEncodingFailed));
}

#[test]
fn authorize_needs_body_key_credentials() {
    let mut data = record(PaymentMethodData::Card(card("03", "29")));
    data.connector_auth_type = ConnectorAuthType::HeaderKey { api_key: "k".to_string() };
    data.description = None;
    let item = PlacetopayRouterData::from((MinorUnit::new(1), &data));
    assert!(PlacetopayPaymentsRequest::try_from(&item) == Err(ConnectorError::FailedToObtainAuthType));
    assert!(
        PlacetopayPaymentsRequest::with_auth(&item, Err(ConnectorError::FailedToObtainAuthType))
            == Err(ConnectorError::FailedToObtainAuthType)
    );
}

#[test]
fn authorize_needs_description_and_year() {
    let mut data = record(PaymentMethodData::Card(card("03", "29")));
    data.description = None;
    let item = PlacetopayRouterData::from((MinorUnit::new(1), &data));
    assert!(PlacetopayPaymentsRequest::try_from(&item) == Err(ConnectorError::RequestEncodingFailed));

    let data = record(PaymentMethodData::Card(card("03", "9")));
    let item = PlacetopayRouterData::from((MinorUnit::new(1), &data));
    assert!(PlacetopayPaymentsRequest::try_from(&item) == Err(ConnectorError::RequestEncodingFailed));
    assert!(
        PlacetopayPaymentsRequest::with_auth(&item, Ok(fixed_token()))
            == Err(ConnectorError::RequestEncodingFailed)
    );
}

#[test]
fn fixed_token_is_the_golden_one() {
    let token = fixed_token();
    assert_eq!(
        token.tran_key,
        compute_digest(&[0u8; 16], "2024-01-01T00:00:00.000+00:00", "secret").unwrap()
    );
}
