//! The canonical, gateway-agnostic model of payments and refunds that the mappers
//! read from and write to.

use crate::errors::{or_encoding_failure, outcome_view, ConnectorError, ConnectorErrorView};
use crate::text::optional_text;
use std::marker::PhantomData;
use vstd::prelude::*;
use vstd::string::*;

verus! {

/// An amount of money in the smallest unit of its currency.
#[derive(Debug, Clone, Copy, PartialEq, Eq, Structural)]
pub struct MinorUnit(pub i64);

impl MinorUnit {
    /// An amount of `value` minor units.
    pub fn new(value: i64) -> (r: Self)
        ensures
            r == MinorUnit(value),
    {
        MinorUnit(value)
    }

    /// The number of minor units.
    pub fn get_amount_as_i64(self) -> (r: i64)
        ensures
            r == self.0,
    {
        self.0
    }
}

/// The three-letter currency codes.
#[derive(Debug, Clone, Copy, PartialEq, Eq, Structural)]
pub enum Currency {
    AED, AFN, ALL, AMD, ANG, AOA, ARS, AUD, AWG, AZN,
    BAM, BBD, BDT, BGN, BHD, BIF, BMD, BND, BOB, BRL,
    BSD, BTN, BWP, BYN, BZD, CAD, CDF, CHF, CLF, CLP,
    CNY, COP, CRC, CUC, CUP, CVE, CZK, DJF, DKK, DOP,
    DZD, EGP, ERN, ETB, EUR, FJD, FKP, GBP, GEL, GHS,
    GIP, GMD, GNF, GTQ, GYD, HKD, HNL, HRK, HTG, HUF,
    IDR, ILS, INR, IQD, IRR, ISK, JMD, JOD, JPY, KES,
    KGS, KHR, KMF, KPW, KRW, KWD, KYD, KZT, LAK, LBP,
    LKR, LRD, LSL, LYD, MAD, MDL, MGA, MKD, MMK, MNT,
    MOP, MRU, MUR, MVR, MWK, MXN, MYR, MZN, NAD, NGN,
    NIO, NOK, NPR, NZD, OMR, PAB, PEN, PGK, PHP, PKR,
    PLN, PYG, QAR, RON, RSD, RUB, RWF, SAR, SBD, SCR,
    SDG, SEK, SGD, SHP, SLE, SLL, SOS, SRD, SSP, STD,
    STN, SVC, SYP, SZL, THB, TJS, TMT, TND, TOP, TRY,
    TTD, TWD, TZS, UAH, UGX, USD, UYU, UZS, VES, VND,
    VUV, WST, XAF, XCD, XOF, XPF, YER, ZAR, ZMW, ZWL,
}

/// The canonical status of a payment attempt.
#[derive(Debug, Clone, Copy, PartialEq, Eq, Structural)]
pub enum AttemptStatus {
    Charged,
    Failure,
    Pending,
}

/// The canonical status of a refund.
#[derive(Debug, Clone, Copy, PartialEq, Eq, Structural)]
pub enum RefundStatus {
    Success,
    Failure,
    Pending,
}

/// The credentials that a connector is configured with, in the shapes that the
/// switch knows.
#[derive(Clone, PartialEq, Eq)]
pub enum ConnectorAuthType {
    TemporaryAuth,
    HeaderKey { api_key: String },
    BodyKey { api_key: String, key1: String },
    SignatureKey { api_key: String, key1: String, api_secret: String },
    MultiAuthKey { api_key: String, key1: String, api_secret: String, key2: String },
    CertificateAuth { certificate: String, private_key: String },
    NoKey,
}

/// A payment card as the customer entered it.
#[derive(Clone, PartialEq, Eq)]
pub struct Card {
    pub card_number: String,
    pub card_exp_month: String,
    pub card_exp_year: String,
    pub card_cvc: String,
}

/// The last two characters of an expiry year, where it has that many.
pub open spec fn expiry_year_2_digit(year: Seq<char>) -> Option<Seq<char>> {
    if year.len() >= 2 {
        Some(year.subrange(year.len() - 2, year.len() as int))
    } else {
        None
    }
}

/// A card's expiry as month, delimiter and two-digit year.
pub open spec fn expiry_with_delimiter(
    month: Seq<char>,
    year: Seq<char>,
    delimiter: Seq<char>,
) -> Option<Seq<char>> {
    match expiry_year_2_digit(year) {
        Some(short_year) => Some(month + delimiter + short_year),
        None => None,
    }
}

/// Copies an optional text out, or reports a request-encoding error where it is absent.
fn require_text(field: &Option<String>) -> (r: Result<String, ConnectorError>)
    ensures
        outcome_view(r) == or_encoding_failure(optional_text(*field)),
{
    match field {
        Some(text) => Ok(text.clone()),
        None => Err(ConnectorError::RequestEncodingFailed),
    }
}

impl Card {
    /// The expiry year in two digits: the last two characters of the year as entered.
    /// A year shorter than that is a request-encoding error.
    pub fn get_card_expiry_year_2_digit(&self) -> (r: Result<String, ConnectorError>)
        ensures
            outcome_view(r) == or_encoding_failure(expiry_year_2_digit(self.card_exp_year@)),
    {
        let year = self.card_exp_year.as_str();
        let len: usize = year.unicode_len();
        if len < 2 {
            Err(ConnectorError::RequestEncodingFailed)
        } else {
            Ok(year.substring_char(len - 2, len).to_owned())
        }
    }

    /// The expiry as the month, the delimiter and the two-digit year, in that order.
    pub fn get_card_expiry_month_year_2_digit_with_delimiter(&self, delimiter: String) -> (r:
        Result<String, ConnectorError>)
        ensures
            outcome_view(r) == or_encoding_failure(
                expiry_with_delimiter(self.card_exp_month@, self.card_exp_year@, delimiter@),
            ),
    {
        match self.get_card_expiry_year_2_digit() {
            Ok(short_year) => {
                let expiry = self.card_exp_month.clone().concat(delimiter.as_str()).concat(
                    short_year.as_str(),
                );
                Ok(expiry)
            },
            Err(e) => Err(e),
        }
    }
}

/// The instrument that a payment is made with. Only cards reach the gateway.
#[derive(Clone, PartialEq, Eq)]
pub enum PaymentMethodData {
    Card(Card),
    CardRedirect,
    Wallet,
    PayLater,
    BankRedirect,
    BankDebit,
    BankTransfer,
    Crypto,
    MandatePayment,
    Reward,
    RealTimePayment,
    Upi,
    Voucher,
    GiftCard,
    CardToken,
    OpenBanking,
    NetworkToken,
    MobilePayment,
    CardDetailsForNetworkTransactionId,
}

/// What is known of the customer's browser.
#[derive(Debug, Clone, PartialEq, Eq)]
pub struct BrowserInformation {
    pub ip_address: Option<String>,
    pub user_agent: Option<String>,
}

impl BrowserInformation {
    /// The client's address; its absence is a request-encoding error.
    pub fn get_ip_address(&self) -> (r: Result<String, ConnectorError>)
        ensures
            outcome_view(r) == or_encoding_failure(optional_text(self.ip_address)),
    {
        require_text(&self.ip_address)
    }

    /// The client's user agent; its absence is a request-encoding error.
    pub fn get_user_agent(&self) -> (r: Result<String, ConnectorError>)
        ensures
            outcome_view(r) == or_encoding_failure(optional_text(self.user_agent)),
    {
        require_text(&self.user_agent)
    }
}

/// The identifier under which a gateway knows a transaction.
#[derive(Debug, Clone, PartialEq, Eq)]
pub enum ResponseId {
    ConnectorTransactionId(String),
    EncodedData(String),
    NoResponseId,
}

/// The request of an authorization.
#[derive(Clone, PartialEq, Eq)]
pub struct PaymentsAuthorizeData {
    pub payment_method_data: PaymentMethodData,
    pub currency: Currency,
    pub minor_amount: MinorUnit,
    pub browser_info: Option<BrowserInformation>,
}

impl PaymentsAuthorizeData {
    /// The browser context; its absence is a request-encoding error.
    pub fn get_browser_info(&self) -> (r: Result<&BrowserInformation, ConnectorError>)
        ensures
            match r {
                Ok(info) => self.browser_info == Some(*info),
                Err(e) => self.browser_info is None && e@
                    == ConnectorErrorView::RequestEncodingFailed,
            },
    {
        match &self.browser_info {
            Some(info) => Ok(info),
            None => Err(ConnectorError::RequestEncodingFailed),
        }
    }
}

/// The request of a capture.
#[derive(Debug, Clone, PartialEq, Eq)]
pub struct PaymentsCaptureData {
    pub connector_transaction_id: String,
    pub minor_amount_to_capture: MinorUnit,
    pub currency: Currency,
}

/// The request of a cancellation.
#[derive(Debug, Clone, PartialEq, Eq)]
pub struct PaymentsCancelData {
    pub connector_transaction_id: String,
    pub cancellation_reason: Option<String>,
}

/// The text of the gateway's identifier of a payment, which only a payment that
/// reached the gateway has.
pub open spec fn payment_identifier_of(id: ResponseId) -> Option<Seq<char>> {
    match id {
        ResponseId::ConnectorTransactionId(text) => Some(text@),
        _ => None,
    }
}

/// The request of a payment status lookup.
#[derive(Debug, Clone, PartialEq, Eq)]
pub struct PaymentsSyncData {
    pub connector_transaction_id: ResponseId,
}

impl PaymentsSyncData {
    /// The gateway's transaction identifier; a payment that has none yet cannot be
    /// looked up, which is a request-encoding error.
    pub fn get_connector_transaction_id(&self) -> (r: Result<String, ConnectorError>)
        ensures
            outcome_view(r) == or_encoding_failure(
                payment_identifier_of(self.connector_transaction_id),
            ),
    {
        match &self.connector_transaction_id {
            ResponseId::ConnectorTransactionId(id) => Ok(id.clone()),
            _ => Err(ConnectorError::RequestEncodingFailed),
        }
    }
}

/// The request of a refund or of a refund status lookup.
#[derive(Debug, Clone, PartialEq, Eq)]
pub struct RefundsData {
    pub refund_id: String,
    pub connector_transaction_id: String,
    pub minor_payment_amount: MinorUnit,
    pub minor_refund_amount: MinorUnit,
    pub currency: Currency,
    pub connector_metadata: Option<serde_json::Value>,
}

/// What a gateway answered to a payment call.
#[derive(Debug, Clone, PartialEq, Eq)]
pub enum PaymentsResponseData {
    TransactionResponse {
        resource_id: ResponseId,
        connector_metadata: Option<serde_json::Value>,
        network_txn_id: Option<String>,
        connector_response_reference_id: Option<String>,
    },
}

/// What a gateway answered to a refund call.
#[derive(Debug, Clone, PartialEq, Eq)]
pub struct RefundsResponseData {
    pub connector_refund_id: String,
    pub refund_status: RefundStatus,
}

/// A failure that a gateway reported.
#[derive(Debug, Clone, PartialEq, Eq)]
pub struct ErrorResponse {
    pub code: String,
    pub message: String,
    pub reason: Option<String>,
    pub status_code: u16,
}

/// The flow markers that tell the uses of one record type apart.
#[derive(Debug, Clone, Copy, PartialEq, Eq)]
pub struct Authorize;

#[derive(Debug, Clone, Copy, PartialEq, Eq)]
pub struct Capture;

#[derive(Debug, Clone, Copy, PartialEq, Eq)]
pub struct Void;

#[derive(Debug, Clone, Copy, PartialEq, Eq)]
pub struct PSync;

#[derive(Debug, Clone, Copy, PartialEq, Eq)]
pub struct Execute;

#[derive(Debug, Clone, Copy, PartialEq, Eq)]
pub struct RSync;

/// One call to a connector: who is calling, what is asked, and what came back.
pub struct RouterData<Flow, Request, Response> {
    pub flow: PhantomData<Flow>,
    pub connector_auth_type: ConnectorAuthType,
    pub connector_request_reference_id: String,
    pub description: Option<String>,
    pub status: AttemptStatus,
    pub request: Request,
    pub response: Result<Response, ErrorResponse>,
}

impl<Flow, Request, Response> RouterData<Flow, Request, Response> {
    /// The description of the payment; its absence is a request-encoding error.
    pub fn get_description(&self) -> (r: Result<String, ConnectorError>)
        ensures
            outcome_view(r) == or_encoding_failure(optional_text(self.description)),
    {
        require_text(&self.description)
    }
}

pub type PaymentsAuthorizeRouterData = RouterData<
    Authorize,
    PaymentsAuthorizeData,
    PaymentsResponseData,
>;

pub type PaymentsCaptureRouterData = RouterData<Capture, PaymentsCaptureData, PaymentsResponseData>;

pub type PaymentsCancelRouterData = RouterData<Void, PaymentsCancelData, PaymentsResponseData>;

pub type PaymentsSyncRouterData = RouterData<PSync, PaymentsSyncData, PaymentsResponseData>;

pub type RefundsRouterData<Flow> = RouterData<Flow, RefundsData, RefundsResponseData>;

/// A gateway's answer beside the record of the call that it answers.
pub struct ResponseRouterData<Flow, R, Request, Response> {
    pub response: R,
    pub data: RouterData<Flow, Request, Response>,
    pub http_code: u16,
}

pub type RefundsResponseRouterData<Flow, R> = ResponseRouterData<
    Flow,
    R,
    RefundsData,
    RefundsResponseData,
>;

} // verus!
