//! The payload of an authorization, and how it is built from the canonical record
//! of a payment.
//!
//! Every payload carries a token that is issued for it alone. Issuing one draws
//! random bytes and reads the clock, so each builder comes in two forms: `try_from`
//! issues the token itself, and `with_auth` takes the outcome of issuing one and
//! says exactly what payload or failure follows from it.

use crate::auth::{
    lemma_some_outcome_may_be_issued, may_be_issued, PlacetopayAuth, PlacetopayAuthView,
    TokenOutcome,
};
use crate::domain::{
    expiry_with_delimiter, BrowserInformation, Currency, MinorUnit, PaymentMethodData,
    PaymentsAuthorizeRouterData,
};
use crate::errors::{fails_with, outcome_view, ConnectorError, ConnectorErrorView};
use vstd::prelude::*;
use vstd::std_specs::convert::{FromSpecImpl, TryFromSpecImpl};
use vstd::string::*;

verus! {

/// A canonical record together with the amount to charge, in minor units.
pub struct PlacetopayRouterData<T> {
    pub amount: MinorUnit,
    pub router_data: T,
}

impl<T> FromSpecImpl<(MinorUnit, T)> for PlacetopayRouterData<T> {
    open spec fn obeys_from_spec() -> bool {
        true
    }

    open spec fn from_spec(pair: (MinorUnit, T)) -> Self {
        PlacetopayRouterData { amount: pair.0, router_data: pair.1 }
    }
}

impl<T> From<(MinorUnit, T)> for PlacetopayRouterData<T> {
    /// Pairs an amount with a record.
    fn from(pair: (MinorUnit, T)) -> (r: Self)
        ensures
            r.amount == pair.0,
            r.router_data == pair.1,
    {
        let (amount, item) = pair;
        Self { amount, router_data: item }
    }
}

/// The action that an authorization asks for.
#[derive(Debug, Clone, Copy, PartialEq, Eq, Structural)]
pub enum PlacetopayAuthorizeAction {
    Checkin,
}

/// An amount as the gateway takes it.
#[derive(Debug, Clone, Copy, PartialEq, Eq, Structural)]
pub struct PlacetopayAmount {
    pub currency: Currency,
    pub total: MinorUnit,
}

/// The payment block of an authorization.
#[derive(Debug, Clone, PartialEq, Eq)]
pub struct PlacetopayPayment {
    pub reference: String,
    pub description: String,
    pub amount: PlacetopayAmount,
}

/// The mathematical content of a [`PlacetopayPayment`].
pub struct PlacetopayPaymentView {
    pub reference: Seq<char>,
    pub description: Seq<char>,
    pub amount: PlacetopayAmount,
}

impl View for PlacetopayPayment {
    type V = PlacetopayPaymentView;

    open spec fn view(&self) -> PlacetopayPaymentView {
        PlacetopayPaymentView {
            reference: self.reference@,
            description: self.description@,
            amount: self.amount,
        }
    }
}

/// A card as the gateway takes it.
#[derive(Clone, PartialEq, Eq)]
pub struct PlacetopayCard {
    pub number: String,
    pub expiration: String,
    pub cvv: String,
}

/// The mathematical content of a [`PlacetopayCard`].
pub struct PlacetopayCardView {
    pub number: Seq<char>,
    pub expiration: Seq<char>,
    pub cvv: Seq<char>,
}

impl View for PlacetopayCard {
    type V = PlacetopayCardView;

    open spec fn view(&self) -> PlacetopayCardView {
        PlacetopayCardView {
            number: self.number@,
            expiration: self.expiration@,
            cvv: self.cvv@,
        }
    }
}

/// The instrument block of an authorization.
#[derive(Clone, PartialEq, Eq)]
pub struct PlacetopayInstrument {
    pub card: PlacetopayCard,
}

/// The mathematical content of a [`PlacetopayInstrument`].
pub struct PlacetopayInstrumentView {
    pub card: PlacetopayCardView,
}

impl View for PlacetopayInstrument {
    type V = PlacetopayInstrumentView;

    open spec fn view(&self) -> PlacetopayInstrumentView {
        PlacetopayInstrumentView { card: self.card@ }
    }
}

/// The payload of an authorization.
#[derive(Clone, PartialEq, Eq)]
pub struct PlacetopayPaymentsRequest {
    pub auth: PlacetopayAuth,
    pub payment: PlacetopayPayment,
    pub instrument: PlacetopayInstrument,
    pub ip_address: String,
    pub user_agent: String,
}

/// The mathematical content of a [`PlacetopayPaymentsRequest`].
pub struct PlacetopayPaymentsRequestView {
    pub auth: PlacetopayAuthView,
    pub payment: PlacetopayPaymentView,
    pub instrument: PlacetopayInstrumentView,
    pub ip_address: Seq<char>,
    pub user_agent: Seq<char>,
}

impl View for PlacetopayPaymentsRequest {
    type V = PlacetopayPaymentsRequestView;

    open spec fn view(&self) -> PlacetopayPaymentsRequestView {
        PlacetopayPaymentsRequestView {
            auth: self.auth@,
            payment: self.payment@,
            instrument: self.instrument@,
            ip_address: self.ip_address@,
            user_agent: self.user_agent@,
        }
    }
}

/// What is said of a payment instrument that does not reach `connector`.
pub open spec fn unimplemented_payment_method_message(connector: Seq<char>) -> Seq<char> {
    "Selected payment method through "@ + connector
}

/// The message that names a payment method as one that `connector` does not handle.
pub fn get_unimplemented_payment_method_error_message(connector: &str) -> (r: String)
    ensures
        r@ == unimplemented_payment_method_message(connector@),
{
    "Selected payment method through ".to_owned().concat(connector)
}

/// The failure of an authorization with an instrument other than a card.
pub open spec fn instrument_not_implemented() -> ConnectorErrorView {
    ConnectorErrorView::NotImplemented(unimplemented_payment_method_message("Placetopay"@))
}

/// The client's address and user agent, which an authorization needs before a token
/// is issued for it: the instrument must be a card, and the browser context must be
/// there with both.
pub open spec fn client_context_of(item: &PlacetopayRouterData<&PaymentsAuthorizeRouterData>)
    -> Result<(Seq<char>, Seq<char>), ConnectorErrorView> {
    match item.router_data.request.payment_method_data {
        PaymentMethodData::Card(_) => match item.router_data.request.browser_info {
            Some(BrowserInformation { ip_address: Some(ip), user_agent: Some(agent) }) => Ok(
                (ip@, agent@),
            ),
            _ => Err(ConnectorErrorView::RequestEncodingFailed),
        },
        _ => Err(instrument_not_implemented()),
    }
}

/// The payload that a record, a client context and a token make up. The record must
/// have a description, and its card an expiry year of two characters at least.
pub open spec fn assembled_payment(
    item: &PlacetopayRouterData<&PaymentsAuthorizeRouterData>,
    ip_address: Seq<char>,
    user_agent: Seq<char>,
    auth: PlacetopayAuthView,
) -> Result<PlacetopayPaymentsRequestView, ConnectorErrorView> {
    match item.router_data.description {
        Some(description) => match item.router_data.request.payment_method_data {
            PaymentMethodData::Card(card) => match expiry_with_delimiter(
                card.card_exp_month@,
                card.card_exp_year@,
                "/"@,
            ) {
                Some(expiration) => Ok(
                    PlacetopayPaymentsRequestView {
                        auth,
                        payment: PlacetopayPaymentView {
                            reference: item.router_data.connector_request_reference_id@,
                            description: description@,
                            amount: PlacetopayAmount {
                                currency: item.router_data.request.currency,
                                total: item.amount,
                            },
                        },
                        instrument: PlacetopayInstrumentView {
                            card: PlacetopayCardView {
                                number: card.card_number@,
                                expiration,
                                cvv: card.card_cvc@,
                            },
                        },
                        ip_address,
                        user_agent,
                    },
                ),
                None => Err(ConnectorErrorView::RequestEncodingFailed),
            },
            _ => Err(instrument_not_implemented()),
        },
        None => Err(ConnectorErrorView::RequestEncodingFailed),
    }
}

/// What building an authorization ends in, given the outcome of issuing its token.
///
/// An instrument other than a card fails first, whatever else the record holds;
/// then a missing client context; then a token that could not be issued; then a
/// missing description or an expiry year that is too short.
pub open spec fn payments_request_of(
    item: &PlacetopayRouterData<&PaymentsAuthorizeRouterData>,
    token: TokenOutcome,
) -> Result<PlacetopayPaymentsRequestView, ConnectorErrorView> {
    match client_context_of(item) {
        Ok((ip_address, user_agent)) => match token {
            Ok(auth) => assembled_payment(item, ip_address, user_agent, auth),
            Err(e) => Err(e),
        },
        Err(e) => Err(e),
    }
}

/// An authorization with any instrument but a card fails as not implemented,
/// whatever the token and whatever else the record holds or lacks.
pub proof fn lemma_instrument_decides(
    item: &PlacetopayRouterData<&PaymentsAuthorizeRouterData>,
    token: TokenOutcome,
)
    requires
        !(item.router_data.request.payment_method_data is Card),
    ensures
        fails_with(payments_request_of(item, token), instrument_not_implemented()),
{
}

/// An authorization that is built carries the token that was issued for it.
pub proof fn lemma_payment_carries_token(
    item: &PlacetopayRouterData<&PaymentsAuthorizeRouterData>,
    token: TokenOutcome,
)
    requires
        payments_request_of(item, token) is Ok,
    ensures
        token matches Ok(auth) && payments_request_of(item, token) matches Ok(request)
            && request.auth == auth,
{
}

impl PlacetopayPaymentsRequest {
    /// The client's address and user agent, or the failure of a record that has no
    /// card or no client context.
    fn client_context(item: &PlacetopayRouterData<&PaymentsAuthorizeRouterData>) -> (r: Result<
        (String, String),
        ConnectorError,
    >)
        ensures
            match r {
                Ok((ip, agent)) => client_context_of(item) matches Ok(context) && context == (
                    ip@,
                    agent@,
                ),
                Err(e) => fails_with(client_context_of(item), e@),
            },
    {
        match &item.router_data.request.payment_method_data {
            PaymentMethodData::Card(_) => {},
            PaymentMethodData::Wallet
            | PaymentMethodData::CardRedirect
            | PaymentMethodData::PayLater
            | PaymentMethodData::BankRedirect
            | PaymentMethodData::BankDebit
            | PaymentMethodData::BankTransfer
            | PaymentMethodData::Crypto
            | PaymentMethodData::MandatePayment
            | PaymentMethodData::Reward
            | PaymentMethodData::RealTimePayment
            | PaymentMethodData::MobilePayment
            | PaymentMethodData::Upi
            | PaymentMethodData::Voucher
            | PaymentMethodData::GiftCard
            | PaymentMethodData::OpenBanking
            | PaymentMethodData::CardToken
            | PaymentMethodData::NetworkToken
            | PaymentMethodData::CardDetailsForNetworkTransactionId => {
                return Err(
                    ConnectorError::NotImplemented(
                        get_unimplemented_payment_method_error_message("Placetopay"),
                    ),
                );
            },
        }
        let browser_info = match item.router_data.request.get_browser_info() {
            Ok(info) => info,
            Err(e) => { return Err(e); },
        };
        let ip_address = match browser_info.get_ip_address() {
            Ok(ip) => ip,
            Err(e) => { return Err(e); },
        };
        let user_agent = match browser_info.get_user_agent() {
            Ok(agent) => agent,
            Err(e) => { return Err(e); },
        };
        Ok((ip_address, user_agent))
    }

    /// Puts the payload together once the client context and the token are there.
    fn assemble(
        item: &PlacetopayRouterData<&PaymentsAuthorizeRouterData>,
        ip_address: String,
        user_agent: String,
        auth: PlacetopayAuth,
    ) -> (r: Result<Self, ConnectorError>)
        ensures
            outcome_view(r) == assembled_payment(item, ip_address@, user_agent@, auth@),
    {
        let description = match item.router_data.get_description() {
            Ok(description) => description,
            Err(e) => { return Err(e); },
        };
        let payment = PlacetopayPayment {
            reference: item.router_data.connector_request_reference_id.clone(),
            description,
            amount: PlacetopayAmount {
                currency: item.router_data.request.currency,
                total: item.amount,
            },
        };
        match &item.router_data.request.payment_method_data {
            PaymentMethodData::Card(req_card) => {
                let expiration = match req_card.get_card_expiry_month_year_2_digit_with_delimiter(
                    "/".to_owned(),
                ) {
                    Ok(expiration) => expiration,
                    Err(e) => { return Err(e); },
                };
                let card = PlacetopayCard {
                    number: req_card.card_number.clone(),
                    expiration,
                    cvv: req_card.card_cvc.clone(),
                };
                Ok(
                    Self {
                        ip_address,
                        user_agent,
                        auth,
                        payment,
                        instrument: PlacetopayInstrument { card },
                    },
                )
            },
            _ => Err(
                ConnectorError::NotImplemented(
                    get_unimplemented_payment_method_error_message("Placetopay"),
                ),
            ),
        }
    }

    /// Builds the payload of an authorization from the outcome of issuing its token.
    pub fn with_auth(
        item: &PlacetopayRouterData<&PaymentsAuthorizeRouterData>,
        token: Result<PlacetopayAuth, ConnectorError>,
    ) -> (r: Result<Self, ConnectorError>)
        ensures
            outcome_view(r) == payments_request_of(item, outcome_view(token)),
    {
        let (ip_address, user_agent) = match Self::client_context(item) {
            Ok(context) => context,
            Err(e) => { return Err(e); },
        };
        match token {
            Ok(auth) => Self::assemble(item, ip_address, user_agent, auth),
            Err(e) => Err(e),
        }
    }
}

/// The conversion is specified on `try_from` itself: no spec function gives its
/// result.
impl TryFromSpecImpl<&PlacetopayRouterData<&PaymentsAuthorizeRouterData>>
    for PlacetopayPaymentsRequest
{
    open spec fn obeys_try_from_spec() -> bool {
        false
    }

    open spec fn try_from_spec(item: &PlacetopayRouterData<&PaymentsAuthorizeRouterData>) -> Result<
        Self,
        ConnectorError,
    > {
        arbitrary()
    }
}

impl TryFrom<&PlacetopayRouterData<&PaymentsAuthorizeRouterData>>
    for PlacetopayPaymentsRequest
{
    type Error = ConnectorError;

    /// Builds the payload of an authorization, issuing a fresh token for it.
    ///
    /// No token is issued for a record that fails before one is needed.
    fn try_from(item: &PlacetopayRouterData<&PaymentsAuthorizeRouterData>) -> (r: Result<
        Self,
        ConnectorError,
    >)
        ensures
            exists|token: TokenOutcome| #[trigger]
                may_be_issued(item.router_data.connector_auth_type, token) && outcome_view(r)
                    == payments_request_of(item, token),
            !(item.router_data.request.payment_method_data is Card) ==> fails_with(
                outcome_view(r),
                instrument_not_implemented(),
            ),
    {
        let (ip_address, user_agent) = match Self::client_context(item) {
            Ok(context) => context,
            Err(e) => {
                proof {
                    lemma_some_outcome_may_be_issued(item.router_data.connector_auth_type);
                }
                return Err(e);
            },
        };
        match PlacetopayAuth::try_from(&item.router_data.connector_auth_type) {
            Ok(auth) => {
                let ghost token: TokenOutcome = Ok(auth@);
                let r = Self::assemble(item, ip_address, user_agent, auth);
                assert(outcome_view(r) == payments_request_of(item, token));
                r
            },
            Err(e) => {
                let ghost token: TokenOutcome = Err(e@);
                assert(fails_with(payments_request_of(item, token), e@));
                Err(e)
            },
        }
    }
}

} // verus!
