//! The gateway's status vocabulary and its mapping onto the canonical statuses.
//!
//! The gateway knows more statuses than are listed here. Those whose meaning is not
//! settled are left out on purpose: a response that carries one is refused rather
//! than guessed at.

use crate::domain::{AttemptStatus, RefundStatus};
use crate::errors::{ConnectorError, ConnectorErrorView};
use crate::text::text_eq;
use vstd::prelude::*;
use vstd::std_specs::convert::FromSpecImpl;

verus! {

/// The status of a payment as the gateway reports it.
#[derive(Debug, Clone, Copy, PartialEq, Eq, Structural)]
pub enum PlacetopayTransactionStatus {
    /// The gateway's `OK`.
    Okay,
    Failed,
    Approved,
    Rejected,
    Pending,
    PendingValidation,
    PendingProcess,
    Error,
}

/// The status of a refund as the gateway reports it.
#[derive(Debug, Clone, Copy, PartialEq, Eq, Structural)]
pub enum PlacetopayRefundStatus {
    /// The gateway's `OK`.
    Okay,
    Failed,
    Approved,
    Rejected,
    Pending,
    PendingValidation,
    PendingProcess,
    Refunded,
    Error,
}

/// The status that an error-shaped answer of the gateway carries.
#[derive(Debug, Clone, Copy, PartialEq, Eq, Structural)]
pub enum PlacetopayErrorStatus {
    Failed,
}

impl PlacetopayTransactionStatus {
    /// The name of the status on the wire.
    pub open spec fn wire_name(self) -> Seq<char> {
        match self {
            PlacetopayTransactionStatus::Okay => "OK"@,
            PlacetopayTransactionStatus::Failed => "FAILED"@,
            PlacetopayTransactionStatus::Approved => "APPROVED"@,
            PlacetopayTransactionStatus::Rejected => "REJECTED"@,
            PlacetopayTransactionStatus::Pending => "PENDING"@,
            PlacetopayTransactionStatus::PendingValidation => "PENDING_VALIDATION"@,
            PlacetopayTransactionStatus::PendingProcess => "PENDING_PROCESS"@,
            PlacetopayTransactionStatus::Error => "ERROR"@,
        }
    }

    /// The status that a wire name stands for, if it is the name of one.
    pub open spec fn named(name: Seq<char>) -> Option<Self> {
        if name == "OK"@ {
            Some(PlacetopayTransactionStatus::Okay)
        } else if name == "FAILED"@ {
            Some(PlacetopayTransactionStatus::Failed)
        } else if name == "APPROVED"@ {
            Some(PlacetopayTransactionStatus::Approved)
        } else if name == "REJECTED"@ {
            Some(PlacetopayTransactionStatus::Rejected)
        } else if name == "PENDING"@ {
            Some(PlacetopayTransactionStatus::Pending)
        } else if name == "PENDING_VALIDATION"@ {
            Some(PlacetopayTransactionStatus::PendingValidation)
        } else if name == "PENDING_PROCESS"@ {
            Some(PlacetopayTransactionStatus::PendingProcess)
        } else if name == "ERROR"@ {
            Some(PlacetopayTransactionStatus::Error)
        } else {
            None
        }
    }

    /// The name under which the status travels.
    pub fn as_wire_name(self) -> (r: &'static str)
        ensures
            r@ == self.wire_name(),
    {
        match self {
            PlacetopayTransactionStatus::Okay => "OK",
            PlacetopayTransactionStatus::Failed => "FAILED",
            PlacetopayTransactionStatus::Approved => "APPROVED",
            PlacetopayTransactionStatus::Rejected => "REJECTED",
            PlacetopayTransactionStatus::Pending => "PENDING",
            PlacetopayTransactionStatus::PendingValidation => "PENDING_VALIDATION",
            PlacetopayTransactionStatus::PendingProcess => "PENDING_PROCESS",
            PlacetopayTransactionStatus::Error => "ERROR",
        }
    }

    /// Reads a status from its wire name. A text that names no accepted status is
    /// refused; no status stands in for it.
    pub fn from_wire_name(name: &str) -> (r: Result<Self, ConnectorError>)
        ensures
            match r {
                Ok(status) => Self::named(name@) == Some(status),
                Err(e) => Self::named(name@) is None && e@
                    == ConnectorErrorView::ResponseDeserializationFailed,
            },
    {
        if text_eq(name, "OK") {
            Ok(PlacetopayTransactionStatus::Okay)
        } else if text_eq(name, "FAILED") {
            Ok(PlacetopayTransactionStatus::Failed)
        } else if text_eq(name, "APPROVED") {
            Ok(PlacetopayTransactionStatus::Approved)
        } else if text_eq(name, "REJECTED") {
            Ok(PlacetopayTransactionStatus::Rejected)
        } else if text_eq(name, "PENDING") {
            Ok(PlacetopayTransactionStatus::Pending)
        } else if text_eq(name, "PENDING_VALIDATION") {
            Ok(PlacetopayTransactionStatus::PendingValidation)
        } else if text_eq(name, "PENDING_PROCESS") {
            Ok(PlacetopayTransactionStatus::PendingProcess)
        } else if text_eq(name, "ERROR") {
            Ok(PlacetopayTransactionStatus::Error)
        } else {
            Err(ConnectorError::ResponseDeserializationFailed)
        }
    }

    /// The canonical status that the gateway's status comes to.
    pub open spec fn normalized(self) -> AttemptStatus {
        match self {
            PlacetopayTransactionStatus::Approved | PlacetopayTransactionStatus::Okay =>
                AttemptStatus::Charged,
            PlacetopayTransactionStatus::Failed
            | PlacetopayTransactionStatus::Rejected
            | PlacetopayTransactionStatus::Error => AttemptStatus::Failure,
            PlacetopayTransactionStatus::Pending
            | PlacetopayTransactionStatus::PendingValidation
            | PlacetopayTransactionStatus::PendingProcess => AttemptStatus::Pending,
        }
    }
}

impl FromSpecImpl<PlacetopayTransactionStatus> for AttemptStatus {
    open spec fn obeys_from_spec() -> bool {
        true
    }

    open spec fn from_spec(item: PlacetopayTransactionStatus) -> AttemptStatus {
        item.normalized()
    }
}

impl From<PlacetopayTransactionStatus> for AttemptStatus {
    /// Maps the gateway's status of a payment onto the canonical one.
    fn from(item: PlacetopayTransactionStatus) -> (r: Self)
        ensures
            r == item.normalized(),
    {
        match item {
            PlacetopayTransactionStatus::Approved | PlacetopayTransactionStatus::Okay => {
                Self::Charged
            },
            PlacetopayTransactionStatus::Failed
            | PlacetopayTransactionStatus::Rejected
            | PlacetopayTransactionStatus::Error => Self::Failure,
            PlacetopayTransactionStatus::Pending
            | PlacetopayTransactionStatus::PendingValidation
            | PlacetopayTransactionStatus::PendingProcess => Self::Pending,
        }
    }
}

impl PlacetopayRefundStatus {
    /// The name of the status on the wire.
    pub open spec fn wire_name(self) -> Seq<char> {
        match self {
            PlacetopayRefundStatus::Okay => "OK"@,
            PlacetopayRefundStatus::Failed => "FAILED"@,
            PlacetopayRefundStatus::Approved => "APPROVED"@,
            PlacetopayRefundStatus::Rejected => "REJECTED"@,
            PlacetopayRefundStatus::Pending => "PENDING"@,
            PlacetopayRefundStatus::PendingValidation => "PENDING_VALIDATION"@,
            PlacetopayRefundStatus::PendingProcess => "PENDING_PROCESS"@,
            PlacetopayRefundStatus::Refunded => "REFUNDED"@,
            PlacetopayRefundStatus::Error => "ERROR"@,
        }
    }

    /// The status that a wire name stands for, if it is the name of one.
    pub open spec fn named(name: Seq<char>) -> Option<Self> {
        if name == "OK"@ {
            Some(PlacetopayRefundStatus::Okay)
        } else if name == "FAILED"@ {
            Some(PlacetopayRefundStatus::Failed)
        } else if name == "APPROVED"@ {
            Some(PlacetopayRefundStatus::Approved)
        } else if name == "REJECTED"@ {
            Some(PlacetopayRefundStatus::Rejected)
        } else if name == "PENDING"@ {
            Some(PlacetopayRefundStatus::Pending)
        } else if name == "PENDING_VALIDATION"@ {
            Some(PlacetopayRefundStatus::PendingValidation)
        } else if name == "PENDING_PROCESS"@ {
            Some(PlacetopayRefundStatus::PendingProcess)
        } else if name == "REFUNDED"@ {
            Some(PlacetopayRefundStatus::Refunded)
        } else if name == "ERROR"@ {
            Some(PlacetopayRefundStatus::Error)
        } else {
            None
        }
    }

    /// The name under which the status travels.
    pub fn as_wire_name(self) -> (r: &'static str)
        ensures
            r@ == self.wire_name(),
    {
        match self {
            PlacetopayRefundStatus::Okay => "OK",
            PlacetopayRefundStatus::Failed => "FAILED",
            PlacetopayRefundStatus::Approved => "APPROVED",
            PlacetopayRefundStatus::Rejected => "REJECTED",
            PlacetopayRefundStatus::Pending => "PENDING",
            PlacetopayRefundStatus::PendingValidation => "PENDING_VALIDATION",
            PlacetopayRefundStatus::PendingProcess => "PENDING_PROCESS",
            PlacetopayRefundStatus::Refunded => "REFUNDED",
            PlacetopayRefundStatus::Error => "ERROR",
        }
    }

    /// Reads a status from its wire name. A text that names no accepted status is
    /// refused; no status stands in for it.
    pub fn from_wire_name(name: &str) -> (r: Result<Self, ConnectorError>)
        ensures
            match r {
                Ok(status) => Self::named(name@) == Some(status),
                Err(e) => Self::named(name@) is None && e@
                    == ConnectorErrorView::ResponseDeserializationFailed,
            },
    {
        if text_eq(name, "OK") {
            Ok(PlacetopayRefundStatus::Okay)
        } else if text_eq(name, "FAILED") {
            Ok(PlacetopayRefundStatus::Failed)
        } else if text_eq(name, "APPROVED") {
            Ok(PlacetopayRefundStatus::Approved)
        } else if text_eq(name, "REJECTED") {
            Ok(PlacetopayRefundStatus::Rejected)
        } else if text_eq(name, "PENDING") {
            Ok(PlacetopayRefundStatus::Pending)
        } else if text_eq(name, "PENDING_VALIDATION") {
            Ok(PlacetopayRefundStatus::PendingValidation)
        } else if text_eq(name, "PENDING_PROCESS") {
            Ok(PlacetopayRefundStatus::PendingProcess)
        } else if text_eq(name, "REFUNDED") {
            Ok(PlacetopayRefundStatus::Refunded)
        } else if text_eq(name, "ERROR") {
            Ok(PlacetopayRefundStatus::Error)
        } else {
            Err(ConnectorError::ResponseDeserializationFailed)
        }
    }

    /// The canonical status that the gateway's status comes to.
    pub open spec fn normalized(self) -> RefundStatus {
        match self {
            PlacetopayRefundStatus::Okay
            | PlacetopayRefundStatus::Approved
            | PlacetopayRefundStatus::Refunded => RefundStatus::Success,
            PlacetopayRefundStatus::Failed
            | PlacetopayRefundStatus::Rejected
            | PlacetopayRefundStatus::Error => RefundStatus::Failure,
            PlacetopayRefundStatus::Pending
            | PlacetopayRefundStatus::PendingProcess
            | PlacetopayRefundStatus::PendingValidation => RefundStatus::Pending,
        }
    }
}

impl FromSpecImpl<PlacetopayRefundStatus> for RefundStatus {
    open spec fn obeys_from_spec() -> bool {
        true
    }

    open spec fn from_spec(item: PlacetopayRefundStatus) -> RefundStatus {
        item.normalized()
    }
}

impl From<PlacetopayRefundStatus> for RefundStatus {
    /// Maps the gateway's status of a refund onto the canonical one.
    fn from(item: PlacetopayRefundStatus) -> (r: Self)
        ensures
            r == item.normalized(),
    {
        match item {
            PlacetopayRefundStatus::Okay
            | PlacetopayRefundStatus::Approved
            | PlacetopayRefundStatus::Refunded => Self::Success,
            PlacetopayRefundStatus::Failed
            | PlacetopayRefundStatus::Rejected
            | PlacetopayRefundStatus::Error => Self::Failure,
            PlacetopayRefundStatus::Pending
            | PlacetopayRefundStatus::PendingProcess
            | PlacetopayRefundStatus::PendingValidation => Self::Pending,
        }
    }
}

impl PlacetopayErrorStatus {
    /// The name of the status on the wire.
    pub open spec fn wire_name(self) -> Seq<char> {
        "FAILED"@
    }

    /// The status that a wire name stands for, if it is the name of one.
    pub open spec fn named(name: Seq<char>) -> Option<Self> {
        if name == "FAILED"@ {
            Some(PlacetopayErrorStatus::Failed)
        } else {
            None
        }
    }

    /// The name under which the status travels.
    pub fn as_wire_name(self) -> (r: &'static str)
        ensures
            r@ == self.wire_name(),
    {
        "FAILED"
    }

    /// Reads the status from its wire name; any other text is refused.
    pub fn from_wire_name(name: &str) -> (r: Result<Self, ConnectorError>)
        ensures
            match r {
                Ok(status) => Self::named(name@) == Some(status),
                Err(e) => Self::named(name@) is None && e@
                    == ConnectorErrorView::ResponseDeserializationFailed,
            },
    {
        if text_eq(name, "FAILED") {
            Ok(PlacetopayErrorStatus::Failed)
        } else {
            Err(ConnectorError::ResponseDeserializationFailed)
        }
    }
}

/// Makes known what the wire names hold.
proof fn reveal_wire_names()
    ensures
        "OK"@ == seq!['O', 'K'],
        "FAILED"@ == seq!['F', 'A', 'I', 'L', 'E', 'D'],
        "APPROVED"@ == seq!['A', 'P', 'P', 'R', 'O', 'V', 'E', 'D'],
        "REJECTED"@ == seq!['R', 'E', 'J', 'E', 'C', 'T', 'E', 'D'],
        "REFUNDED"@ == seq!['R', 'E', 'F', 'U', 'N', 'D', 'E', 'D'],
        "ERROR"@ == seq!['E', 'R', 'R', 'O', 'R'],
        "PENDING"@.len() == 7,
        "PENDING_VALIDATION"@.len() == 18,
        "PENDING_PROCESS"@.len() == 15,
{
    reveal_strlit("OK");
    reveal_strlit("FAILED");
    reveal_strlit("APPROVED");
    reveal_strlit("REJECTED");
    reveal_strlit("REFUNDED");
    reveal_strlit("ERROR");
    reveal_strlit("PENDING");
    reveal_strlit("PENDING_VALIDATION");
    reveal_strlit("PENDING_PROCESS");
    assert("OK"@ =~= seq!['O', 'K']);
    assert("FAILED"@ =~= seq!['F', 'A', 'I', 'L', 'E', 'D']);
    assert("APPROVED"@ =~= seq!['A', 'P', 'P', 'R', 'O', 'V', 'E', 'D']);
    assert("REJECTED"@ =~= seq!['R', 'E', 'J', 'E', 'C', 'T', 'E', 'D']);
    assert("REFUNDED"@ =~= seq!['R', 'E', 'F', 'U', 'N', 'D', 'E', 'D']);
    assert("ERROR"@ =~= seq!['E', 'R', 'R', 'O', 'R']);
}

/// A payment status is read back from its own wire name, and a text is read as a
/// status only where it is that status's name: reading is total, and it accepts the
/// eight names and nothing else.
pub proof fn lemma_payment_status_names(status: PlacetopayTransactionStatus, name: Seq<char>)
    ensures
        PlacetopayTransactionStatus::named(status.wire_name()) == Some(status),
        PlacetopayTransactionStatus::named(name) == Some(status) <==> name == status.wire_name(),
{
    reveal_wire_names();
    let a = seq!['A', 'P', 'P', 'R', 'O', 'V', 'E', 'D'];
    let r = seq!['R', 'E', 'J', 'E', 'C', 'T', 'E', 'D'];
    assert(a[0] != r[0]);
}

/// A refund status is read back from its own wire name, and a text is read as a
/// status only where it is that status's name: reading is total, and it accepts the
/// nine names and nothing else.
pub proof fn lemma_refund_status_names(status: PlacetopayRefundStatus, name: Seq<char>)
    ensures
        PlacetopayRefundStatus::named(status.wire_name()) == Some(status),
        PlacetopayRefundStatus::named(name) == Some(status) <==> name == status.wire_name(),
{
    reveal_wire_names();
    let a = seq!['A', 'P', 'P', 'R', 'O', 'V', 'E', 'D'];
    let r = seq!['R', 'E', 'J', 'E', 'C', 'T', 'E', 'D'];
    let f = seq!['R', 'E', 'F', 'U', 'N', 'D', 'E', 'D'];
    assert(a[0] != r[0]);
    assert(a[0] != f[0]);
    assert(r[2] != f[2]);
}

/// Every accepted payment status has exactly one canonical status, and each of the
/// three canonical statuses is reached.
pub proof fn lemma_payment_status_normalization(status: PlacetopayTransactionStatus)
    ensures
        status.normalized() == AttemptStatus::Charged <==> (status
            == PlacetopayTransactionStatus::Approved || status
            == PlacetopayTransactionStatus::Okay),
        status.normalized() == AttemptStatus::Failure <==> (status
            == PlacetopayTransactionStatus::Failed || status
            == PlacetopayTransactionStatus::Rejected || status
            == PlacetopayTransactionStatus::Error),
        status.normalized() == AttemptStatus::Pending <==> (status
            == PlacetopayTransactionStatus::Pending || status
            == PlacetopayTransactionStatus::PendingValidation || status
            == PlacetopayTransactionStatus::PendingProcess),
{
}

/// Every accepted refund status has exactly one canonical status, and each of the
/// three canonical statuses is reached.
pub proof fn lemma_refund_status_normalization(status: PlacetopayRefundStatus)
    ensures
        status.normalized() == RefundStatus::Success <==> (status == PlacetopayRefundStatus::Okay
            || status == PlacetopayRefundStatus::Approved || status
            == PlacetopayRefundStatus::Refunded),
        status.normalized() == RefundStatus::Failure <==> (status == PlacetopayRefundStatus::Failed
            || status == PlacetopayRefundStatus::Rejected || status
            == PlacetopayRefundStatus::Error),
        status.normalized() == RefundStatus::Pending <==> (status
            == PlacetopayRefundStatus::Pending || status
            == PlacetopayRefundStatus::PendingValidation || status
            == PlacetopayRefundStatus::PendingProcess),
{
}

} // verus!
