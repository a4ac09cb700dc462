//! How the answer of a payment processor is read.

use vstd::prelude::*;
use vstd::string::StringExecFns;

verus! {

/// The status with which a processor rejects a payment for good.
pub const STATUS_UNPROCESSABLE: u16 = 422;

/// Statuses that tell a processor cannot take the payment now.
pub const STATUS_REQUEST_TIMEOUT: u16 = 408;

pub const STATUS_TOO_MANY_REQUESTS: u16 = 429;

/// From this status on, the answer is an error of the processor itself.
pub const STATUS_SERVER_ERROR: u16 = 500;

#[derive(Debug, Clone, Copy, PartialEq, Eq, Structural)]
pub enum PaymentProcessorError {
    InvalidPayment,
    Unavailable,
}

impl PaymentProcessorError {
    pub open spec fn message(self) -> Seq<char> {
        match self {
            PaymentProcessorError::Unavailable => "processors is unavailable"@,
            PaymentProcessorError::InvalidPayment => "invalid payment"@,
        }
    }

    pub fn to_string(&self) -> (r: String)
        ensures
            r@ == self.message(),
    {
        match self {
            PaymentProcessorError::Unavailable => String::from_str("processors is unavailable"),
            PaymentProcessorError::InvalidPayment => String::from_str("invalid payment"),
        }
    }
}

/// What came of posting a payment to a processor.
#[derive(Debug, Clone, Copy, PartialEq, Eq, Structural)]
pub enum Exchange {
    /// The request could not be put together.
    Unsendable,
    /// The processor could not be reached, or the connection broke.
    Unreachable,
    /// The processor answered with this status.
    Answered(u16),
}

/// How a status is read: 422 rejects the payment, 408, 429 and everything
/// from 500 on say the processor is unavailable, anything else accepts.
pub open spec fn status_verdict(status: u16) -> Result<(), PaymentProcessorError> {
    if status == STATUS_UNPROCESSABLE {
        Err(PaymentProcessorError::InvalidPayment)
    } else if status >= STATUS_SERVER_ERROR || status == STATUS_TOO_MANY_REQUESTS || status
        == STATUS_REQUEST_TIMEOUT {
        Err(PaymentProcessorError::Unavailable)
    } else {
        Ok(())
    }
}

/// How an exchange is read.
pub open spec fn exchange_verdict(exchange: Exchange) -> Result<(), PaymentProcessorError> {
    match exchange {
        Exchange::Unsendable => Err(PaymentProcessorError::InvalidPayment),
        Exchange::Unreachable => Err(PaymentProcessorError::Unavailable),
        Exchange::Answered(status) => status_verdict(status),
    }
}

/// The address of one payment processor.
pub struct PaymentProcessor {
    url: String,
}

impl PaymentProcessor {
    /// The address that payments are posted to.
    pub closed spec fn endpoint(&self) -> Seq<char> {
        self.url@
    }

    /// A processor at the given base address.
    pub fn new(url: String) -> (p: Self)
        ensures
            p.endpoint() == url@ + "/payments"@,
    {
        Self { url: url.concat("/payments") }
    }

    /// The address that payments are posted to.
    pub fn url(&self) -> (r: &str)
        ensures
            r@ == self.endpoint(),
    {
        self.url.as_str()
    }

    /// Reads the status of an answer.
    pub fn classify(status: u16) -> (r: Result<(), PaymentProcessorError>)
        ensures
            r == status_verdict(status),
    {
        if status == STATUS_UNPROCESSABLE {
            Err(PaymentProcessorError::InvalidPayment)
        } else if status >= STATUS_SERVER_ERROR || status == STATUS_TOO_MANY_REQUESTS || status
            == STATUS_REQUEST_TIMEOUT {
            Err(PaymentProcessorError::Unavailable)
        } else {
            Ok(())
        }
    }

    /// Reads what came of posting a payment.
    pub fn process(exchange: Exchange) -> (r: Result<(), PaymentProcessorError>)
        ensures
            r == exchange_verdict(exchange),
    {
        match exchange {
            Exchange::Unsendable => Err(PaymentProcessorError::InvalidPayment),
            Exchange::Unreachable => Err(PaymentProcessorError::Unavailable),
            Exchange::Answered(status) => Self::classify(status),
        }
    }
}

} // verus!
