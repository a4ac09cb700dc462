//! Payment records: what is submitted, and what is persisted.

use crate::processor_type::ProcessorType;
use vstd::arithmetic::power::pow;
use vstd::prelude::*;

verus! {

/// A correlation id is carried through unchanged; nothing here looks inside.
#[verifier::external_type_specification]
#[verifier::external_body]
pub struct ExUuid(uuid::Uuid);

/// A wall-clock timestamp is carried through unchanged.
#[verifier::external_type_specification]
#[verifier::external_body]
pub struct ExOffsetDateTime(time::OffsetDateTime);

/// The largest number of decimal places an amount can have.
pub const MAX_SCALE: u32 = 28;

/// The bound on the magnitude of a mantissa: 2^96.
pub const MANTISSA_LIMIT: i128 = 0x1_0000_0000_0000_0000_0000_0000;

/// Whether a mantissa and a scale make a fixed-point decimal of 96 bits.
pub open spec fn amount_parts_valid(mantissa: i128, scale: u32) -> bool {
    &&& -MANTISSA_LIMIT < mantissa < MANTISSA_LIMIT
    &&& scale <= MAX_SCALE
}

/// A fixed-point decimal: `mantissa / 10^scale`.
#[derive(Debug, Clone, Copy, PartialEq, Eq, Structural)]
pub struct Amount {
    mantissa: i128,
    scale: u32,
}

impl Amount {
    #[verifier::type_invariant]
    spec fn inv(self) -> bool {
        amount_parts_valid(self.mantissa, self.scale)
    }

    pub closed spec fn spec_mantissa(&self) -> i128 {
        self.mantissa
    }

    pub closed spec fn spec_scale(&self) -> u32 {
        self.scale
    }

    /// The amount as a whole number of units of 10^-28, the finest that any
    /// amount can resolve.
    pub open spec fn units(&self) -> int {
        self.spec_mantissa() * pow(10, (MAX_SCALE - self.spec_scale()) as nat)
    }

    /// Zero has mantissa zero and no decimal places, so it is zero units.
    pub proof fn lemma_zero_value()
        ensures
            Amount::zero_value().spec_mantissa() == 0,
            Amount::zero_value().spec_scale() == 0,
            Amount::zero_value().units() == 0,
    {
        assert(0 * pow(10, MAX_SCALE as nat) == 0);
    }

    /// The amount with the given parts, if they are in range.
    pub fn new(mantissa: i128, scale: u32) -> (r: Option<Amount>)
        ensures
            r is Some <==> amount_parts_valid(mantissa, scale),
            r is Some ==> r->0.spec_mantissa() == mantissa && r->0.spec_scale() == scale,
    {
        if scale <= MAX_SCALE && -MANTISSA_LIMIT < mantissa && mantissa < MANTISSA_LIMIT {
            Some(Amount { mantissa, scale })
        } else {
            None
        }
    }

    /// Zero, with no decimal places.
    pub closed spec fn zero_value() -> Amount {
        Amount { mantissa: 0, scale: 0 }
    }

    /// Zero, with no decimal places.
    pub fn zero() -> (r: Amount)
        ensures
            r == Amount::zero_value(),
            r.spec_mantissa() == 0,
            r.spec_scale() == 0,
    {
        Amount { mantissa: 0, scale: 0 }
    }

    #[verifier::when_used_as_spec(spec_mantissa)]
    pub fn mantissa(&self) -> (r: i128)
        ensures
            r == self.spec_mantissa(),
            amount_parts_valid(r, self.spec_scale()),
    {
        proof {
            use_type_invariant(self);
        }
        self.mantissa
    }

    #[verifier::when_used_as_spec(spec_scale)]
    pub fn scale(&self) -> (r: u32)
        ensures
            r == self.spec_scale(),
            amount_parts_valid(self.spec_mantissa(), r),
    {
        proof {
            use_type_invariant(self);
        }
        self.scale
    }
}

/// A payment as it is submitted: the record that travels through the queues.
#[derive(Debug, Clone, Copy)]
pub struct PaymentMessage {
    pub amount: Amount,
    pub correlation_id: uuid::Uuid,
    pub retry_count: u32,
}

impl PaymentMessage {
    /// A fresh message, not yet retried.
    pub fn new(amount: Amount, correlation_id: uuid::Uuid) -> (r: Self)
        ensures
            r.amount == amount,
            r.correlation_id == correlation_id,
            r.retry_count == 0,
    {
        Self { amount, correlation_id, retry_count: 0 }
    }
}

/// A payment as it is persisted, stamped just before it is sent to a processor.
#[derive(Debug, Clone, Copy)]
pub struct Payment {
    pub amount: Amount,
    pub correlation_id: uuid::Uuid,
    pub requested_at: time::OffsetDateTime,
    pub processor: ProcessorType,
}

impl Payment {
    pub fn new(
        amount: Amount,
        correlation_id: uuid::Uuid,
        processor: ProcessorType,
        now: time::OffsetDateTime,
    ) -> (r: Self)
        ensures
            r.amount == amount,
            r.correlation_id == correlation_id,
            r.processor == processor,
            r.requested_at == now,
    {
        Self { amount, correlation_id, processor, requested_at: now }
    }
}

} // verus!
