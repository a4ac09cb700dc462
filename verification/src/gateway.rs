//! The gateway's public surface: which request does what, and what is
//! answered.

use crate::payment::Amount;
use crate::publisher::PublisherError;
use crate::text::{bytes_eq, str_eq};
use vstd::prelude::*;
use vstd::string::StringExecFns;
use vstd::utf8::encode_utf8;

verus! {

/// Where the gateway listens, where it publishes, and where its database is.
#[derive(Debug, Clone)]
pub struct GatewayConfig {
    pub publish_path: String,
    pub listen_path: String,
    pub postgres_url: String,
}

/// How many database connections the gateway keeps.
pub const DB_POOL_SIZE: usize = 3;

/// The processor of a row, as the database names it.
#[derive(Debug, Clone, Copy, PartialEq, Eq, Structural)]
pub enum ServiceType {
    Default,
    Fallback,
}

/// A value of the database enum that is neither `default` nor `fallback`.
#[derive(Debug, Clone, Copy, PartialEq, Eq, Structural)]
pub enum ServiceTypeError {
    UnknownVariant,
}

/// The processor that a raw enum value of the database names.
pub open spec fn service_type_of(raw: Seq<u8>) -> Result<ServiceType, ServiceTypeError> {
    if raw == encode_utf8(ServiceType::Default.label()) {
        Ok(ServiceType::Default)
    } else if raw == encode_utf8(ServiceType::Fallback.label()) {
        Ok(ServiceType::Fallback)
    } else {
        Err(ServiceTypeError::UnknownVariant)
    }
}

impl ServiceType {
    /// The label under which the processor is stored and printed.
    pub open spec fn label(self) -> Seq<char> {
        match self {
            ServiceType::Default => "default"@,
            ServiceType::Fallback => "fallback"@,
        }
    }

    pub fn as_str(&self) -> (r: &'static str)
        ensures
            r@ == self.label(),
    {
        match self {
            ServiceType::Default => "default",
            ServiceType::Fallback => "fallback",
        }
    }

    pub fn to_string(&self) -> (r: String)
        ensures
            r@ == self.label(),
    {
        String::from_str(self.as_str())
    }

    /// Reads the raw value of the database enum.
    pub fn from_sql(raw: &[u8]) -> (r: Result<ServiceType, ServiceTypeError>)
        ensures
            r == service_type_of(raw@),
    {
        if bytes_eq(raw, "default".as_bytes()) {
            Ok(ServiceType::Default)
        } else if bytes_eq(raw, "fallback".as_bytes()) {
            Ok(ServiceType::Fallback)
        } else {
            Err(ServiceTypeError::UnknownVariant)
        }
    }

    /// Whether a database type of this name holds processors.
    pub fn accepts(sql_type: &str) -> (r: bool)
        ensures
            r == (sql_type@ == "service_type"@),
    {
        str_eq(sql_type, "service_type")
    }
}

/// What one processor has handled.
#[derive(Debug, Clone, Copy, PartialEq, Eq, Structural)]
pub struct ProcessorSummary {
    pub total_requests: i64,
    pub total_amount: Amount,
}

/// What both processors have handled.
#[derive(Debug, Clone, Copy, PartialEq, Eq, Structural)]
pub struct Summary {
    pub default: ProcessorSummary,
    pub fallback: ProcessorSummary,
}

/// One row of the grouped query: the count and the sum of one processor.
#[derive(Debug, Clone, Copy, PartialEq, Eq, Structural)]
pub struct SummaryRow {
    pub total_requests: i64,
    pub total_amount: Amount,
    pub processor: ServiceType,
}

/// The totals of a processor among the rows: those of its row, the last
/// one if it has several, and zero if it has none.
pub open spec fn group_total(rows: Seq<SummaryRow>, processor: ServiceType) -> ProcessorSummary
    decreases rows.len(),
{
    if rows.len() == 0 {
        ProcessorSummary { total_requests: 0, total_amount: Amount::zero_value() }
    } else if rows.last().processor == processor {
        ProcessorSummary {
            total_requests: rows.last().total_requests,
            total_amount: rows.last().total_amount,
        }
    } else {
        group_total(rows.drop_last(), processor)
    }
}

/// The summary that the rows of the grouped query give.
pub fn summarize(rows: &Vec<SummaryRow>) -> (summary: Summary)
    ensures
        summary.default == group_total(rows@, ServiceType::Default),
        summary.fallback == group_total(rows@, ServiceType::Fallback),
{
    let mut default = ProcessorSummary { total_requests: 0, total_amount: Amount::zero() };
    let mut fallback = ProcessorSummary { total_requests: 0, total_amount: Amount::zero() };
    let mut i: usize = 0;
    while i < rows.len()
        invariant
            i <= rows@.len(),
            default == group_total(rows@.subrange(0, i as int), ServiceType::Default),
            fallback == group_total(rows@.subrange(0, i as int), ServiceType::Fallback),
        decreases rows@.len() - i,
    {
        let row = rows[i];
        proof {
            let next = rows@.subrange(0, (i + 1) as int);
            assert(next.drop_last() =~= rows@.subrange(0, i as int));
            assert(next.last() == row);
        }
        let totals = ProcessorSummary {
            total_requests: row.total_requests,
            total_amount: row.total_amount,
        };
        match row.processor {
            ServiceType::Default => {
                default = totals;
            },
            ServiceType::Fallback => {
                fallback = totals;
            },
        }
        i = i + 1;
    }
    assert(rows@.subrange(0, rows@.len() as int) =~= rows@);
    Summary { default, fallback }
}

/// How many of the persisted payments, each given by its processor and its
/// amount, a processor has handled.
pub open spec fn count_of(persisted: Seq<(ServiceType, Amount)>, processor: ServiceType) -> int
    decreases persisted.len(),
{
    if persisted.len() == 0 {
        0
    } else if persisted.last().0 == processor {
        count_of(persisted.drop_last(), processor) + 1
    } else {
        count_of(persisted.drop_last(), processor)
    }
}

/// The sum of the persisted payments that a processor has handled, in units
/// of 10^-28.
pub open spec fn sum_of(persisted: Seq<(ServiceType, Amount)>, processor: ServiceType) -> int
    decreases persisted.len(),
{
    if persisted.len() == 0 {
        0
    } else if persisted.last().0 == processor {
        sum_of(persisted.drop_last(), processor) + persisted.last().1.units()
    } else {
        sum_of(persisted.drop_last(), processor)
    }
}

/// The rows are the persisted payments grouped by processor: every row
/// holds the exact count and sum of a processor that has payments, and
/// every processor that has payments has a row.
pub open spec fn grouped(rows: Seq<SummaryRow>, persisted: Seq<(ServiceType, Amount)>) -> bool {
    &&& forall|i: int|
        0 <= i < rows.len() ==> {
            &&& count_of(persisted, (#[trigger] rows[i]).processor) > 0
            &&& rows[i].total_requests == count_of(persisted, rows[i].processor)
            &&& rows[i].total_amount.units() == sum_of(persisted, rows[i].processor)
        }
    &&& forall|processor: ServiceType| #[trigger]
        count_of(persisted, processor) > 0 ==> exists|i: int|
            0 <= i < rows.len() && (#[trigger] rows[i]).processor == processor
}

/// A processor without payments has a sum of zero.
proof fn lemma_nothing_sums_to_zero(persisted: Seq<(ServiceType, Amount)>, processor: ServiceType)
    requires
        count_of(persisted, processor) == 0,
    ensures
        sum_of(persisted, processor) == 0,
    decreases persisted.len(),
{
    if persisted.len() > 0 {
        lemma_count_is_natural(persisted.drop_last(), processor);
        lemma_nothing_sums_to_zero(persisted.drop_last(), processor);
    }
}

proof fn lemma_count_is_natural(persisted: Seq<(ServiceType, Amount)>, processor: ServiceType)
    ensures
        count_of(persisted, processor) >= 0,
    decreases persisted.len(),
{
    if persisted.len() > 0 {
        lemma_count_is_natural(persisted.drop_last(), processor);
    }
}

/// The totals of a processor are zero where no row names it, and those of a
/// row that names it otherwise.
proof fn lemma_group_total_is_a_row(rows: Seq<SummaryRow>, processor: ServiceType)
    ensures
        (forall|i: int| 0 <= i < rows.len() ==> (#[trigger] rows[i]).processor != processor)
            ==> group_total(rows, processor) == (ProcessorSummary {
            total_requests: 0,
            total_amount: Amount::zero_value(),
        }),
        (exists|i: int| 0 <= i < rows.len() && (#[trigger] rows[i]).processor == processor)
            ==> exists|i: int|
            0 <= i < rows.len() && (#[trigger] rows[i]).processor == processor && group_total(
                rows,
                processor,
            ) == (ProcessorSummary {
                total_requests: rows[i].total_requests,
                total_amount: rows[i].total_amount,
            }),
    decreases rows.len(),
{
    if rows.len() > 0 {
        let earlier = rows.drop_last();
        lemma_group_total_is_a_row(earlier, processor);
        if rows.last().processor == processor {
            assert(rows[rows.len() - 1].processor == processor);
        } else {
            assert forall|i: int| 0 <= i < earlier.len() implies earlier[i] == rows[i] by {}
            if exists|i: int| 0 <= i < rows.len() && (#[trigger] rows[i]).processor == processor {
                let i = choose|i: int|
                    0 <= i < rows.len() && (#[trigger] rows[i]).processor == processor;
                assert(earlier[i].processor == processor);
                let j = choose|j: int|
                    0 <= j < earlier.len() && (#[trigger] earlier[j]).processor == processor
                        && group_total(earlier, processor) == (ProcessorSummary {
                        total_requests: earlier[j].total_requests,
                        total_amount: earlier[j].total_amount,
                    });
                assert(rows[j].processor == processor);
            } else {
                assert forall|i: int| 0 <= i < earlier.len() implies (#[trigger] earlier[i])
                    .processor != processor by {
                    assert(rows[i].processor != processor);
                }
            }
        }
    }
}

/// Over the rows that group the persisted payments, the summary of a
/// processor is the exact count and the exact sum of its payments, and zero
/// where it has none.
pub proof fn lemma_summary_is_exact(
    rows: Seq<SummaryRow>,
    persisted: Seq<(ServiceType, Amount)>,
    processor: ServiceType,
)
    requires
        grouped(rows, persisted),
    ensures
        group_total(rows, processor).total_requests == count_of(persisted, processor),
        group_total(rows, processor).total_amount.units() == sum_of(persisted, processor),
{
    lemma_group_total_is_a_row(rows, processor);
    lemma_count_is_natural(persisted, processor);
    if exists|i: int| 0 <= i < rows.len() && (#[trigger] rows[i]).processor == processor {
    } else {
        assert forall|i: int| 0 <= i < rows.len() implies (#[trigger] rows[i]).processor
            != processor by {}
        assert(count_of(persisted, processor) == 0);
        lemma_nothing_sums_to_zero(persisted, processor);
        Amount::lemma_zero_value();
    }
}

/// What a request asks for.
#[derive(Debug, Clone, Copy, PartialEq, Eq, Structural)]
pub enum Route {
    /// `GET /health`
    Health,
    /// `POST /payments`
    Payments,
    /// `GET /payments-summary`
    PaymentsSummary,
    /// `POST /purge-payments`
    PurgePayments,
    /// Anything else.
    NotFound,
}

/// The route of a method and a path.
pub open spec fn route_of(method: Seq<char>, path: Seq<char>) -> Route {
    if method == "GET"@ && path == "/health"@ {
        Route::Health
    } else if method == "POST"@ && path == "/payments"@ {
        Route::Payments
    } else if method == "GET"@ && path == "/payments-summary"@ {
        Route::PaymentsSummary
    } else if method == "POST"@ && path == "/purge-payments"@ {
        Route::PurgePayments
    } else {
        Route::NotFound
    }
}

/// Finds the route of a request.
pub fn route(method: &str, path: &str) -> (r: Route)
    ensures
        r == route_of(method@, path@),
{
    let get = str_eq(method, "GET");
    let post = str_eq(method, "POST");
    if get && str_eq(path, "/health") {
        Route::Health
    } else if post && str_eq(path, "/payments") {
        Route::Payments
    } else if get && str_eq(path, "/payments-summary") {
        Route::PaymentsSummary
    } else if post && str_eq(path, "/purge-payments") {
        Route::PurgePayments
    } else {
        Route::NotFound
    }
}

/// How a request ended.
#[derive(Debug, Clone, Copy, PartialEq, Eq, Structural)]
pub enum Outcome {
    /// The liveness check.
    Alive,
    /// The payment went out to the workers.
    Published,
    /// The payment could not be published; the client may try again.
    PublishFailed,
    /// The summary was read from the database.
    Summarized,
    /// The payments were purged.
    Purged,
    /// The database failed.
    StoreFailed,
    /// There is no such route.
    NotFound,
}

/// The body of the answer to the liveness check.
pub const HEALTH_BODY: &'static str = "OK";

/// The content type of a summary.
pub const SUMMARY_CONTENT_TYPE: &'static str = "application/json";

/// The status that answers each outcome.
pub open spec fn status_of(outcome: Outcome) -> u16 {
    match outcome {
        Outcome::Alive => 200,
        Outcome::Published => 202,
        Outcome::PublishFailed => 429,
        Outcome::Summarized => 200,
        Outcome::Purged => 200,
        Outcome::StoreFailed => 500,
        Outcome::NotFound => 404,
    }
}

/// The status that answers an outcome.
pub fn status(outcome: Outcome) -> (code: u16)
    ensures
        code == status_of(outcome),
{
    match outcome {
        Outcome::Alive => 200,
        Outcome::Published => 202,
        Outcome::PublishFailed => 429,
        Outcome::Summarized => 200,
        Outcome::Purged => 200,
        Outcome::StoreFailed => 500,
        Outcome::NotFound => 404,
    }
}

/// How a submission ended, given what the publisher said.
pub fn publish_outcome(published: &Result<(), PublisherError>) -> (outcome: Outcome)
    ensures
        published is Ok ==> outcome == Outcome::Published,
        published is Err ==> outcome == Outcome::PublishFailed,
{
    match published {
        Ok(()) => Outcome::Published,
        Err(_) => Outcome::PublishFailed,
    }
}

/// How a summary request ended, given whether the database gave its rows.
pub fn summary_outcome(succeeded: bool) -> (outcome: Outcome)
    ensures
        succeeded ==> outcome == Outcome::Summarized,
        !succeeded ==> outcome == Outcome::StoreFailed,
{
    if succeeded {
        Outcome::Summarized
    } else {
        Outcome::StoreFailed
    }
}

/// How a purge ended, given whether the database emptied the table.
pub fn purge_outcome(succeeded: bool) -> (outcome: Outcome)
    ensures
        succeeded ==> outcome == Outcome::Purged,
        !succeeded ==> outcome == Outcome::StoreFailed,
{
    if succeeded {
        Outcome::Purged
    } else {
        Outcome::StoreFailed
    }
}

} // verus!
