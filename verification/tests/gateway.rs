use payment_pipeline::gateway::{
    publish_outcome, purge_outcome, route, status, summarize, summary_outcome, Outcome,
    ProcessorSummary, Route, ServiceType, ServiceTypeError, Summary, SummaryRow, HEALTH_BODY,
};
use payment_pipeline::payment::Amount;
use payment_pipeline::publisher::PublisherError;
use payment_pipeline::query::{
    join_bounds, parse_bound, parse_query_params, query_value, summary_bounds, BoundError,
    LocalDateTime, SummaryBounds,
};

fn amount(mantissa: i128, scale: u32) -> Amount {
    Amount::new(mantissa, scale).unwrap()
}

fn row(total_requests: i64, total_amount: Amount, processor: ServiceType) -> SummaryRow {
    SummaryRow { total_requests, total_amount, processor }
}

#[test]
fn routes_of_the_public_surface() {
    assert_eq!(route("GET", "/health"), Route::Health);
    assert_eq!(route("POST", "/payments"), Route::Payments);
    assert_eq!(route("GET", "/payments-summary"), Route::PaymentsSummary);
    assert_eq!(route("POST", "/purge-payments"), Route::PurgePayments);
}

#[test]
fn everything_else_is_not_found() {
    assert_eq!(route("POST", "/health"), Route::NotFound);
    assert_eq!(route("GET", "/payments"), Route::NotFound);
    assert_eq!(route("POST", "/payments-summary"), Route::NotFound);
    assert_eq!(route("GET", "/purge-payments"), Route::NotFound);
    assert_eq!(route("GET", "/"), Route::NotFound);
    assert_eq!(route("get", "/health"), Route::NotFound);
    assert_eq!(route("GET", "/health/"), Route::NotFound);
    assert_eq!(route("DELETE", "/payments"), Route::NotFound);
}

#[test]
fn statuses_of_outcomes() {
    assert_eq!(status(Outcome::Alive), 200);
    assert_eq!(status(Outcome::Published), 202);
    assert_eq!(status(Outcome::PublishFailed), 429);
    assert_eq!(status(Outcome::Summarized), 200);
    assert_eq!(status(Outcome::Purged), 200);
    assert_eq!(status(Outcome::StoreFailed), 500);
    assert_eq!(status(Outcome::NotFound), 404);
    assert_eq!(HEALTH_BODY, "OK");
}

#[test]
fn publish_failure_answers_too_many_requests() {
    assert_eq!(publish_outcome(&Ok(())), Outcome::Published);
    assert_eq!(publish_outcome(&Err(PublisherError::Timeout)), Outcome::PublishFailed);
    let broken = std::io::Error::new(std::io::ErrorKind::BrokenPipe, "broken");
    assert_eq!(publish_outcome(&Err(PublisherError::WriteError(broken))), Outcome::PublishFailed);
    assert_eq!(status(publish_outcome(&Err(PublisherError::Timeout))), 429);
}

#[test]
fn database_failure_answers_server_error() {
    assert_eq!(summary_outcome(true), Outcome::Summarized);
    assert_eq!(summary_outcome(false), Outcome::StoreFailed);
    assert_eq!(purge_outcome(true), Outcome::Purged);
    assert_eq!(purge_outcome(false), Outcome::StoreFailed);
    assert_eq!(status(summary_outcome(false)), 500);
    assert_eq!(status(purge_outcome(false)), 500);
}

#[test]
fn summary_of_grouped_rows() {
    let rows = vec![
        row(3, amount(600, 2), ServiceType::Default),
        row(2, amount(1000, 2), ServiceType::Fallback),
    ];
    let summary = summarize(&rows);
    assert_eq!(
        summary,
        Summary {
            default: ProcessorSummary { total_requests: 3, total_amount: amount(600, 2) },
            fallback: ProcessorSummary { total_requests: 2, total_amount: amount(1000, 2) },
        }
    );
}

#[test]
fn summary_missing_groups_default_to_zero() {
    let summary = summarize(&Vec::new());
    assert_eq!(summary.default.total_requests, 0);
    assert_eq!(summary.default.total_amount, Amount::zero());
    assert_eq!(summary.fallback.total_requests, 0);
    assert_eq!(summary.fallback.total_amount, Amount::zero());

    let only_fallback = summarize(&vec![row(7, amount(1995, 2), ServiceType::Fallback)]);
    assert_eq!(only_fallback.default.total_requests, 0);
    assert_eq!(only_fallback.default.total_amount, Amount::zero());
    assert_eq!(only_fallback.fallback.total_requests, 7);
    assert_eq!(only_fallback.fallback.total_amount, amount(1995, 2));
}

#[test]
fn summary_last_row_of_a_processor_counts() {
    let rows = vec![
        row(1, amount(1, 0), ServiceType::Default),
        row(5, amount(5, 0), ServiceType::Fallback),
        row(2, amount(2, 0), ServiceType::Default),
    ];
    let summary = summarize(&rows);
    assert_eq!(summary.default.total_requests, 2);
    assert_eq!(summary.default.total_amount, amount(2, 0));
    assert_eq!(summary.fallback.total_requests, 5);
}

#[test]
fn service_type_from_sql() {
    assert_eq!(ServiceType::from_sql(b"default"), Ok(ServiceType::Default));
    assert_eq!(ServiceType::from_sql(b"fallback"), Ok(ServiceType::Fallback));
    assert_eq!(ServiceType::from_sql(b"Default"), Err(ServiceTypeError::UnknownVariant));
    assert_eq!(ServiceType::from_sql(b""), Err(ServiceTypeError::UnknownVariant));
    assert_eq!(ServiceType::from_sql(b"default "), Err(ServiceTypeError::UnknownVariant));
    assert_eq!(ServiceType::from_sql(&[0xff, 0xfe]), Err(ServiceTypeError::UnknownVariant));
}

#[test]
fn service_type_labels() {
    assert_eq!(ServiceType::Default.to_string(), "default");
    assert_eq!(ServiceType::Fallback.to_string(), "fallback");
    assert_eq!(ServiceType::Default.as_str(), "default");
    assert!(ServiceType::accepts("service_type"));
    assert!(!ServiceType::accepts("service_types"));
    assert!(!ServiceType::accepts("text"));
}

#[test]
fn query_pairs_are_percent_decoded() {
    let pairs = parse_query_params("from=2020-07-10T12%3A34%3A56Z&note=a+b&empty");
    assert_eq!(
        pairs,
        vec![
            ("from".to_string(), "2020-07-10T12:34:56Z".to_string()),
            ("note".to_string(), "a b".to_string()),
            ("empty".to_string(), "".to_string()),
        ]
    );
    assert_eq!(parse_query_params(""), Vec::new());
}

#[test]
fn query_value_takes_the_last_of_a_name() {
    let pairs = vec![
        ("from".to_string(), "one".to_string()),
        ("to".to_string(), "two".to_string()),
        ("from".to_string(), "three".to_string()),
    ];
    assert_eq!(query_value(&pairs, "from"), Some("three".to_string()));
    assert_eq!(query_value(&pairs, "to"), Some("two".to_string()));
    assert_eq!(query_value(&pairs, "other"), None);
    assert_eq!(query_value(&Vec::new(), "from"), None);
}

#[test]
fn bound_is_read_as_rfc3339() {
    assert_eq!(parse_bound(None), Ok(None));
    assert_eq!(
        parse_bound(Some("2020-07-10T12:34:56.250Z".to_string())),
        Ok(Some(LocalDateTime {
            year: 2020,
            month: 7,
            day: 10,
            hour: 12,
            minute: 34,
            second: 56,
            nanosecond: 250_000_000,
        }))
    );
    assert_eq!(parse_bound(Some("yesterday".to_string())), Err(BoundError::InvalidDate));
    assert_eq!(parse_bound(Some("".to_string())), Err(BoundError::InvalidDate));
}

#[test]
fn bounds_are_joined() {
    let at = LocalDateTime {
        year: 2021,
        month: 1,
        day: 2,
        hour: 3,
        minute: 4,
        second: 5,
        nanosecond: 0,
    };
    assert_eq!(
        join_bounds(Ok(Some(at)), Ok(None)),
        Ok(SummaryBounds { from: Some(at), to: None })
    );
    assert_eq!(join_bounds(Err(BoundError::InvalidDate), Ok(None)), Err(BoundError::InvalidDate));
    assert_eq!(join_bounds(Ok(None), Err(BoundError::InvalidDate)), Err(BoundError::InvalidDate));
}

#[test]
fn summary_bounds_of_a_query_string() {
    assert_eq!(summary_bounds(""), Ok(SummaryBounds { from: None, to: None }));
    let bounds =
        summary_bounds("from=2020-07-10T12:34:56.000Z&to=2020-07-10T12:35:56.000Z").unwrap();
    assert_eq!(
        bounds.from,
        Some(LocalDateTime {
            year: 2020,
            month: 7,
            day: 10,
            hour: 12,
            minute: 34,
            second: 56,
            nanosecond: 0,
        })
    );
    assert_eq!(bounds.to.unwrap().minute, 35);
    assert_eq!(summary_bounds("from=nonsense"), Err(BoundError::InvalidDate));
    assert_eq!(
        summary_bounds("to=2020-07-10T12:35:56.000Z&to=nonsense"),
        Err(BoundError::InvalidDate)
    );
    assert_eq!(
        summary_bounds("other=1").unwrap(),
        SummaryBounds { from: None, to: None }
    );
}
