use quarkcli::error::{HttpFailure, IoErrorKind, IoFailure, QuarkPanError, RetryClass};

#[test]
fn retry_class_treats_argument_errors_as_hard() {
    assert_eq!(
        QuarkPanError::missing_field("fid").retry_class(),
        RetryClass::Hard
    );
    assert_eq!(
        QuarkPanError::invalid_argument("bad").retry_class(),
        RetryClass::Hard
    );
}

#[test]
fn retry_class_treats_cancelled_as_hard() {
    assert_eq!(QuarkPanError::Cancelled.retry_class(), RetryClass::Hard);
}

#[test]
fn retry_class_treats_api_auth_and_not_found_as_hard() {
    for status in [401, 403, 404] {
        assert_eq!(
            QuarkPanError::Api {
                status,
                message: "api error".to_string()
            }
            .retry_class(),
            RetryClass::Hard
        );
    }
}

#[test]
fn retry_class_treats_api_rate_limit_separately() {
    assert_eq!(
        QuarkPanError::Api {
            status: 429,
            message: "rate limited".to_string()
        }
        .retry_class(),
        RetryClass::RateLimited
    );
}

#[test]
fn retry_class_treats_api_5xx_as_transient() {
    assert_eq!(
        QuarkPanError::Api {
            status: 503,
            message: "unavailable".to_string()
        }
        .retry_class(),
        RetryClass::Transient
    );
}

#[test]
fn retry_class_treats_interrupted_io_as_transient() {
    let err = IoFailure {
        kind: IoErrorKind::Interrupted,
        message: "interrupted".to_string(),
    };

    assert_eq!(QuarkPanError::Io(err).retry_class(), RetryClass::Transient);
}

fn http(timeout: bool, connect: bool, status: Option<u16>, body: bool, request: bool) -> QuarkPanError {
    QuarkPanError::Http(HttpFailure {
        timeout,
        connect,
        status,
        body,
        request,
        message: "boom".to_string(),
    })
}

#[test]
fn retry_class_of_http_failures_follows_transport_facts() {
    assert_eq!(http(true, false, None, false, false).retry_class(), RetryClass::Transient);
    assert_eq!(http(false, true, Some(404), false, false).retry_class(), RetryClass::Transient);
    assert_eq!(http(false, false, Some(429), false, false).retry_class(), RetryClass::RateLimited);
    assert_eq!(http(false, false, Some(500), false, false).retry_class(), RetryClass::Transient);
    assert_eq!(http(false, false, Some(599), false, false).retry_class(), RetryClass::Transient);
    assert_eq!(http(false, false, Some(600), false, false).retry_class(), RetryClass::Hard);
    assert_eq!(http(false, false, Some(404), true, false).retry_class(), RetryClass::Transient);
    assert_eq!(http(false, false, None, false, true).retry_class(), RetryClass::Transient);
    assert_eq!(http(false, false, Some(403), false, false).retry_class(), RetryClass::Hard);
}

#[test]
fn retry_class_of_other_errors_is_hard() {
    let io = |kind| {
        QuarkPanError::Io(IoFailure {
            kind,
            message: String::new(),
        })
    };
    assert_eq!(io(IoErrorKind::TimedOut).retry_class(), RetryClass::Transient);
    assert_eq!(io(IoErrorKind::ConnectionAborted).retry_class(), RetryClass::Transient);
    assert_eq!(io(IoErrorKind::ConnectionReset).retry_class(), RetryClass::Transient);
    assert_eq!(io(IoErrorKind::BrokenPipe).retry_class(), RetryClass::Transient);
    assert_eq!(io(IoErrorKind::NotFound).retry_class(), RetryClass::Hard);
    assert_eq!(io(IoErrorKind::Other).retry_class(), RetryClass::Hard);
    assert_eq!(QuarkPanError::Serde("x".to_string()).retry_class(), RetryClass::Hard);
    assert_eq!(QuarkPanError::HeaderValue("x".to_string()).retry_class(), RetryClass::Hard);
    assert_eq!(QuarkPanError::UrlParse("x".to_string()).retry_class(), RetryClass::Hard);
    assert_eq!(
        QuarkPanError::Api {
            status: 418,
            message: String::new()
        }
        .retry_class(),
        RetryClass::Hard
    );
}

#[test]
fn error_text_matches_display_messages() {
    assert_eq!(
        QuarkPanError::missing_field("cookie").to_text(),
        "missing required field: cookie"
    );
    assert_eq!(
        QuarkPanError::invalid_argument("bad").to_text(),
        "invalid argument: bad"
    );
    assert_eq!(QuarkPanError::Cancelled.to_text(), "operation cancelled");
    assert_eq!(
        QuarkPanError::Api {
            status: 503,
            message: "unavailable".to_string()
        }
        .to_text(),
        "remote api error: status=503, message=unavailable"
    );
    assert_eq!(http(true, false, None, false, false).to_text(), "http error: boom");
    assert_eq!(QuarkPanError::Serde("eof".to_string()).to_text(), "json error: eof");
    assert_eq!(
        QuarkPanError::Io(IoFailure {
            kind: IoErrorKind::Other,
            message: "disk".to_string()
        })
        .to_text(),
        "io error: disk"
    );
    assert_eq!(
        QuarkPanError::HeaderValue("h".to_string()).to_text(),
        "header value error: h"
    );
    assert_eq!(
        QuarkPanError::UrlParse("u".to_string()).to_text(),
        "url parse error: u"
    );
}
