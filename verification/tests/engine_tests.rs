use bun_docs_mcp_proxy::forward::{ForwardOutcome, NextStep, RetryState};
use bun_docs_mcp_proxy::http::{BodyPlan, BunDocsClient, Header, MAX_RETRIES};
use bun_docs_mcp_proxy::json::Json;

fn header(name: &str, value: &str) -> Header {
    Header {
        name: name.to_owned(),
        value: value.as_bytes().to_vec(),
    }
}

/// One scripted answer of a backend: status, content type and body.
struct Answer {
    status: u16,
    content_type: Option<&'static str>,
    body: &'static str,
}

/// Runs one forwarded request against scripted answers, as the program's loop
/// does against the network, and reports the result, the delays that were asked
/// for, and the number of attempts made.
fn forward(answers: &[Answer]) -> (Result<Json, String>, Vec<u64>, usize) {
    let mut state = RetryState::new();
    let mut delays = Vec::new();
    let mut attempts = 0;
    loop {
        let answer = &answers[attempts];
        attempts += 1;
        let headers: Vec<Header> = answer
            .content_type
            .iter()
            .map(|value| header("content-type", value))
            .collect();
        let outcome = ForwardOutcome::of_response(answer.status, &headers, answer.body.as_bytes());
        match state.step(outcome) {
            NextStep::Finish(result) => return (result, delays, attempts),
            NextStep::Retry { delay_ms, state: next } => {
                delays.push(delay_ms);
                state = next;
            }
        }
    }
}

#[test]
fn backoff_is_capped_from_the_fourth_attempt() {
    let delays: Vec<u64> = (1..=4).map(BunDocsClient::backoff_delay_ms).collect();
    assert_eq!(delays, vec![200, 400, 800, 1000]);
    for attempt in [5_usize, 6, 10, 64, 65, 1000, usize::MAX] {
        assert_eq!(BunDocsClient::backoff_delay_ms(attempt), 1000);
    }
}

#[test]
fn transient_statuses_are_exactly_five() {
    for status in 100_u16..1000 {
        let expected = matches!(status, 429 | 500 | 502 | 503 | 504);
        assert_eq!(BunDocsClient::is_transient_status(status), expected);
    }
    for status in [200_u16, 301, 400, 404] {
        assert!(!BunDocsClient::is_transient_status(status));
    }
}

#[test]
fn network_errors_are_transient_by_kind() {
    assert!(BunDocsClient::is_transient_network_error(true, false, false));
    assert!(BunDocsClient::is_transient_network_error(false, true, false));
    assert!(BunDocsClient::is_transient_network_error(false, false, true));
    assert!(!BunDocsClient::is_transient_network_error(false, false, false));
}

#[test]
fn content_type_is_normalized() {
    let headers = vec![header("content-type", "application/json; charset=utf-8")];
    assert_eq!(BunDocsClient::main_content_type(&headers), "application/json");
    let headers = vec![header("content-type", "TEXT/EVENT-STREAM")];
    assert_eq!(BunDocsClient::main_content_type(&headers), "text/event-stream");
    assert_eq!(BunDocsClient::main_content_type(&Vec::new()), "");
    let headers = vec![header("content-type", "  Text/Plain \t;q=1;x")];
    assert_eq!(BunDocsClient::main_content_type(&headers), "text/plain");
}

#[test]
fn main_content_types_are_in_normal_form() {
    let samples = [
        "",
        ";",
        " ; charset=utf-8",
        "Application/JSON;charset=UTF-8",
        "\t TEXT/Event-Stream \t; x",
        "a b ; c",
        "MULTIPART/Form-Data; boundary=X;Y",
    ];
    for sample in samples {
        let normal = BunDocsClient::main_content_type(&vec![header("content-type", sample)]);
        assert!(!normal.contains(';'), "{sample:?}");
        assert!(!normal.chars().any(|c| c.is_ascii_uppercase()), "{sample:?}");
        assert_eq!(normal.trim(), normal, "{sample:?}");
        let expected = sample.split(';').next().unwrap_or("").trim().to_ascii_lowercase();
        assert_eq!(normal, expected, "{sample:?}");
    }
}

#[test]
fn content_type_that_is_no_text_reads_as_none() {
    let headers = vec![Header {
        name: "content-type".to_owned(),
        value: vec![b'a', 0xff, b'b'],
    }];
    assert_eq!(BunDocsClient::main_content_type(&headers), "");
}

#[test]
fn the_first_content_type_header_counts() {
    let headers = vec![
        header("x-other", "text/html"),
        header("content-type", "text/event-stream"),
        header("content-type", "application/json"),
    ];
    assert_eq!(BunDocsClient::main_content_type(&headers), "text/event-stream");
}

#[test]
fn header_summary_lists_at_most_eight() {
    let headers: Vec<Header> = (0..10)
        .map(|i| header(&format!("x-h{i}"), &format!("v{i}")))
        .collect();
    assert_eq!(
        BunDocsClient::summarize_headers(&headers),
        "x-h0: v0, x-h1: v1, x-h2: v2, x-h3: v3, x-h4: v4, x-h5: v5, x-h6: v6, x-h7: v7"
    );
    let binary = vec![Header {
        name: "x-bin".to_owned(),
        value: vec![0x80],
    }];
    assert_eq!(BunDocsClient::summarize_headers(&binary), "x-bin: <binary>");
    assert_eq!(BunDocsClient::summarize_headers(&Vec::new()), "");
}

#[test]
fn truncation_keeps_whole_characters() {
    // "hello 世界": six bytes of ASCII, then two characters of three bytes.
    let unicode = "hello \u{4e16}\u{754c}";
    assert_eq!(BunDocsClient::truncate_utf8(unicode, 8), "hello ");
    assert_eq!(BunDocsClient::truncate_utf8(unicode, 9), "hello \u{4e16}");
    assert_eq!(BunDocsClient::truncate_utf8(unicode, 12), unicode);
    assert_eq!(BunDocsClient::truncate_utf8(unicode, 0), "");
    assert_eq!(BunDocsClient::truncate_utf8("\u{1f600}x", 3), "");
    assert_eq!(BunDocsClient::truncate_utf8("é\u{1f600}x", 6), "é\u{1f600}");
}

#[test]
fn body_plan_follows_status_and_content_type() {
    let sse = vec![header("content-type", "text/event-stream; charset=utf-8")];
    let json = vec![header("content-type", "application/json")];
    assert_eq!(BunDocsClient::body_plan(200, &sse), BodyPlan::EventStream);
    assert_eq!(BunDocsClient::body_plan(200, &json), BodyPlan::JsonDocument);
    assert_eq!(BunDocsClient::body_plan(204, &Vec::new()), BodyPlan::JsonDocument);
    assert_eq!(BunDocsClient::body_plan(503, &sse), BodyPlan::Diagnostic);
    assert_eq!(BunDocsClient::body_plan(404, &json), BodyPlan::Diagnostic);
    assert_eq!(BunDocsClient::body_plan(301, &json), BodyPlan::Diagnostic);
}

#[test]
fn retry_then_succeed() {
    let (result, delays, attempts) = forward(&[
        Answer {
            status: 503,
            content_type: Some("text/plain"),
            body: "Service Unavailable",
        },
        Answer {
            status: 200,
            content_type: Some("application/json"),
            body: r#"{"result":{}}"#,
        },
    ]);
    let answer = result.expect("the second attempt succeeds");
    assert_eq!(answer.get("result"), Some(&Json::Object(vec![])));
    assert_eq!(delays, vec![200]);
    assert_eq!(attempts, 2);
}

#[test]
fn retry_exhaustion() {
    let unavailable = || Answer {
        status: 503,
        content_type: Some("text/plain"),
        body: "Service Unavailable",
    };
    let (result, delays, attempts) = forward(&[unavailable(), unavailable(), unavailable()]);
    let message = result.expect_err("every attempt fails");
    assert!(message.contains("503"));
    assert_eq!(
        message,
        "Bun Docs API error: status=503 Service Unavailable content_type=text/plain \
         headers=[content-type: text/plain] body_snippet=\"Service Unavailable\""
    );
    assert_eq!(delays, vec![200, 400]);
    assert_eq!(attempts, MAX_RETRIES);
}

#[test]
fn no_retry_on_non_transient_status() {
    let (result, delays, attempts) = forward(&[Answer {
        status: 404,
        content_type: Some("text/plain"),
        body: "Not Found",
    }]);
    let message = result.expect_err("a 404 fails");
    assert!(message.contains("404"));
    assert!(delays.is_empty());
    assert_eq!(attempts, 1);
}

#[test]
fn every_transient_status_is_retried_once_then_answered() {
    for status in [429_u16, 500, 502, 503, 504] {
        let (result, delays, attempts) = forward(&[
            Answer {
                status,
                content_type: None,
                body: "",
            },
            Answer {
                status: 200,
                content_type: Some("application/json"),
                body: r#"{"result": {"data": "success"}}"#,
            },
        ]);
        assert!(result.is_ok());
        assert_eq!(delays, vec![200]);
        assert_eq!(attempts, 2);
    }
}

#[test]
fn the_last_failure_is_reported_after_mixed_transient_failures() {
    let (result, delays, attempts) = forward(&[
        Answer {
            status: 502,
            content_type: None,
            body: "Bad Gateway",
        },
        Answer {
            status: 503,
            content_type: None,
            body: "Service Unavailable",
        },
        Answer {
            status: 504,
            content_type: None,
            body: "Gateway Timeout",
        },
    ]);
    let message = result.expect_err("every attempt fails");
    assert!(message.contains("504"));
    assert!(message.contains("content_type=<none>"));
    assert_eq!(delays, vec![200, 400]);
    assert_eq!(attempts, 3);
}

#[test]
fn a_success_with_a_body_that_is_no_json_is_a_decode_error() {
    let (result, delays, attempts) = forward(&[Answer {
        status: 200,
        content_type: Some("application/json"),
        body: "<html>",
    }]);
    assert_eq!(result, Err("Failed to parse JSON response".to_owned()));
    assert!(delays.is_empty());
    assert_eq!(attempts, 1);
}

#[test]
fn a_success_with_an_event_stream_is_reduced() {
    let (result, delays, attempts) = forward(&[Answer {
        status: 200,
        content_type: Some("text/event-stream"),
        body: "data: {\"result\":{\"content\":[{\"text\":\"Mocked\",\"type\":\"text\"}]}}\n\n",
    }]);
    let answer = result.expect("the stream carries an answer");
    assert!(answer.get("result").is_some());
    assert!(delays.is_empty());
    assert_eq!(attempts, 1);
}

#[test]
fn network_failures_are_retried_only_when_transient() {
    let refused = ForwardOutcome::network_failure(true, false, false, "connection refused");
    assert_eq!(
        refused,
        ForwardOutcome::TransientNetworkError {
            message: "Failed to send request to Bun Docs API: connection refused".to_owned()
        }
    );
    match RetryState::new().step(refused) {
        NextStep::Retry { delay_ms, state } => {
            assert_eq!(delay_ms, 200);
            assert_eq!(state.attempt(), 2);
            assert_eq!(
                state.last_error().map(String::as_str),
                Some("Failed to send request to Bun Docs API: connection refused")
            );
        }
        NextStep::Finish(_) => panic!("a refused connection is retried"),
    }
    let fatal = ForwardOutcome::network_failure(false, false, false, "redirect loop");
    assert_eq!(
        RetryState::new().step(fatal),
        NextStep::Finish(Err(
            "Failed to send request to Bun Docs API: redirect loop".to_owned()
        ))
    );
}

#[test]
fn a_request_without_a_recorded_error_gives_up_with_a_general_one() {
    assert_eq!(RetryState::new().exhausted(), "Unknown error sending request");
    match RetryState::new().step(ForwardOutcome::network_failure(false, true, false, "timed out")) {
        NextStep::Retry { state, .. } => assert_eq!(
            state.exhausted(),
            "Failed to send request to Bun Docs API: timed out"
        ),
        NextStep::Finish(_) => panic!("a timeout is retried"),
    }
}

#[test]
fn the_report_cuts_the_body() {
    let long = "é".repeat(60_000);
    let outcome = ForwardOutcome::http_failure(500, &Vec::new(), long.as_bytes());
    let message = match outcome {
        ForwardOutcome::TransientHttpStatus { status, message } => {
            assert_eq!(status, 500);
            message
        }
        other => panic!("unexpected outcome {other:?}"),
    };
    let expected = format!(
        "Bun Docs API error: status=500 Internal Server Error content_type=<none> headers=[] \
         body_snippet=\"{}\"",
        "é".repeat(1024)
    );
    assert_eq!(message, expected);
}

#[test]
fn the_report_names_a_status_without_a_reason() {
    let outcome = ForwardOutcome::http_failure(599, &Vec::new(), b"x");
    match outcome {
        ForwardOutcome::NonTransientHttpStatus { message, .. } => assert!(
            message.starts_with("Bun Docs API error: status=599 <unknown status code> ")
        ),
        other => panic!("unexpected outcome {other:?}"),
    }
}

#[test]
fn the_report_reads_a_body_that_is_no_utf8() {
    let outcome = ForwardOutcome::http_failure(400, &Vec::new(), &[b'a', 0xff, b'b']);
    match outcome {
        ForwardOutcome::NonTransientHttpStatus { message, .. } => {
            assert!(message.ends_with("body_snippet=\"a\u{fffd}b\""))
        }
        other => panic!("unexpected outcome {other:?}"),
    }
}

#[test]
fn base_url_is_kept_as_the_parser_writes_it() {
    let client = BunDocsClient::with_base_url("HTTPS://Example.com").unwrap();
    assert_eq!(client.base_url(), "https://example.com/");
    assert_eq!(
        BunDocsClient::with_base_url("not a valid url"),
        Err("Invalid base URL".to_owned())
    );
}

#[test]
fn markdown_status_is_checked() {
    assert_eq!(BunDocsClient::check_markdown_status(200, "https://bun.com/x"), Ok(()));
    assert_eq!(
        BunDocsClient::check_markdown_status(404, "https://bun.com/x"),
        Err("Failed to fetch markdown: HTTP 404 Not Found for URL: https://bun.com/x".to_owned())
    );
}
