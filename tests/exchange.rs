use std::io::{Error, ErrorKind};

use nftables::batch::Batch;
use nftables::schema::{NfListObject, NfObject, Table};
use nftables::types::NfFamily;
use nftables_async::command::{apply_args, program_or_default, retrieve_args, NFT_DEFAULT_PROGRAM};
use nftables_async::exchange::{apply_outcome, retrieve_outcome, APPLY_HINT, RETRIEVE_HINT};
use nftables_async::ruleset::{parse_ruleset, ruleset_payload};
use nftables_async::session::{ApplyAction, ApplyEvent, ApplyExchange, RetrieveExchange};
use nftables_async::util::MapFuture;
use nftables_async::{read, ExchangeError, ProcessOutcome};

fn outcome(success: bool, stdout: &[u8], stderr: &[u8]) -> ProcessOutcome {
    ProcessOutcome { success, stdout: stdout.to_vec(), stderr: stderr.to_vec() }
}

/// Runs an apply exchange through a spawn, a write and a close that all
/// succeed, and hands it the given outcome.
fn apply_with(exchange: &mut ApplyExchange, finished: ProcessOutcome) -> Result<(), ExchangeError> {
    assert!(matches!(exchange.step(ApplyEvent::Spawned(Ok(()))), ApplyAction::WriteInput));
    assert!(matches!(exchange.step(ApplyEvent::Written(Ok(()))), ApplyAction::CloseInput));
    assert!(matches!(exchange.step(ApplyEvent::Closed(Ok(()))), ApplyAction::AwaitCompletion));
    match exchange.step(ApplyEvent::Completed(Ok(finished))) {
        ApplyAction::Finish(r) => r,
        _ => panic!("the exchange did not finish after completion"),
    }
}

#[test]
fn default_program_is_nft() {
    assert_eq!(NFT_DEFAULT_PROGRAM, "nft");
    assert_eq!(program_or_default(None), "nft");
    assert_eq!(program_or_default(Some("/usr/sbin/nft")), "/usr/sbin/nft");
}

#[test]
fn apply_arguments_read_json_from_stdin() {
    assert_eq!(apply_args(None), vec!["-j", "-f", "-"]);
    assert_eq!(apply_args(Some(vec![])), vec!["-j", "-f", "-"]);
    assert_eq!(apply_args(Some(vec!["-c", "-c", "--echo"])), vec!["-j", "-f", "-", "-c", "-c", "--echo"]);
}

#[test]
fn retrieve_arguments_list_the_ruleset() {
    assert_eq!(retrieve_args(None), vec!["-j", "list", "ruleset"]);
    assert_eq!(retrieve_args(Some(vec!["-a", "-s"])), vec!["-j", "list", "ruleset", "-a", "-s"]);
}

#[test]
fn read_decodes_utf8() {
    let text = read("nft", "r\u{e8}gle \u{2713}".as_bytes().to_vec()).unwrap();
    assert_eq!(text, "r\u{e8}gle \u{2713}");
    assert_eq!(read("nft", Vec::new()).unwrap(), "");
}

#[test]
fn read_rejects_invalid_utf8() {
    match read("/sbin/nft", vec![b'o', 0xff, b'k']) {
        Err(ExchangeError::Encoding { program, bytes }) => {
            assert_eq!(program, "/sbin/nft");
            assert_eq!(bytes, vec![b'o', 0xff, b'k']);
        }
        other => panic!("unexpected {other:?}"),
    }
}

#[test]
fn apply_outcome_success_ignores_output() {
    assert!(apply_outcome("nft", outcome(true, &[0xc3], b"warning")).is_ok());
}

#[test]
fn apply_outcome_failure_carries_streams() {
    match apply_outcome("nft", outcome(false, b"out", b"Error: syntax error\n")) {
        Err(ExchangeError::Failed { program, hint, stdout, stderr }) => {
            assert_eq!(program, "nft");
            assert_eq!(hint, "applying ruleset");
            assert_eq!(stdout, "out");
            assert_eq!(stderr, "Error: syntax error\n");
        }
        other => panic!("unexpected {other:?}"),
    }
}

#[test]
fn apply_outcome_failure_with_invalid_stdout() {
    match apply_outcome("nft", outcome(false, &[0xfe], &[0xff])) {
        Err(ExchangeError::Encoding { bytes, .. }) => assert_eq!(bytes, vec![0xfe]),
        other => panic!("unexpected {other:?}"),
    }
}

#[test]
fn apply_outcome_failure_with_invalid_stderr() {
    match apply_outcome("nft", outcome(false, b"fine", &[0x80, 0x80])) {
        Err(ExchangeError::Encoding { bytes, .. }) => assert_eq!(bytes, vec![0x80, 0x80]),
        other => panic!("unexpected {other:?}"),
    }
}

#[test]
fn retrieve_outcome_success_is_stdout() {
    let text = retrieve_outcome("nft", outcome(true, b"{\"nftables\": []}", &[0xff])).unwrap();
    assert_eq!(text, "{\"nftables\": []}");
}

#[test]
fn retrieve_outcome_failure_carries_streams() {
    match retrieve_outcome("nft", outcome(false, b"", b"Operation not permitted\n")) {
        Err(ExchangeError::Failed { hint, stdout, stderr, .. }) => {
            assert_eq!(hint, "getting the current ruleset");
            assert_eq!(hint, RETRIEVE_HINT);
            assert_eq!(stdout, "");
            assert_eq!(stderr, "Operation not permitted\n");
        }
        other => panic!("unexpected {other:?}"),
    }
}

#[test]
fn retrieve_outcome_failure_with_invalid_stderr() {
    match retrieve_outcome("nft", outcome(false, b"x", &[0xc0, 0x80])) {
        Err(ExchangeError::Encoding { bytes, .. }) => assert_eq!(bytes, vec![0xc0, 0x80]),
        other => panic!("unexpected {other:?}"),
    }
}

#[test]
fn retrieve_invalid_stdout_is_encoding_whatever_the_exit() {
    let garbage = vec![b'{', 0xf8, 0x88, 0x80, 0x80, 0x80, b'}'];
    for success in [true, false] {
        let exchange = RetrieveExchange::new(None, None);
        match exchange.complete(Ok(outcome(success, &garbage, b"diagnostic"))) {
            Err(ExchangeError::Encoding { program, bytes }) => {
                assert_eq!(program, "nft");
                assert_eq!(bytes, garbage);
            }
            other => panic!("unexpected {other:?}"),
        }
    }
}

#[test]
fn retrieve_twice_gives_identical_text() {
    let listing = b"{\"nftables\": [{\"table\": {\"family\": \"ip\", \"name\": \"filter\", \"handle\": 3}}]}";
    let first = RetrieveExchange::new(None, None).complete(Ok(outcome(true, listing, b""))).unwrap();
    let second = RetrieveExchange::new(None, None).complete(Ok(outcome(true, listing, b""))).unwrap();
    assert_eq!(first, second);
    assert_eq!(first.as_bytes(), listing);
}

#[test]
fn missing_program_is_execution_for_apply() {
    let mut exchange = ApplyExchange::new(Some("/nonexistent/nft"), None);
    assert_eq!(exchange.program(), "/nonexistent/nft");
    let missing = Error::new(ErrorKind::NotFound, "no such file");
    match exchange.step(ApplyEvent::Spawned(Err(missing))) {
        ApplyAction::Finish(Err(ExchangeError::Execution { program, inner })) => {
            assert_eq!(program, "/nonexistent/nft");
            assert_eq!(inner.kind(), ErrorKind::NotFound);
        }
        _ => panic!("a failed spawn must end the exchange"),
    }
    assert!(!exchange.accepts(&ApplyEvent::Closed(Ok(()))));
}

#[test]
fn missing_program_is_execution_for_retrieve() {
    let exchange = RetrieveExchange::new(Some("/nonexistent/nft"), Some(vec!["-a"]));
    assert_eq!(exchange.args(), &vec!["-j", "list", "ruleset", "-a"]);
    match exchange.complete(Err(Error::new(ErrorKind::NotFound, "no such file"))) {
        Err(ExchangeError::Execution { program, inner }) => {
            assert_eq!(program, "/nonexistent/nft");
            assert_eq!(inner.kind(), ErrorKind::NotFound);
        }
        other => panic!("unexpected {other:?}"),
    }
}

#[test]
fn write_failure_still_closes_input() {
    let mut exchange = ApplyExchange::new(None, None);
    assert!(matches!(exchange.step(ApplyEvent::Spawned(Ok(()))), ApplyAction::WriteInput));
    let broken = Error::new(ErrorKind::BrokenPipe, "broken pipe");
    assert!(matches!(exchange.step(ApplyEvent::Written(Err(broken))), ApplyAction::CloseInput));
    match exchange.step(ApplyEvent::Closed(Ok(()))) {
        ApplyAction::Finish(Err(ExchangeError::Execution { inner, .. })) => {
            assert_eq!(inner.kind(), ErrorKind::BrokenPipe)
        }
        _ => panic!("a failed write must end the exchange once input is closed"),
    }
}

#[test]
fn close_failure_is_execution() {
    let mut exchange = ApplyExchange::new(None, None);
    exchange.step(ApplyEvent::Spawned(Ok(())));
    exchange.step(ApplyEvent::Written(Ok(())));
    let failed = Error::new(ErrorKind::Other, "close failed");
    assert!(matches!(
        exchange.step(ApplyEvent::Closed(Err(failed))),
        ApplyAction::Finish(Err(ExchangeError::Execution { .. }))
    ));
}

#[test]
fn wait_failure_is_execution() {
    let mut exchange = ApplyExchange::new(None, None);
    exchange.step(ApplyEvent::Spawned(Ok(())));
    exchange.step(ApplyEvent::Written(Ok(())));
    exchange.step(ApplyEvent::Closed(Ok(())));
    let failed = Error::new(ErrorKind::Interrupted, "wait failed");
    assert!(matches!(
        exchange.step(ApplyEvent::Completed(Err(failed))),
        ApplyAction::Finish(Err(ExchangeError::Execution { .. }))
    ));
}

#[test]
fn exchange_waits_only_for_its_report() {
    let mut exchange = ApplyExchange::new(None, None);
    assert!(exchange.accepts(&ApplyEvent::Spawned(Ok(()))));
    assert!(!exchange.accepts(&ApplyEvent::Written(Ok(()))));
    exchange.step(ApplyEvent::Spawned(Ok(())));
    assert!(exchange.accepts(&ApplyEvent::Written(Ok(()))));
    assert!(!exchange.accepts(&ApplyEvent::Completed(Ok(outcome(true, b"", b"")))));
}

#[test]
fn unsuccessful_exit_reports_stderr() {
    let mut exchange = ApplyExchange::new(None, None);
    match apply_with(&mut exchange, outcome(false, b"", b"Error: Could not process rule\n")) {
        Err(ExchangeError::Failed { hint, stderr, .. }) => {
            assert_eq!(hint, APPLY_HINT);
            assert!(!stderr.is_empty());
        }
        other => panic!("unexpected {other:?}"),
    }
    let exchange = RetrieveExchange::new(None, None);
    match exchange.complete(Ok(outcome(false, b"", b"Error: Could not list\n"))) {
        Err(ExchangeError::Failed { hint, stderr, .. }) => {
            assert_eq!(hint, RETRIEVE_HINT);
            assert!(!stderr.is_empty());
        }
        other => panic!("unexpected {other:?}"),
    }
}

#[test]
fn apply_then_retrieve_table42() {
    let mut batch = Batch::new();
    batch.add_obj(NfListObject::Table(Table {
        family: NfFamily::INet,
        name: "table42".into(),
        handle: None,
    }));
    let payload = ruleset_payload(&batch.to_nftables()).unwrap();
    assert!(payload.contains("\"table42\""));
    assert!(payload.contains("\"inet\""));

    let mut exchange = ApplyExchange::new(None, None);
    assert_eq!(exchange.args(), &vec!["-j", "-f", "-"]);
    assert!(apply_with(&mut exchange, outcome(true, b"", b"")).is_ok());

    let listing = "{\"nftables\": [{\"metainfo\": {\"version\": \"1.0.9\", \"json_schema_version\": 1}}, \
                   {\"table\": {\"family\": \"inet\", \"name\": \"table42\", \"handle\": 7}}]}";
    let retrieve = RetrieveExchange::new(None, None);
    let text = retrieve.complete(Ok(outcome(true, listing.as_bytes(), b""))).unwrap();
    let ruleset = parse_ruleset(&text).unwrap();
    let found = ruleset.objects.iter().any(|object| {
        matches!(object, NfObject::ListObject(NfListObject::Table(table)) if table.name == "table42")
    });
    assert!(found);
}

#[test]
fn invalid_flag_fails_with_apply_hint() {
    let mut exchange = ApplyExchange::new(None, Some(vec!["--no-such-flag"]));
    assert_eq!(exchange.args(), &vec!["-j", "-f", "-", "--no-such-flag"]);
    let diagnostic = b"nft: unrecognized option '--no-such-flag'\n";
    match apply_with(&mut exchange, outcome(false, b"", diagnostic)) {
        Err(ExchangeError::Failed { program, hint, stdout, stderr }) => {
            assert_eq!(program, "nft");
            assert_eq!(hint, "applying ruleset");
            assert_eq!(stdout, "");
            assert!(!stderr.is_empty());
            assert_eq!(stderr.as_bytes(), diagnostic);
        }
        other => panic!("unexpected {other:?}"),
    }
}

#[test]
fn parse_ruleset_rejects_other_json() {
    assert!(matches!(parse_ruleset("{\"tables\": 1}"), Err(ExchangeError::InvalidJson(_))));
    assert!(matches!(parse_ruleset("not json"), Err(ExchangeError::InvalidJson(_))));
    let empty = parse_ruleset("{\"nftables\": []}").unwrap();
    assert!(empty.objects.is_empty());
}

#[test]
fn map_future_maps_ready_output() {
    let mapped = MapFuture::new((), |n: u32| n * 2 + 1);
    assert_eq!(mapped.map_ready(20), 41);
}
