use rcv::batch::aggregate;
use rcv::outcome::{BatchResult, ConversionOutcome, ErrorKind, FailedFile};

fn success(path: &str) -> ConversionOutcome {
    ConversionOutcome::Success { output_path: path.to_string() }
}

fn failure(path: &str, kind: ErrorKind) -> ConversionOutcome {
    ConversionOutcome::Failure { source_path: path.to_string(), kind }
}

#[test]
fn test_aggregate_mixed() {
    let outcomes = vec![
        success("out/a.webp"),
        failure("in/broken.jpg", ErrorKind::Decode),
        success("out/b.webp"),
    ];
    let r = aggregate(&outcomes);
    assert_eq!(r.total_scanned, 3);
    assert_eq!(r.succeeded, 2);
    assert_eq!(r.failed.len(), 1);
    assert_eq!(r.failed[0].source_path, "in/broken.jpg");
    assert_eq!(r.failed[0].kind, ErrorKind::Decode);
}

#[test]
fn test_aggregate_empty() {
    let outcomes: Vec<ConversionOutcome> = vec![];
    let r = aggregate(&outcomes);
    let expected = BatchResult { total_scanned: 0, succeeded: 0, failed: vec![] };
    assert_eq!(r, expected);
}

#[test]
fn test_aggregate_isolation_counts() {
    let outcomes = vec![
        failure("in/a.jpg", ErrorKind::Decode),
        success("out/b.webp"),
        failure("in/c.jpg", ErrorKind::Encode),
        failure("in/d.jpg", ErrorKind::Write),
        success("out/e.webp"),
    ];
    let r = aggregate(&outcomes);
    assert_eq!(r.total_scanned, 5);
    assert_eq!(r.succeeded, 5 - 3);
    let failed_paths: Vec<&str> = r.failed.iter().map(|f| f.source_path.as_str()).collect();
    assert_eq!(failed_paths, vec!["in/a.jpg", "in/c.jpg", "in/d.jpg"]);
    assert_eq!(r.failed[0].kind, ErrorKind::Decode);
    assert_eq!(r.failed[1].kind, ErrorKind::Encode);
    assert_eq!(r.failed[2].kind, ErrorKind::Write);
}

#[test]
fn test_aggregate_order_independent_content() {
    let sequential = vec![
        success("out/a.webp"),
        failure("in/b.jpg", ErrorKind::Decode),
        success("out/c.webp"),
        failure("in/d.jpg", ErrorKind::Write),
    ];
    let parallel = vec![
        failure("in/d.jpg", ErrorKind::Write),
        success("out/c.webp"),
        success("out/a.webp"),
        failure("in/b.jpg", ErrorKind::Decode),
    ];
    let rs = aggregate(&sequential);
    let rp = aggregate(&parallel);
    assert_eq!(rs.total_scanned, rp.total_scanned);
    assert_eq!(rs.succeeded, rp.succeeded);
    assert_eq!(rs.failed.len(), rp.failed.len());
    let mut seq_failed: Vec<(String, ErrorKind)> =
        rs.failed.iter().map(|f| (f.source_path.clone(), f.kind)).collect();
    let mut par_failed: Vec<(String, ErrorKind)> =
        rp.failed.iter().map(|f| (f.source_path.clone(), f.kind)).collect();
    seq_failed.sort();
    par_failed.sort();
    assert_eq!(seq_failed, par_failed);
}

#[test]
fn test_failed_file_fields() {
    let outcomes = vec![failure("in/x.jpg", ErrorKind::Encode)];
    let r = aggregate(&outcomes);
    let expected = FailedFile { source_path: "in/x.jpg".to_string(), kind: ErrorKind::Encode };
    assert_eq!(r.failed[0], expected);
}
