use mcpg_operator::api::conditions::Condition;
use mcpg_operator::fleet_agent::{
    delete_failed, next_backoff, object_name, observe, pinned_namespace, read_token,
    split_cpu_quantity, split_memory_quantity, CellObservation, ContainerRequest, NodeFacts,
    PodFacts, TokenError, TokenFile,
};

fn parse_cpu_millicores(q: &str) -> i64 {
    let (number, whole) = split_cpu_quantity(q);
    if whole {
        number.parse::<f64>().map(|c| (c * 1000.0) as i64).unwrap_or(0)
    } else {
        number.parse::<f64>().map(|m| m as i64).unwrap_or(0)
    }
}

fn parse_memory_bytes(q: &str) -> i64 {
    let (number, unit) = split_memory_quantity(q);
    number.parse::<f64>().map(|v| (v * unit as f64) as i64).unwrap_or(0)
}

#[test]
fn cpu_quantities_parse_to_millicores() {
    assert_eq!(parse_cpu_millicores("500m"), 500);
    assert_eq!(parse_cpu_millicores("2"), 2000);
    assert_eq!(parse_cpu_millicores("0.5"), 500);
    assert_eq!(parse_cpu_millicores("garbage"), 0);
}

#[test]
fn memory_binary_suffixes_win_over_decimal_ones() {
    assert_eq!(parse_memory_bytes("512Mi"), 512 * (1 << 20));
    assert_eq!(parse_memory_bytes("1M"), 1_000_000);
    assert_ne!(parse_memory_bytes("512Mi"), parse_memory_bytes("512M"));
    assert_eq!(parse_memory_bytes("nope"), 0);
}

#[test]
fn quantities_split_into_number_and_unit() {
    assert_eq!(split_cpu_quantity(" 250m "), ("250".to_owned(), false));
    assert_eq!(split_memory_quantity("3Gi"), ("3".to_owned(), 1 << 30));
    assert_eq!(split_memory_quantity("7k"), ("7".to_owned(), 1000));
    assert_eq!(split_memory_quantity("12345"), ("12345".to_owned(), 1));
}

fn token_file(path: &str, content: Option<&str>) -> TokenFile {
    TokenFile {
        path: path.to_owned(),
        content: content.map(str::to_owned),
    }
}

#[test]
fn a_token_file_is_preferred_and_trimmed() {
    let file = token_file("/run/token", Some("  CELL-abc\n"));
    assert_eq!(
        read_token(Some("CELL-inline"), Some(&file)).unwrap(),
        "CELL-abc",
        "the mounted Secret must win over the pod spec"
    );
}

#[test]
fn an_empty_or_missing_token_is_a_hard_error() {
    assert!(matches!(read_token(None, None), Err(TokenError::Missing)));
    assert!(matches!(
        read_token(Some("   "), None),
        Err(TokenError::Missing)
    ));
    let empty = token_file("/run/empty", Some("\n"));
    assert!(
        matches!(read_token(None, Some(&empty)), Err(TokenError::EmptyFile { path }) if path == "/run/empty")
    );
    let absent = token_file("/run/absent", None);
    assert!(
        matches!(read_token(None, Some(&absent)), Err(TokenError::Unreadable { path }) if path == "/run/absent")
    );
}

#[test]
fn an_inline_token_still_works() {
    assert_eq!(read_token(Some("CELL-abc"), None).unwrap(), "CELL-abc");
}

#[test]
fn reconnects_slow_down_and_start_over() {
    assert_eq!(next_backoff(2, false), 4);
    assert_eq!(next_backoff(32, false), 60);
    assert_eq!(next_backoff(60, false), 60);
    assert_eq!(next_backoff(60, true), 2);
}

#[test]
fn assigned_objects_are_pinned_and_named() {
    assert_eq!(pinned_namespace(true, "cell").as_deref(), Some("cell"));
    assert_eq!(pinned_namespace(false, "cell"), None);
    assert_eq!(object_name(Some("gw"), 3).unwrap(), "gw");
    assert_eq!(
        object_name(None, 3).unwrap_err(),
        "object 3 has no metadata.name"
    );
    assert!(!delete_failed(Some(404)));
    assert!(delete_failed(Some(403)));
}

fn node(ready: &str, unschedulable: Option<bool>, cpu: i64) -> NodeFacts {
    NodeFacts {
        unschedulable,
        conditions: vec![Condition::new("Ready", ready, "", "", None)],
        cpu_millicores: Some(cpu),
        memory_bytes: Some(cpu * 10),
    }
}

fn pod(phase: Option<&str>, cpu: Option<i64>) -> PodFacts {
    PodFacts {
        phase: phase.map(str::to_owned),
        containers: vec![ContainerRequest { cpu_millicores: cpu, memory_bytes: Some(7) }],
    }
}

#[test]
fn only_usable_nodes_and_live_pods_count() {
    let nodes = vec![
        node("True", None, 4000),
        node("False", None, 8000),
        node("True", Some(true), 16000),
        node("True", Some(false), 1000),
    ];
    let pods = vec![
        pod(Some("Running"), Some(250)),
        pod(Some("Succeeded"), Some(500)),
        pod(Some("Failed"), Some(500)),
        pod(None, None),
    ];
    assert_eq!(
        observe(&nodes, &pods, Some(3)),
        Some(CellObservation {
            allocatable_cpu_m: 5000,
            allocatable_mem_bytes: 50000,
            requested_cpu_m: 250,
            requested_mem_bytes: 14,
            gateway_count: 3,
        })
    );
}

#[test]
fn totals_that_do_not_fit_are_not_reported() {
    let nodes = vec![node("True", None, i64::MAX / 10), node("True", None, i64::MAX / 10)];
    assert_eq!(observe(&nodes, &Vec::new(), None), None);
}
