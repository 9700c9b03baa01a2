use arb_transfer::cli::transfer_args;
use arb_transfer::reader::{Query, ReadReport};

fn stub_endpoint(q: Query, failing: Query) -> Result<String, String> {
    if q == failing {
        return Err("rpc error".to_string());
    }
    Ok(match q {
        Query::Name => "Token".to_string(),
        Query::Symbol => "TKN".to_string(),
        Query::Decimals => "18".to_string(),
        Query::TotalSupply => "1000".to_string(),
        Query::BalanceOf => "0".to_string(),
    })
}

#[test]
fn one_failed_read_does_not_stop_the_others() {
    let mut report = ReadReport::new();
    let mut asked = Vec::new();
    while let Some(q) = report.next_query() {
        asked.push(q);
        report.record(stub_endpoint(q, Query::TotalSupply));
    }
    assert_eq!(
        asked,
        vec![Query::Name, Query::Symbol, Query::Decimals, Query::TotalSupply, Query::BalanceOf]
    );
    assert!(report.is_complete());
    assert_eq!(report.len(), 5);
    assert_eq!(report.result(0), &Ok("Token".to_string()));
    assert_eq!(report.result(1), &Ok("TKN".to_string()));
    assert_eq!(report.result(2), &Ok("18".to_string()));
    assert_eq!(report.result(3), &Err("rpc error".to_string()));
    assert_eq!(report.result(4), &Ok("0".to_string()));
}

#[test]
fn first_read_failing_still_runs_all() {
    let mut report = ReadReport::new();
    while let Some(q) = report.next_query() {
        report.record(stub_endpoint(q, Query::Name));
    }
    assert_eq!(report.len(), 5);
    assert!(report.result(0).is_err());
    assert!(report.result(4).is_ok());
}

fn args(n: usize) -> Vec<String> {
    let mut v = vec!["transfer".to_string()];
    for i in 0..n {
        v.push(format!("arg{}", i));
    }
    v
}

#[test]
fn usage_without_both_arguments() {
    assert_eq!(transfer_args(&args(0)), None);
    assert_eq!(transfer_args(&args(1)), None);
    assert_eq!(transfer_args(&Vec::new()), None);
}

#[test]
fn two_or_more_arguments_run_the_transfer() {
    assert_eq!(
        transfer_args(&args(2)),
        Some(("arg0".to_string(), "arg1".to_string()))
    );
    assert_eq!(
        transfer_args(&args(3)),
        Some(("arg0".to_string(), "arg1".to_string()))
    );
}
