use redfish_auth::locator::{
    parse_u32_str, run_locators, Binding, ParamKind, Resolver, ResolvedValue, ResourceLocator,
};

fn params(pairs: &[(&str, &str)]) -> Vec<(String, String)> {
    pairs.iter().map(|(k, v)| (k.to_string(), v.to_string())).collect()
}

fn system_locator() -> ResourceLocator {
    ResourceLocator {
        parameter: "computer_system_id".to_string(),
        kind: ParamKind::Numeric,
        resolver: Resolver::Identity,
    }
}

fn certificate_locator() -> ResourceLocator {
    ResourceLocator {
        parameter: "certificate_id".to_string(),
        kind: ParamKind::Text,
        resolver: Resolver::RequireOuter { parameter: "computer_system_id".to_string() },
    }
}

#[test]
fn nested_locators_bind_outer_then_inner() {
    let locators = vec![system_locator(), certificate_locator()];
    let request = params(&[("computer_system_id", "42"), ("certificate_id", "abc")]);
    let ctx = run_locators(&locators, &request, Vec::new()).expect("both locators must resolve");
    assert_eq!(ctx.len(), 2);
    assert_eq!(ctx[0].parameter, "computer_system_id");
    assert!(matches!(ctx[0].value, ResolvedValue::Number(42)));
    assert_eq!(ctx[1].parameter, "certificate_id");
    match &ctx[1].value {
        ResolvedValue::Text(s) => assert_eq!(s, "abc"),
        _ => panic!("the inner binding must be textual"),
    }
}

#[test]
fn non_numeric_outer_id_fails_with_400_before_the_inner_runs() {
    let locators = vec![system_locator(), certificate_locator()];
    let request = params(&[("computer_system_id", "4x2"), ("certificate_id", "abc")]);
    match run_locators(&locators, &request, Vec::new()) {
        Err(resp) => assert_eq!(resp.status, 400),
        Ok(_) => panic!("a non-numeric id must be rejected"),
    }
}

#[test]
fn missing_parameter_fails_with_400() {
    let locators = vec![system_locator()];
    let request = params(&[("other", "42")]);
    match run_locators(&locators, &request, Vec::new()) {
        Err(resp) => assert_eq!(resp.status, 400),
        Ok(_) => panic!("a missing parameter must be rejected"),
    }
}

#[test]
fn inner_without_its_outer_fails_with_500() {
    let locators = vec![certificate_locator()];
    let request = params(&[("certificate_id", "abc")]);
    match run_locators(&locators, &request, Vec::new()) {
        Err(resp) => assert_eq!(resp.status, 500),
        Ok(_) => panic!("a dependent locator without its outer binding must fail"),
    }
}

#[test]
fn resolver_failure_is_returned_transparently() {
    let locators = vec![ResourceLocator {
        parameter: "computer_system_id".to_string(),
        kind: ParamKind::Numeric,
        resolver: Resolver::Reject { status: 404 },
    }];
    let request = params(&[("computer_system_id", "42")]);
    match run_locators(&locators, &request, Vec::new()) {
        Err(resp) => assert_eq!(resp.status, 404),
        Ok(_) => panic!("a rejecting resolver must fail the request"),
    }
}

#[test]
fn outer_bindings_are_kept_when_passed_in() {
    let locators = vec![certificate_locator()];
    let request = params(&[("certificate_id", "abc")]);
    let outer = vec![Binding {
        parameter: "computer_system_id".to_string(),
        value: ResolvedValue::Number(7),
    }];
    let ctx = run_locators(&locators, &request, outer).expect("outer context must satisfy");
    assert_eq!(ctx.len(), 2);
    assert_eq!(ctx[0].parameter, "computer_system_id");
    assert_eq!(ctx[1].parameter, "certificate_id");
}

#[test]
fn parse_u32_exact_values() {
    assert_eq!(parse_u32_str("0"), Some(0));
    assert_eq!(parse_u32_str("42"), Some(42));
    assert_eq!(parse_u32_str("007"), Some(7));
    assert_eq!(parse_u32_str("4294967295"), Some(u32::MAX));
}

#[test]
fn parse_u32_rejects_bad_input() {
    assert_eq!(parse_u32_str(""), None);
    assert_eq!(parse_u32_str("1a"), None);
    assert_eq!(parse_u32_str("-1"), None);
    assert_eq!(parse_u32_str("4294967296"), None);
    assert_eq!(parse_u32_str("99999999999999999999"), None);
}
