use sysreport::flagged::flag_preserving_report;
use sysreport::flagged::Leaf;
use sysreport::outcome::RunError;
use sysreport::outcome::RunStringResult;
use sysreport::policy::all_ok_formatted_or_first_error;
use sysreport::policy::first_error_or_payloads;
use sysreport::policy::first_error_or_report;

fn ok(text: &str) -> RunStringResult {
    Ok(text.to_string())
}

fn failed(program: &str, error: &str) -> RunStringResult {
    Err(RunError::new(program.to_string(), error.to_string()))
}

fn lines(found: Vec<String>) -> String {
    found.join("\n")
}

#[test]
fn formats_what_the_filter_gathered() {
    let (a, b) = (ok("A"), ok("B"));
    let report = all_ok_formatted_or_first_error(|| Ok((a?, b?)), |(a, b)| a + "+" + &b);
    assert_eq!(report, Ok("A+B".to_string()));
}

#[test]
fn renders_the_error_the_filter_stopped_at() {
    let (a, b) = (ok("A"), failed("/bin/b", "boom"));
    let report = all_ok_formatted_or_first_error(|| Ok((a?, b?)), |(a, b)| a + "+" + &b);
    assert_eq!(report, Err("Expected to run /bin/b, but failed abruptly: boom.".to_string()));
}

#[test]
fn echo_then_missing_binary_reports_the_missing_binary() {
    let echo = ok("A");
    let missing = failed("/no/such/binary", "No such file or directory (os error 2)");
    let report = all_ok_formatted_or_first_error(|| Ok((echo?, missing?)), |(a, b)| a + "\n" + &b);
    assert_eq!(
        report,
        Err(
            "Expected to run /no/such/binary, but failed abruptly: No such file or directory (os error 2)."
                .to_string()
        )
    );
    assert_ne!(report, Ok("A".to_string()));
    assert_ne!(report, Err("A".to_string()));
}

#[test]
fn echo_then_missing_binary_over_a_list() {
    let outcomes =
        vec![ok("A"), failed("/no/such/binary", "No such file or directory (os error 2)")];
    let report = first_error_or_report(outcomes, lines);
    assert_eq!(
        report,
        Err(
            "Expected to run /no/such/binary, but failed abruptly: No such file or directory (os error 2)."
                .to_string()
        )
    );
}

#[test]
fn payloads_come_in_declared_order() {
    let found = first_error_or_payloads(vec![ok("1"), ok("2"), ok("3")]).unwrap();
    assert_eq!(found, vec!["1".to_string(), "2".to_string(), "3".to_string()]);
}

#[test]
fn no_outcomes_give_no_payloads() {
    let found = first_error_or_payloads(Vec::new()).unwrap();
    assert!(found.is_empty());
}

#[test]
fn one_success_is_formatted() {
    assert_eq!(first_error_or_report(vec![ok("only")], lines), Ok("only".to_string()));
}

#[test]
fn one_failure_is_reported() {
    assert_eq!(
        first_error_or_report(vec![failed("p", "e")], lines),
        Err("Expected to run p, but failed abruptly: e.".to_string())
    );
}

#[test]
fn all_successes_give_the_formatter_of_the_payloads() {
    for n in 1..6usize {
        let outcomes: Vec<RunStringResult> = (0..n).map(|i| ok(&format!("p{}", i))).collect();
        let expected: Vec<String> = (0..n).map(|i| format!("p{}", i)).collect();
        assert_eq!(first_error_or_report(outcomes, lines), Ok(lines(expected)));
    }
}

#[test]
fn the_first_failure_in_declared_order_wins() {
    let n = 5usize;
    for k in 0..n {
        for later in 0..2 {
            let outcomes: Vec<RunStringResult> = (0..n)
                .map(|i| {
                    if i == k || (i > k && later == 1) {
                        failed(&format!("prog{}", i), &format!("error{}", i))
                    } else {
                        ok(&format!("p{}", i))
                    }
                })
                .collect();
            let expected =
                format!("Expected to run prog{}, but failed abruptly: error{}.", k, k);
            assert_eq!(first_error_or_report(outcomes, lines), Err(expected));
        }
    }
}

#[test]
fn first_error_is_handed_out_as_it_was() {
    let error = first_error_or_payloads(vec![ok("a"), failed("x", "1"), failed("y", "2")])
        .unwrap_err();
    assert_eq!(error.program(), "x");
    assert_eq!(error.error(), "1");
}

fn leaf(label: &str, is_ok: bool, value: &str) -> Leaf {
    Leaf::new(label, (is_ok, value.to_string()))
}

#[test]
fn leaf_block_states_label_status_and_payload() {
    assert_eq!(leaf("ls /", true, "bin\netc").render(), "ls / : OK\nbin\netc");
    assert_eq!(leaf("ls /x", false, "no such dir").render(), "ls /x : FAILED\nno such dir");
}

#[test]
fn flag_preserving_report_of_nothing_is_an_empty_success() {
    assert_eq!(flag_preserving_report(&Vec::new()), Ok(String::new()));
}

#[test]
fn flag_preserving_report_of_one_leaf() {
    assert_eq!(
        flag_preserving_report(&vec![leaf("a", true, "1")]),
        Ok("a : OK\n1".to_string())
    );
    assert_eq!(
        flag_preserving_report(&vec![leaf("a", false, "1")]),
        Err("a : FAILED\n1".to_string())
    );
}

#[test]
fn flag_preserving_report_lists_every_leaf() {
    let leaves = vec![leaf("a", true, "1"), leaf("b", false, "2"), leaf("c", true, "3")];
    assert_eq!(
        flag_preserving_report(&leaves),
        Err("a : OK\n1\n\nb : FAILED\n2\n\nc : OK\n3".to_string())
    );
    let leaves = vec![leaf("a", true, "1"), leaf("b", true, "2")];
    assert_eq!(flag_preserving_report(&leaves), Ok("a : OK\n1\n\nb : OK\n2".to_string()));
}

#[test]
fn flag_preserving_report_succeeds_only_if_all_leaves_did() {
    for bits in 0..8u8 {
        let leaves: Vec<Leaf> =
            (0..3).map(|i| leaf("op", bits & (1 << i) != 0, "v")).collect();
        assert_eq!(flag_preserving_report(&leaves).is_ok(), bits == 7);
    }
}
