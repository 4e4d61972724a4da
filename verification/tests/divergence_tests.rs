use project_ctl::divergence::{
    classify, count_terminators, Branch, DivergenceReport, DivergenceTier, Inspector, Query,
    QueryOutput, Step, PROGRAM, TERMINATOR,
};

fn wrote(stdout: &str, stderr: &str) -> QueryOutput {
    QueryOutput { stdout: stdout.as_bytes().to_vec(), stderr: stderr.as_bytes().to_vec() }
}

/// Runs an inspection to its end against fixed answers, and says which
/// queries were asked.
fn inspect(primary: &QueryOutput, secondary: &QueryOutput, status: &QueryOutput) -> (DivergenceReport, Vec<Query>) {
    let mut asked = Vec::new();
    let mut step = Inspector::begin();
    loop {
        match step {
            Step::Done(report) => return (report, asked),
            Step::Ask(inspector, query) => {
                asked.push(query);
                let answer = match query {
                    Query::UpstreamDiff(Branch::Primary) => primary.clone(),
                    Query::UpstreamDiff(Branch::Secondary) => secondary.clone(),
                    Query::WorkingTreeStatus => status.clone(),
                };
                assert!(asked.len() <= 3);
                step = inspector.advance(answer);
            }
        }
    }
}

#[test]
fn counts_each_terminator_once() {
    assert_eq!(TERMINATOR, b'\n');
    assert_eq!(count_terminators(b"a\nb\n\n"), 3);
    assert_eq!(count_terminators(b""), 0);
    assert_eq!(count_terminators(b"no end"), 0);
    assert_eq!(count_terminators(b"\n"), 1);
    assert_eq!(count_terminators(b"\r\n\r\n"), 2);
    assert_eq!(count_terminators(&[0x0A, 0xFF, 0x0A, 0x00]), 2);
}

#[test]
fn three_upstream_records_and_two_status_records_diverge_by_five() {
    let upstream = wrote("1\t0\ta.rs\n2\t2\tb.rs\n0\t9\tc.rs\n", "");
    let status = wrote(" M a.rs\n?? new.rs\n", "");
    assert_eq!(
        classify(&upstream, &status),
        DivergenceReport { tier: DivergenceTier::Diverged(5), diagnostic: vec![] }
    );
}

#[test]
fn no_records_at_all_is_clean() {
    assert_eq!(
        classify(&wrote("", ""), &wrote("", "")),
        DivergenceReport { tier: DivergenceTier::Clean, diagnostic: vec![] }
    );
    assert_eq!(classify(&wrote("no terminator", ""), &wrote("x", "")).tier, DivergenceTier::Clean);
}

#[test]
fn upstream_error_is_a_failure_whatever_the_status() {
    let failed = wrote("1\t1\ta\n", "fatal: bad revision\n");
    for status in [wrote("", ""), wrote(" M a\n", ""), wrote("", "warning\n")] {
        let report = classify(&failed, &status);
        assert_eq!(report.tier, DivergenceTier::QueryFailed);
        assert_eq!(report.diagnostic, b"fatal: bad revision\n".to_vec());
    }
}

#[test]
fn status_errors_do_not_fail_the_inspection() {
    let report = classify(&wrote("", ""), &wrote(" M a\n", "warning: something\n"));
    assert_eq!(report.tier, DivergenceTier::Diverged(1));
    assert!(report.diagnostic.is_empty());
}

#[test]
fn diverged_carries_the_sum_of_both_counts() {
    for ahead in 0..4usize {
        for dirty in 0..4usize {
            let upstream = wrote(&"x\n".repeat(ahead), "");
            let status = wrote(&"y\n".repeat(dirty), "");
            let tier = classify(&upstream, &status).tier;
            if ahead + dirty == 0 {
                assert_eq!(tier, DivergenceTier::Clean);
            } else {
                assert_eq!(tier, DivergenceTier::Diverged((ahead + dirty) as u128));
            }
        }
    }
}

#[test]
fn inspection_with_a_primary_branch_asks_two_queries() {
    let (report, asked) = inspect(&wrote("a\nb\nc\n", ""), &wrote("", "unused"), &wrote("d\ne\n", ""));
    assert_eq!(asked, vec![Query::UpstreamDiff(Branch::Primary), Query::WorkingTreeStatus]);
    assert_eq!(report.tier, DivergenceTier::Diverged(5));
}

#[test]
fn inspection_falls_back_to_the_secondary_branch() {
    let (report, asked) =
        inspect(&wrote("ignored\n", "fatal: no main\n"), &wrote("a\n", ""), &wrote("", ""));
    assert_eq!(
        asked,
        vec![
            Query::UpstreamDiff(Branch::Primary),
            Query::UpstreamDiff(Branch::Secondary),
            Query::WorkingTreeStatus
        ]
    );
    assert_eq!(report, DivergenceReport { tier: DivergenceTier::Diverged(1), diagnostic: vec![] });
}

#[test]
fn inspection_fails_when_neither_branch_resolves() {
    let (report, asked) = inspect(
        &wrote("", "fatal: no main\n"),
        &wrote("", "fatal: no master\n"),
        &wrote(" M a\n", ""),
    );
    assert_eq!(asked.len(), 3);
    assert_eq!(
        report,
        DivergenceReport {
            tier: DivergenceTier::QueryFailed,
            diagnostic: b"fatal: no master\n".to_vec()
        }
    );
}

#[test]
fn inspection_of_a_clean_repository_is_clean() {
    let (report, _) = inspect(&wrote("", ""), &wrote("", ""), &wrote("", ""));
    assert_eq!(report.tier, DivergenceTier::Clean);
}

#[test]
fn inspecting_twice_gives_the_same_report() {
    let primary = wrote("", "fatal\n");
    let secondary = wrote("a\nb\n", "");
    let status = wrote("c\n", "");
    let first = inspect(&primary, &secondary, &status);
    let second = inspect(&primary, &secondary, &status);
    assert_eq!(first, second);
    assert_eq!(first.0.tier, DivergenceTier::Diverged(3));
}

#[test]
fn first_step_asks_for_the_primary_branch() {
    assert_eq!(
        Inspector::begin(),
        Step::Ask(Inspector::AwaitingUpstream(Branch::Primary), Query::UpstreamDiff(Branch::Primary))
    );
}

#[test]
fn each_state_advances_as_stated() {
    let good = wrote("a\n", "");
    let bad = wrote("", "e");
    assert_eq!(
        Inspector::AwaitingUpstream(Branch::Primary).advance(bad.clone()),
        Step::Ask(Inspector::AwaitingUpstream(Branch::Secondary), Query::UpstreamDiff(Branch::Secondary))
    );
    assert_eq!(
        Inspector::AwaitingUpstream(Branch::Primary).advance(good.clone()),
        Step::Ask(Inspector::AwaitingStatus(good.clone()), Query::WorkingTreeStatus)
    );
    assert_eq!(
        Inspector::AwaitingUpstream(Branch::Secondary).advance(bad.clone()),
        Step::Ask(Inspector::AwaitingStatus(bad.clone()), Query::WorkingTreeStatus)
    );
    assert_eq!(
        Inspector::AwaitingStatus(good.clone()).advance(good.clone()),
        Step::Done(DivergenceReport { tier: DivergenceTier::Diverged(2), diagnostic: vec![] })
    );
}

#[test]
fn queries_have_their_arguments() {
    assert_eq!(PROGRAM, "git");
    assert_eq!(
        Query::UpstreamDiff(Branch::Primary).arguments(),
        vec!["diff", "--numstat", "--cached", "origin/main"]
    );
    assert_eq!(
        Query::UpstreamDiff(Branch::Secondary).arguments(),
        vec!["diff", "--numstat", "--cached", "origin/master"]
    );
    assert_eq!(Query::WorkingTreeStatus.arguments(), vec!["status", "-s"]);
    assert_eq!(Branch::Primary.reference(), "origin/main");
    assert_eq!(Branch::Secondary.reference(), "origin/master");
}

#[test]
fn abandoned_inspection_fails_in_every_state() {
    let failed = |reason: &str| {
        Step::Done(DivergenceReport {
            tier: DivergenceTier::QueryFailed,
            diagnostic: reason.as_bytes().to_vec(),
        })
    };
    assert_eq!(
        Inspector::AwaitingUpstream(Branch::Primary).abandon(b"no such program".to_vec()),
        failed("no such program")
    );
    assert_eq!(Inspector::AwaitingUpstream(Branch::Secondary).abandon(vec![]), failed(""));
    assert_eq!(
        Inspector::AwaitingStatus(wrote("a\nb\n", "")).abandon(b"gone".to_vec()),
        failed("gone")
    );
}

#[test]
fn inspection_whose_first_query_cannot_run_ends_at_once() {
    match Inspector::begin() {
        Step::Ask(inspector, query) => {
            assert_eq!(query, Query::UpstreamDiff(Branch::Primary));
            match inspector.abandon(b"cannot enter".to_vec()) {
                Step::Done(report) => assert_eq!(report.tier, DivergenceTier::QueryFailed),
                Step::Ask(..) => panic!("an abandoned inspection asks nothing more"),
            }
        }
        Step::Done(_) => panic!("an inspection starts with a query"),
    }
}
