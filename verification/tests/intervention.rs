use waf_gate::intervention::{check_for_intervention, process_logging, Intervention};
use waf_gate::probe::{judge_probe, Probe, ProbeError};
use waf_gate::rules::{
    rule_sources, Loading, RuleSource, Setup, BASE_RULES, MARKER_RULES, REPORTING_RULES,
};

fn report(status: i32, disruptive: bool) -> Option<Intervention> {
    Some(Intervention {
        status,
        log: Some("message".to_owned()),
        disruptive,
    })
}

#[test]
fn nothing_reported_asks_for_nothing() {
    let ruling = check_for_intervention(None);
    assert_eq!(ruling.log, None);
    assert_eq!(ruling.status, None);
    assert_eq!(process_logging(None), None);
}

#[test]
fn a_disruptive_report_refuses_with_its_status() {
    for status in [100, 200, 302, 401, 403, 999] {
        let ruling = check_for_intervention(report(status, true));
        assert_eq!(ruling.status, Some(status as u16));
        assert_eq!(ruling.log, Some("message".to_owned()));
    }
}

#[test]
fn a_report_that_is_not_disruptive_is_only_logged() {
    let ruling = check_for_intervention(report(403, false));
    assert_eq!(ruling.status, None);
    assert_eq!(ruling.log, Some("message".to_owned()));
}

#[test]
fn a_number_that_is_no_status_refuses_nothing() {
    for status in [i32::MIN, -1, 0, 99, 1000, 65535, 65536, i32::MAX] {
        let ruling = check_for_intervention(report(status, true));
        assert_eq!(ruling.status, None);
        assert_eq!(ruling.log, Some("message".to_owned()));
    }
}

#[test]
fn the_status_counts_modulo_two_to_the_sixteen() {
    assert_eq!(
        check_for_intervention(report(65536 + 403, true)).status,
        Some(403)
    );
    assert_eq!(
        check_for_intervention(report(-65136, true)).status,
        Some(400)
    );
}

#[test]
fn a_report_without_message_logs_nothing() {
    let silent = Some(Intervention {
        status: 403,
        log: None,
        disruptive: true,
    });
    let ruling = check_for_intervention(silent);
    assert_eq!(ruling.log, None);
    assert_eq!(ruling.status, Some(403));
}

#[test]
fn the_logging_phase_only_logs() {
    assert_eq!(
        process_logging(report(403, true)),
        Some("message".to_owned())
    );
}

#[test]
fn built_in_rules_come_before_the_files() {
    let sources = rule_sources(vec!["b.conf".to_owned(), "a.conf".to_owned()]);
    assert_eq!(sources.len(), 5);
    assert!(matches!(sources[0], RuleSource::Plain(text) if text == BASE_RULES));
    assert!(matches!(sources[1], RuleSource::Plain(text) if text == MARKER_RULES));
    assert!(matches!(sources[2], RuleSource::Plain(text) if text == REPORTING_RULES));
    assert!(matches!(&sources[3], RuleSource::File(path) if path == "b.conf"));
    assert!(matches!(&sources[4], RuleSource::File(path) if path == "a.conf"));
    assert_eq!(rule_sources(Vec::new()).len(), 3);
}

#[test]
fn built_in_rules_hold_the_known_settings() {
    assert!(BASE_RULES.starts_with("SecAction \"id:900005,\\\n"));
    assert!(BASE_RULES.ends_with("setvar:tx.combined_file_sizes=65535"));
    assert_eq!(BASE_RULES.len(), 454);
    assert!(MARKER_RULES.contains("SecRule REQUEST_HEADERS:X-CRS-Test \"@rx ^.*$\" \\\n"));
    assert!(MARKER_RULES.contains("SecResponseBodyMimeType text/plain\n"));
    assert_eq!(MARKER_RULES.len(), 1403);
    assert!(REPORTING_RULES.contains("setvar:tx.reporting_level=5\"\n"));
    assert!(REPORTING_RULES.contains("ver:'OWASP_CRS/4.21.0'\"\n"));
    assert_eq!(REPORTING_RULES.len(), 1412);
}

#[test]
fn set_up_loads_every_source_in_order() {
    let mut setup = Setup::new(vec!["b.conf".to_owned(), "a.conf".to_owned()]);
    for expected in [BASE_RULES, MARKER_RULES, REPORTING_RULES] {
        assert!(matches!(
            setup.next(),
            Loading::Load(RuleSource::Plain(text)) if *text == expected
        ));
        setup = setup.record(true);
    }
    for expected in ["b.conf", "a.conf"] {
        assert!(matches!(
            setup.next(),
            Loading::Load(RuleSource::File(path)) if path == expected
        ));
        setup = setup.record(true);
    }
    assert!(matches!(setup.next(), Loading::Ready));
    setup = setup.record(false);
    assert!(matches!(setup.next(), Loading::Ready));
}

#[test]
fn the_first_failed_load_ends_the_set_up() {
    for good in 0..5 {
        let mut setup = Setup::new(vec!["b.conf".to_owned(), "a.conf".to_owned()]);
        for _ in 0..good {
            setup = setup.record(true);
        }
        assert!(matches!(setup.next(), Loading::Load(_)));
        setup = setup.record(false);
        assert!(matches!(setup.next(), Loading::GiveUp));
        setup = setup.record(true);
        assert!(matches!(setup.next(), Loading::GiveUp));
    }
}

#[test]
fn a_probe_asks_for_the_admin_page() {
    let mut probe = Probe::Building;
    let mut asked = Vec::new();
    for _ in 0..3 {
        asked.push(format!("{:?}", probe.action()));
        probe = probe.record(true);
    }
    asked.push(format!("{:?}", probe.action()));
    probe = probe.judge(report(401, true));
    asked.push(format!("{:?}", probe.action()));
    assert_eq!(
        asked,
        vec![
            "Build",
            "Call(ProcessUri { uri: \"http://example.com/admin\", method: \"GET\", version: \
             \"1.1\" })",
            "Call(ProcessRequestHeaders)",
            "PollIntervention",
            "Finish(Ok(()))",
        ]
    );
}

#[test]
fn a_probe_fails_at_the_first_thing_that_goes_wrong() {
    let errors = [
        ProbeError::Transaction,
        ProbeError::Uri,
        ProbeError::RequestHeaders,
    ];
    for good in 0..3 {
        let mut probe = Probe::Building;
        for step in 0..3 {
            probe = probe.record(step != good);
        }
        probe = probe.judge(report(401, true));
        assert_eq!(probe, Probe::Failed(errors[good]));
    }
}

#[test]
fn a_probe_judges_only_what_it_asked_for() {
    assert_eq!(Probe::Building.judge(report(401, true)), Probe::Building);
    assert_eq!(Probe::Asking.record(false), Probe::Asking);
    assert_eq!(
        Probe::Asking.judge(None),
        Probe::Failed(ProbeError::NoIntervention)
    );
    assert_eq!(
        Probe::Asking.judge(report(403, true)),
        Probe::Failed(ProbeError::UnexpectedStatus(403))
    );
    assert_eq!(Probe::Asking.judge(report(401, false)), Probe::Passed);
}

#[test]
fn the_probe_has_to_be_refused() {
    assert_eq!(judge_probe(report(401, true)), Ok(()));
    assert_eq!(judge_probe(report(401, false)), Ok(()));
    assert_eq!(judge_probe(None), Err(ProbeError::NoIntervention));
    assert_eq!(
        judge_probe(report(403, true)),
        Err(ProbeError::UnexpectedStatus(403))
    );
}
