use xtask::profile::BuildProfile;
use xtask::report::{
    bearer_header, default_report_policy, delay_for_attempt, format_submit_time, report_form,
    report_url, ReportRetry, RetryDecision, Timestamp,
};
use xtask::strutil::{find_char, join_strings, pad2, pad4, path_join, u64_to_string};

fn timestamp() -> Timestamp {
    Timestamp {
        year: 2024,
        month: 1,
        day: 5,
        hour: 9,
        minute: 8,
        second: 7,
        offset_negative: false,
        offset_hours: 3,
        offset_minutes: 0,
    }
}

#[test]
fn submit_time_renders_like_the_wire_format() {
    assert_eq!(format_submit_time(&timestamp()), "2024-01-05 09:08:07+0300");
    let mut ts = timestamp();
    ts.offset_negative = true;
    ts.offset_hours = 5;
    ts.offset_minutes = 30;
    ts.hour = 23;
    assert_eq!(format_submit_time(&ts), "2024-01-05 23:08:07-0530");
}

#[test]
fn report_request_fields_are_exact() {
    assert_eq!(report_url("https://grades.example", "cpp"), "https://grades.example/api/cpp/report");
    let form = report_form("task-01", "student", &timestamp());
    assert_eq!(form.len(), 3);
    assert_eq!(form[0], ("task".to_string(), "task-01".to_string()));
    assert_eq!(form[1], ("username".to_string(), "student".to_string()));
    assert_eq!(
        form[2],
        ("submit_time".to_string(), "2024-01-05 09:08:07+0300".to_string())
    );
    assert_eq!(bearer_header("abc123"), "Bearer abc123");
}

#[test]
fn persistent_failure_makes_exactly_three_attempts() {
    let mut retry = ReportRetry::new(default_report_policy());
    let first = retry.on_attempt(false);
    let second = retry.on_attempt(false);
    let third = retry.on_attempt(false);
    // Two backoffs with strictly increasing delay, then the final error.
    match (first, second) {
        (
            RetryDecision::RetryAfter { delay_secs: d1 },
            RetryDecision::RetryAfter { delay_secs: d2 },
        ) => {
            assert_eq!(d1, 2);
            assert_eq!(d2, 4);
            assert!(d1 < d2);
        },
        other => panic!("expected two retries, got {:?}", other),
    }
    assert_eq!(third, RetryDecision::Done { success: false });
    assert_eq!(retry.attempts, 3);
}

#[test]
fn second_attempt_success_returns_immediately() {
    let mut retry = ReportRetry::new(default_report_policy());
    assert_eq!(retry.on_attempt(false), RetryDecision::RetryAfter { delay_secs: 2 });
    assert_eq!(retry.on_attempt(true), RetryDecision::Done { success: true });
    // No third attempt was made.
    assert_eq!(retry.attempts, 2);
}

#[test]
fn backoff_schedule_doubles() {
    let p = default_report_policy();
    assert_eq!(delay_for_attempt(&p, 1), 2);
    assert_eq!(delay_for_attempt(&p, 2), 4);
    assert_eq!(delay_for_attempt(&p, 3), 8);
}

#[test]
fn profiles_have_fixed_representations() {
    let cases = [
        (BuildProfile::Release, "Release", "build_release", "rel"),
        (BuildProfile::Debug, "Debug", "build_debug", "dbg"),
        (BuildProfile::ASan, "Asan", "build_asan", "asan"),
        (BuildProfile::TSan, "Tsan", "build_tsan", "tsan"),
    ];
    for (p, ty, dir, short) in cases {
        assert_eq!(p.cmake_build_type(), ty);
        assert_eq!(p.build_dir(), dir);
        assert_eq!(p.short(), short);
        let r = p.representations();
        assert_eq!(r.cmake_build_type, ty);
        assert_eq!(r.build_dir, dir);
        assert_eq!(r.short, short);
    }
    assert_eq!(
        BuildProfile::all(),
        vec![BuildProfile::Release, BuildProfile::Debug, BuildProfile::ASan, BuildProfile::TSan]
    );
}

#[test]
fn string_builders_are_exact() {
    assert_eq!(u64_to_string(0), "0");
    assert_eq!(u64_to_string(42), "42");
    assert_eq!(u64_to_string(90210), "90210");
    assert_eq!(pad2(3), "03");
    assert_eq!(pad2(30), "30");
    assert_eq!(pad4(7), "0007");
    assert_eq!(pad4(77), "0077");
    assert_eq!(pad4(777), "0777");
    assert_eq!(pad4(7777), "7777");
    let parts = vec!["a".to_string(), "bb".to_string(), "c".to_string()];
    assert_eq!(join_strings(&parts, "|"), "a|bb|c");
    assert_eq!(join_strings(&vec![], " "), "");
    assert_eq!(find_char("proc:payload", ':'), Some(4));
    assert_eq!(find_char("literal", ':'), None);
    assert_eq!(path_join("/repo", "build_debug"), "/repo/build_debug");
}
