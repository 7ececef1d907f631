use polymonitor::monitor::{mode_of, status_line, targets, ConfigError};
use polymonitor::normalize::{
    normalize_missing_scheme_case, normalize_with_verdict, parse_url, ParseVerdict,
};
use polymonitor::probe::{outcome_of_reply, status_of_reply, ProbeOutcome, ProbeStatus};
use polymonitor::render::{render, render_compact, render_diagnostics, render_verbose, RenderMode};
use polymonitor::vocab::make_value_map;

fn up(url: &str) -> ProbeOutcome {
    ProbeOutcome { url: url.to_string(), status: ProbeStatus::Up }
}

fn down(url: &str, why: &str) -> ProbeOutcome {
    ProbeOutcome { url: url.to_string(), status: ProbeStatus::Down(why.to_string()) }
}

#[test]
fn plain_vocabulary() {
    let v = make_value_map(false);
    assert_eq!(v.up, "Up");
    assert_eq!(v.down, "Down");
}

#[test]
fn symbolic_vocabulary() {
    let v = make_value_map(true);
    assert_eq!(v.up, "\u{f062}");
    assert_eq!(v.down, "\u{f98d}");
}

#[test]
fn bare_host_gets_https() {
    assert_eq!(parse_url(&"example.com".to_string()), "https://example.com");
}

#[test]
fn url_with_scheme_is_unchanged() {
    assert_eq!(parse_url(&"https://example.com".to_string()), "https://example.com");
    assert_eq!(parse_url(&"http://example.com/x".to_string()), "http://example.com/x");
}

#[test]
fn normalizing_twice_changes_nothing() {
    for raw in ["example.com", "https://example.com", "good.test/path"] {
        let once = parse_url(&raw.to_string());
        assert_eq!(parse_url(&once), once);
    }
}

#[test]
fn bad_ipv6_literal_gets_https() {
    assert_eq!(parse_url(&"http://[:::1]".to_string()), "https://http://[:::1]");
}

#[test]
fn other_parse_failure_passes_through() {
    assert_eq!(parse_url(&"http://".to_string()), "http://");
    assert_eq!(parse_url(&"https://exa mple.com".to_string()), "https://exa mple.com");
}

#[test]
fn verdicts_decide_the_prefix() {
    assert_eq!(normalize_with_verdict("a.com", ParseVerdict::RelativeWithoutBase), "https://a.com");
    assert_eq!(normalize_with_verdict("::1", ParseVerdict::InvalidIpv6), "https://::1");
    assert_eq!(normalize_with_verdict("a.com", ParseVerdict::Parsed), "a.com");
    assert_eq!(normalize_with_verdict("a b", ParseVerdict::OtherError), "a b");
    assert_eq!(normalize_missing_scheme_case("x"), "https://x");
}

#[test]
fn success_status_is_up() {
    assert!(matches!(status_of_reply(200, "OK"), ProbeStatus::Up));
    assert!(matches!(status_of_reply(301, "Moved Permanently"), ProbeStatus::Up));
    assert!(matches!(status_of_reply(399, "X"), ProbeStatus::Up));
    assert!(matches!(status_of_reply(600, "X"), ProbeStatus::Up));
}

#[test]
fn error_status_is_down_with_reason() {
    match status_of_reply(404, "Not Found") {
        ProbeStatus::Down(d) => assert_eq!(d, "404 Not Found"),
        ProbeStatus::Up => panic!("404 must be down"),
    }
    match status_of_reply(599, "Edge") {
        ProbeStatus::Down(d) => assert_eq!(d, "599 Edge"),
        ProbeStatus::Up => panic!("599 must be down"),
    }
    match status_of_reply(400, "Dns Failed") {
        ProbeStatus::Down(d) => assert_eq!(d, "400 Dns Failed"),
        ProbeStatus::Up => panic!("400 must be down"),
    }
}

#[test]
fn verbose_keeps_input_order() {
    let os = vec![up("a.com"), down("b.com", "500 Err"), up("c.com")];
    let v = make_value_map(false);
    assert_eq!(render_verbose(&os, &v), "a.com: Up, b.com: Down, c.com: Up");
    assert_eq!(render(&os, &v, RenderMode::Verbose), "a.com: Up, b.com: Down, c.com: Up");
}

#[test]
fn compact_counts_up_and_lists_down() {
    let os = vec![
        up("a.com"),
        down("b.com", "500 Err"),
        up("c.com"),
        down("d.com", "404 Not Found"),
        up("e.com"),
    ];
    let v = make_value_map(false);
    assert_eq!(render_compact(&os, &v), "Up: 3, Down: b.com, d.com");
    assert_eq!(render(&os, &v, RenderMode::Compact), "Up: 3, Down: b.com, d.com");
}

#[test]
fn symbolic_changes_only_tokens() {
    let os = vec![
        up("a.com"),
        down("b.com", "500 Err"),
        up("c.com"),
        down("d.com", "404 Not Found"),
        up("e.com"),
    ];
    let plain = make_value_map(false);
    let sym = make_value_map(true);
    let c_plain = render_compact(&os, &plain);
    let c_sym = render_compact(&os, &sym);
    assert_eq!(c_sym, "\u{f062}: 3, \u{f98d}: b.com, d.com");
    assert_eq!(c_plain.replace("Up", "\u{f062}").replace("Down", "\u{f98d}"), c_sym);
    let v_plain = render_verbose(&os, &plain);
    let v_sym = render_verbose(&os, &sym);
    assert_eq!(v_plain.replace("Up", "\u{f062}").replace("Down", "\u{f98d}"), v_sym);
}

#[test]
fn all_up_compact_has_zero_down() {
    let os = vec![up("a.com"), up("b.com")];
    assert_eq!(render_compact(&os, &make_value_map(false)), "Up: 2, Down: 0");
}

#[test]
fn compact_count_with_two_digits() {
    let mut os = Vec::new();
    for i in 0..12 {
        os.push(up(&format!("h{}.com", i)));
    }
    assert_eq!(render_compact(&os, &make_value_map(false)), "Up: 12, Down: 0");
}

#[test]
fn empty_outcomes_render() {
    let os: Vec<ProbeOutcome> = Vec::new();
    let v = make_value_map(false);
    assert_eq!(render_verbose(&os, &v), "");
    assert_eq!(render_compact(&os, &v), "Up: 0, Down: 0");
    assert_eq!(render_diagnostics(&os), "");
}

#[test]
fn diagnostics_list_down_reasons() {
    let os = vec![down("a.com", "500 Err"), up("b.com"), down("c.com", "404 Not Found")];
    assert_eq!(render_diagnostics(&os), "a.com: 500 Err, c.com: 404 Not Found");
}

#[test]
fn no_urls_is_a_config_error() {
    let r = targets(&Vec::new());
    assert!(matches!(r, Err(ConfigError::NoUrls)));
    assert_eq!(
        ConfigError::NoUrls.message(),
        "Please pass in valid urls you would like to monitor"
    );
}

#[test]
fn mode_follows_flag() {
    assert_eq!(mode_of(true), RenderMode::Compact);
    assert_eq!(mode_of(false), RenderMode::Verbose);
}

#[test]
fn rendered_line_is_single_line() {
    let os = vec![up("a.com"), down("b.com", "500 Err")];
    for compact in [false, true] {
        for symbolic in [false, true] {
            assert!(!status_line(&os, compact, symbolic).contains('\n'));
        }
    }
}

#[test]
fn end_to_end_good_and_bad() {
    let urls = targets(&vec!["good.test".to_string(), "bad.test".to_string()]).unwrap();
    assert_eq!(urls, vec!["https://good.test".to_string(), "https://bad.test".to_string()]);
    let os = vec![
        outcome_of_reply(urls[0].clone(), 200, "OK"),
        outcome_of_reply(urls[1].clone(), 400, "Dns Failed"),
    ];
    assert_eq!(status_line(&os, false, false), "https://good.test: Up, https://bad.test: Down");
    assert_eq!(status_line(&os, true, false), "Up: 1, Down: https://bad.test");
    assert_eq!(render_diagnostics(&os), "https://bad.test: 400 Dns Failed");
}
