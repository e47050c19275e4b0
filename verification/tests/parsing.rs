use gilded_sentinel::mock::get_mock_sensor_data;
use gilded_sentinel::models::Uptime;
use gilded_sentinel::sensor::SensorUtils;
use gilded_sentinel::sensor::collect_sensor_data;
use gilded_sentinel::sensor::is_adapter_line;
use gilded_sentinel::sensor::is_core_line;
use gilded_sentinel::sensor::is_package_line;
use gilded_sentinel::sensor::parse_adapter_line;
use gilded_sentinel::sensor::parse_core_line;
use gilded_sentinel::sensor::parse_package_line;
use gilded_sentinel::sensor::parse_sensor_data;
use gilded_sentinel::text::parse_i32_or_zero;
use gilded_sentinel::text::parse_temp_field;
use gilded_sentinel::text::parse_u64_opt;
use gilded_sentinel::text::split_lines;
use gilded_sentinel::text::tokens;
use gilded_sentinel::text::u64_to_string;
use gilded_sentinel::text::i64_to_string;

fn sample_two_adapters() -> String {
    let mut s = String::new();
    s.push_str("coretemp-isa-0000\n");
    s.push_str("Package id 0: +29.0 x x +76.0 x x +86.0\n");
    s.push_str("CoreA +19.0 a b +76.0 +86.0\n");
    s.push_str("CoreB +23.0 a b +76.0 +86.0\n");
    s.push_str("CoreC +18.0 a b +76.0 +86.0\n");
    s.push_str("CoreD +26.0 a b +76.0 +86.0\n");
    s.push_str("CoreE +25.0 a b +76.0 +86.0\n");
    s.push_str("coretemp-isa-0001\n");
    s.push_str("Package id 1: +31.0 x x +75.0 x x +85.0\n");
    s.push_str("CoreF +25.0 a b +75.0 +85.0\n");
    s.push_str("CoreG +19.0 a b +75.0 +85.0\n");
    s.push_str("CoreH +28.0 a b +75.0 +85.0\n");
    s.push_str("CoreI +27.0 a b +75.0 +85.0\n");
    s.push_str("CoreJ +25.0 a b +75.0 +85.0\n");
    s
}

#[test]
fn line_classifiers() {
    assert!(is_adapter_line("coretemp-isa-0000"));
    assert!(!is_adapter_line("acpitz-acpi-0"));
    assert!(is_package_line("Package id 0: +29.0"));
    assert!(!is_package_line("Package 0"));
    assert!(is_core_line("Core 0: +19.0"));
    assert!(!is_core_line("temp1: +8.3"));
}

#[test]
fn classifier_methods_agree_with_free_functions() {
    let line = "coretemp-isa-0000";
    assert_eq!(SensorUtils::is_adapter_line(line), is_adapter_line(line));
    let line = "Package id 0:";
    assert_eq!(SensorUtils::is_package_line(line), is_package_line(line));
    let line = "Core 3:";
    assert_eq!(SensorUtils::is_core_line(line), is_core_line(line));
}

#[test]
fn adapter_line_opens_empty_package() {
    let p = parse_adapter_line("coretemp-isa-0000 extra");
    assert_eq!(p.adapter_name, "coretemp-isa-0000");
    assert_eq!(p.package_id, "");
    assert_eq!(p.package_temperature, 0);
    assert_eq!(p.high_threshold, 0);
    assert_eq!(p.critical_threshold, 0);
    assert!(p.cores.is_empty());
}

#[test]
fn package_line_fills_fixed_positions() {
    let mut p = parse_adapter_line("coretemp-isa-0000");
    parse_package_line("Package id 0: +29.5 x x +76.0 x x +86.0", &mut p);
    assert_eq!(p.package_id, "0:");
    assert_eq!(p.package_temperature, 29500);
    assert_eq!(p.high_threshold, 76000);
    assert_eq!(p.critical_threshold, 86000);
}

#[test]
fn short_package_line_leaves_defaults() {
    let mut p = parse_adapter_line("coretemp-isa-0000");
    parse_package_line("Package id 0: +99.0", &mut p);
    assert_eq!(p.package_id, "");
    assert_eq!(p.package_temperature, 0);
    assert_eq!(p.high_threshold, 0);
    assert_eq!(p.critical_threshold, 0);
}

#[test]
fn core_line_appends_reading() {
    let mut p = parse_adapter_line("coretemp-isa-0000");
    parse_core_line("CoreA +19.0 a b +76.0 +86.0", &mut p);
    assert_eq!(p.cores.len(), 1);
    assert_eq!(p.cores[0].core_name, "CoreA");
    assert_eq!(p.cores[0].temperature, 19000);
    assert_eq!(p.cores[0].high_threshold, 76000);
    assert_eq!(p.cores[0].critical_threshold, 86000);
}

#[test]
fn short_core_line_appends_nothing() {
    let mut p = parse_adapter_line("coretemp-isa-0000");
    parse_core_line("CoreA +19.0", &mut p);
    assert!(p.cores.is_empty());
}

#[test]
fn two_adapter_scenario() {
    let text = sample_two_adapters();
    let packages = parse_sensor_data(&text);
    assert_eq!(packages.len(), 2);
    assert_eq!(packages[0].adapter_name, "coretemp-isa-0000");
    assert_eq!(packages[0].package_id, "0:");
    assert_eq!(packages[0].package_temperature, 29000);
    assert_eq!(packages[0].cores.len(), 5);
    let names: Vec<&str> = packages[0].cores.iter().map(|c| c.core_name.as_str()).collect();
    assert_eq!(names, vec!["CoreA", "CoreB", "CoreC", "CoreD", "CoreE"]);
    assert_eq!(packages[1].adapter_name, "coretemp-isa-0001");
    assert_eq!(packages[1].package_id, "1:");
    assert_eq!(packages[1].cores.len(), 5);
    let names: Vec<&str> = packages[1].cores.iter().map(|c| c.core_name.as_str()).collect();
    assert_eq!(names, vec!["CoreF", "CoreG", "CoreH", "CoreI", "CoreJ"]);
}

#[test]
fn short_package_line_in_scenario_keeps_zero_defaults() {
    let mut s = String::new();
    s.push_str("coretemp-isa-0000\n");
    s.push_str("Package id 0: +29.0\n");
    s.push_str("CoreA +19.0 a b +76.0 +86.0\n");
    let packages = parse_sensor_data(&s);
    assert_eq!(packages.len(), 1);
    assert_eq!(packages[0].package_temperature, 0);
    assert_eq!(packages[0].high_threshold, 0);
    assert_eq!(packages[0].critical_threshold, 0);
    assert_eq!(packages[0].cores.len(), 1);
}

#[test]
fn parsing_is_idempotent() {
    let text = sample_two_adapters();
    let first = parse_sensor_data(&text);
    let second = parse_sensor_data(&text);
    assert_eq!(first, second);
    let mock = get_mock_sensor_data();
    assert_eq!(parse_sensor_data(&mock), parse_sensor_data(&mock));
}

#[test]
fn package_lines_outside_any_adapter_are_ignored() {
    let s = "Package id 0: +29.0 x x +76.0 x x +86.0\nCoreA +19.0 a b +76.0 +86.0\n";
    let packages = parse_sensor_data(s);
    assert!(packages.is_empty());
}

#[test]
fn empty_input_parses_to_nothing() {
    assert!(parse_sensor_data("").is_empty());
}

#[test]
fn mock_data_has_eight_sections_of_ten_cores() {
    let mock = get_mock_sensor_data();
    let packages = parse_sensor_data(&mock);
    assert_eq!(packages.len(), 8);
    for p in &packages {
        assert_eq!(p.cores.len(), 10);
    }
}

#[test]
fn collect_sensor_data_wraps_parse() {
    let text = sample_two_adapters();
    let data = collect_sensor_data(Some(text.clone())).unwrap();
    assert_eq!(data.cpu_packages, parse_sensor_data(&text));
    assert!(collect_sensor_data(None).is_none());
}

#[test]
fn collect_cpu_package_data_is_empty_on_failed_run() {
    assert!(SensorUtils::collect_cpu_package_data(None).is_empty());
    let got = SensorUtils::collect_cpu_package_data(Some(sample_two_adapters()));
    assert_eq!(got.len(), 2);
}

#[test]
fn tokens_split_on_whitespace() {
    let t = tokens("  a\tbb   ccc ");
    assert_eq!(t, vec!["a".to_string(), "bb".to_string(), "ccc".to_string()]);
    assert!(tokens("   ").is_empty());
}

#[test]
fn split_lines_handles_endings() {
    assert_eq!(split_lines("a\nb\r\nc"), vec!["a", "b", "c"]);
    assert_eq!(split_lines("a\n"), vec!["a"]);
    assert_eq!(split_lines(""), Vec::<String>::new());
    assert_eq!(split_lines("a\n\nb"), vec!["a", "", "b"]);
}

#[test]
fn temperature_tokens_decode_to_millidegrees() {
    assert_eq!(parse_temp_field("+29.0\u{b0}C"), 29000);
    assert_eq!(parse_temp_field("-12.5"), -12500);
    assert_eq!(parse_temp_field("29"), 29000);
    assert_eq!(parse_temp_field("5."), 5000);
    assert_eq!(parse_temp_field(".5"), 500);
    assert_eq!(parse_temp_field("29.0005"), 29000);
    assert_eq!(parse_temp_field("abc"), 0);
    assert_eq!(parse_temp_field("+76.0\u{b0}C,"), 0);
    assert_eq!(parse_temp_field(""), 0);
}

#[test]
fn decimal_parsing_matches_documented_rules() {
    assert_eq!(parse_i32_or_zero("-42"), -42);
    assert_eq!(parse_i32_or_zero("2147483647"), 2147483647);
    assert_eq!(parse_i32_or_zero("-2147483648"), -2147483648);
    assert_eq!(parse_i32_or_zero("2147483648"), 0);
    assert_eq!(parse_i32_or_zero("12a"), 0);
    assert_eq!(parse_i32_or_zero(""), 0);
    assert_eq!(parse_u64_opt("18446744073709551615"), Some(18446744073709551615));
    assert_eq!(parse_u64_opt("18446744073709551616"), None);
    assert_eq!(parse_u64_opt("+7"), Some(7));
    assert_eq!(parse_u64_opt("-7"), None);
}

#[test]
fn integers_render_in_decimal() {
    assert_eq!(u64_to_string(0), "0");
    assert_eq!(u64_to_string(12345), "12345");
    assert_eq!(u64_to_string(u64::MAX), "18446744073709551615");
    assert_eq!(i64_to_string(-25), "-25");
    assert_eq!(i64_to_string(i64::MIN), "-9223372036854775808");
}

#[test]
fn uptime_breakdown_and_report() {
    let u = Uptime::from_seconds(90061);
    assert_eq!(u.days, 1);
    assert_eq!(u.hours, 1);
    assert_eq!(u.minutes, 1);
    assert_eq!(u.seconds, 1);
    assert_eq!(u.to_string(), "1 days 1 hours 1 minutes 1 seconds [90061]");
    let z = Uptime::from_seconds(0);
    assert_eq!(z.to_string(), "0 days 0 hours 0 minutes 0 seconds [0]");
}
