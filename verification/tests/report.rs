use repo_report::{
    current_timestamp, decimal_string, format_timestamp, parse_response, render_report,
    LocalTime, ParseError, Repository, Response,
};

#[test]
fn repository_new_keeps_fields() {
    let r = Repository::new(
        String::from("serde"),
        String::from("a serialization framework"),
        String::from("https://example.net/serde"),
    );
    assert_eq!(r.name, "serde");
    assert_eq!(r.description, "a serialization framework");
    assert_eq!(r.url, "https://example.net/serde");
}

#[test]
fn response_new_keeps_fields() {
    let items = vec![Repository::new(
        String::from("a"),
        String::from("b"),
        String::from("c"),
    )];
    let r = Response::new(7, true, items);
    assert_eq!(r.total_count, 7);
    assert!(r.incomplete_results);
    assert_eq!(r.items.len(), 1);
    assert_eq!(r.items[0].name, "a");
}

#[test]
fn decimal_string_zero() {
    assert_eq!(decimal_string(0), "0");
}

#[test]
fn decimal_string_plain_value() {
    assert_eq!(decimal_string(12345), "12345");
    assert_eq!(decimal_string(100), "100");
    assert_eq!(decimal_string(9), "9");
}

#[test]
fn decimal_string_largest() {
    assert_eq!(decimal_string(u64::MAX), "18446744073709551615");
}

#[test]
fn format_timestamp_pads_fields() {
    let t = LocalTime { year: 2024, month: 1, day: 2, hour: 3, minute: 4, second: 5 };
    assert_eq!(format_timestamp(&t), "02-01-2024 03:04:05");
}

#[test]
fn format_timestamp_wide_fields() {
    let t = LocalTime { year: 987, month: 12, day: 31, hour: 23, minute: 59, second: 58 };
    assert_eq!(format_timestamp(&t), "31-12-0987 23:59:58");
}

#[test]
fn current_timestamp_shape() {
    let ts = current_timestamp();
    let b = ts.as_bytes();
    assert_eq!(b.len(), 19);
    assert_eq!(b[2], b'-');
    assert_eq!(b[5], b'-');
    assert_eq!(b[10], b' ');
    assert_eq!(b[13], b':');
    assert_eq!(b[16], b':');
    for i in [0, 1, 3, 4, 6, 7, 8, 9, 11, 12, 14, 15, 17, 18] {
        assert!(b[i].is_ascii_digit());
    }
}

fn two_record_items() -> Vec<Repository> {
    vec![
        Repository::new(
            String::from("alpha"),
            String::from("first tool"),
            String::from("https://example.net/alpha"),
        ),
        Repository::new(
            String::from("beta"),
            String::from("second tool"),
            String::from("https://example.net/beta"),
        ),
    ]
}

#[test]
fn render_report_exact() {
    let out = render_report(2, &two_record_items(), "01-01-2020 00:00:00");
    let expected = "# Tools create in Rust\n\n\
Parady to \"Everybody cares about random tools created in rust\".\n\n\
Total repositories: 2\n\n\
- [alpha](https://example.net/alpha) - first tool\n\
- [beta](https://example.net/beta) - second tool\n\
\n\n\
## License\n\n\
This project is licensed under the MIT License - see the [LICENSE.md](LICENSE.md) file for details\n\n\
## Acknowledgments\n\n\
- [GitHub](https://github.com)\n\
- [Rust](https://www.rust-lang.org)\n\
\n\n\
##### _Last Run on 01-01-2020 00:00:00_\n\n";
    assert_eq!(out, expected);
}

#[test]
fn render_report_one_bullet_line_per_record() {
    let mut items = Vec::new();
    for i in 0..5 {
        items.push(Repository::new(
            format!("tool{}", i),
            format!("description {}", i),
            format!("https://example.net/tool{}", i),
        ));
    }
    let out = render_report(5, &items, "01-01-2020 00:00:00");
    let bullet_lines: Vec<&str> = out
        .lines()
        .filter(|l| l.starts_with("- [") && l.contains(") - "))
        .collect();
    assert_eq!(bullet_lines.len(), 5);
    for i in 0..5 {
        assert_eq!(
            bullet_lines[i],
            format!("- [tool{}](https://example.net/tool{}) - description {}", i, i, i)
        );
    }
}

#[test]
fn render_report_total_count_decimal() {
    let out = render_report(1048576, &Vec::new(), "01-01-2020 00:00:00");
    assert!(out.contains("Total repositories: 1048576\n\n"));
    assert!(!out.contains("Total repositories: 01048576"));
}

#[test]
fn render_report_ends_with_timestamp_line() {
    let out = render_report(2, &two_record_items(), "05-06-2021 07:08:09");
    assert!(out.ends_with("##### _Last Run on 05-06-2021 07:08:09_\n\n"));
}

#[test]
fn parse_well_formed_body() {
    let body = "{\"total_count\": 42, \"incomplete_results\": true, \"items\": [\
        {\"name\": \"alpha\", \"description\": \"first tool\", \"html_url\": \"https://example.net/alpha\"},\
        {\"name\": \"beta\", \"description\": \"second tool\", \"html_url\": \"https://example.net/beta\"}]}";
    let (total_count, incomplete_results, items) = parse_response(body).unwrap();
    assert_eq!(total_count, 42);
    assert!(incomplete_results);
    assert_eq!(items.len(), 2);
    assert_eq!(items[0].name, "alpha");
    assert_eq!(items[0].description, "first tool");
    assert_eq!(items[0].url, "https://example.net/alpha");
    assert_eq!(items[1].name, "beta");
}

#[test]
fn parse_example_single_record() {
    let body = "{\"total_count\": 1, \"items\": [{\"name\": \"foo\", \"description\": \"bar\", \"html_url\": \"https://x/foo\"}]}";
    let (total_count, _, items) = parse_response(body).unwrap();
    assert_eq!(total_count, 1);
    assert_eq!(items.len(), 1);
    let out = render_report(total_count, &items, "01-01-2020 00:00:00");
    assert!(out.contains("- [foo](https://x/foo) - bar\n"));
}

#[test]
fn parse_malformed_body() {
    assert!(matches!(parse_response("not json at all"), Err(ParseError::MalformedJson)));
    assert!(matches!(parse_response("{\"total_count\": "), Err(ParseError::MalformedJson)));
}

#[test]
fn parse_missing_total_count() {
    let body = "{\"items\": []}";
    assert!(matches!(parse_response(body), Err(ParseError::MissingTotalCount)));
    let body = "{\"total_count\": \"many\", \"items\": []}";
    assert!(matches!(parse_response(body), Err(ParseError::MissingTotalCount)));
}

#[test]
fn parse_total_count_large_values() {
    let body = "{\"total_count\": 4294967296, \"items\": []}";
    assert_eq!(parse_response(body).unwrap().0, 4294967296);
    let body = "{\"total_count\": 18446744073709551615, \"items\": []}";
    assert_eq!(parse_response(body).unwrap().0, u64::MAX);
}

#[test]
fn parse_missing_items() {
    let body = "{\"total_count\": 0}";
    assert!(matches!(parse_response(body), Err(ParseError::MissingItems)));
    let body = "{\"total_count\": 0, \"items\": 3}";
    assert!(matches!(parse_response(body), Err(ParseError::MissingItems)));
}

#[test]
fn parse_empty_items() {
    let body = "{\"total_count\": 0, \"items\": []}";
    let (total_count, incomplete_results, items) = parse_response(body).unwrap();
    assert_eq!(total_count, 0);
    assert_eq!(items.len(), 0);
    assert!(!incomplete_results);
}

#[test]
fn parse_null_description_fails() {
    let body = "{\"total_count\": 1, \"items\": [\
        {\"name\": \"foo\", \"description\": null, \"html_url\": \"https://x/foo\"}]}";
    assert!(matches!(parse_response(body), Err(ParseError::MissingDescription)));
}

#[test]
fn parse_missing_description_fails() {
    let body = "{\"total_count\": 1, \"items\": [\
        {\"name\": \"foo\", \"html_url\": \"https://x/foo\"}]}";
    assert!(matches!(parse_response(body), Err(ParseError::MissingDescription)));
}

#[test]
fn parse_missing_description_aborts_whole_list() {
    let body = "{\"total_count\": 2, \"items\": [\
        {\"name\": \"good\", \"description\": \"fine\", \"html_url\": \"https://x/good\"},\
        {\"name\": \"bad\", \"html_url\": \"https://x/bad\"}]}";
    assert!(matches!(parse_response(body), Err(ParseError::MissingDescription)));
}

#[test]
fn parse_missing_name_fails() {
    let body = "{\"total_count\": 1, \"items\": [\
        {\"description\": \"bar\", \"html_url\": \"https://x/foo\"}]}";
    assert!(matches!(parse_response(body), Err(ParseError::MissingName)));
}

#[test]
fn parse_missing_url_fails() {
    let body = "{\"total_count\": 1, \"items\": [\
        {\"name\": \"foo\", \"description\": \"bar\"}]}";
    assert!(matches!(parse_response(body), Err(ParseError::MissingUrl)));
}
