use satnogs_downloader::plan::{file_path_of, join, line_for, line_of, notice_for, output_file};
use satnogs_downloader::record::{DemodData, Observation};
use satnogs_downloader::target::{folder_of, satellites, Satellite};
use satnogs_downloader::text::decimal_string;

fn cuava() -> Satellite {
    Satellite { name: "CUAVA-2", id: "60527" }
}

fn observation(id: i32, start: Option<&str>, urls: &[&str]) -> Observation {
    Observation {
        id,
        start: start.map(|s| s.to_string()),
        demoddata: urls.iter().map(|u| DemodData { payload_demod: u.to_string() }).collect(),
    }
}

#[test]
fn decimal_of_zero() {
    assert_eq!(decimal_string(0), "0");
}

#[test]
fn decimal_of_single_digits() {
    assert_eq!(decimal_string(7), "7");
    assert_eq!(decimal_string(9), "9");
    assert_eq!(decimal_string(-1), "-1");
}

#[test]
fn decimal_of_round_numbers() {
    assert_eq!(decimal_string(10), "10");
    assert_eq!(decimal_string(100), "100");
    assert_eq!(decimal_string(-1000), "-1000");
    assert_eq!(decimal_string(10203), "10203");
}

#[test]
fn decimal_of_the_extremes() {
    assert_eq!(decimal_string(i32::MAX), "2147483647");
    assert_eq!(decimal_string(i32::MIN), "-2147483648");
}

#[test]
fn decimal_agrees_with_display() {
    let samples: [i32; 12] =
        [0, 1, -1, 9, 10, 11, 99, 100, 12345, -12345, 1_000_000_000, -999_999_999];
    for n in samples {
        assert_eq!(decimal_string(n), n.to_string());
    }
}

#[test]
fn name_is_the_start_time_where_present() {
    let obs = observation(12345, Some("2024-08-16T03:00:00Z"), &[]);
    assert_eq!(obs.name(), "2024-08-16T03:00:00Z");
}

#[test]
fn name_is_the_identity_without_start_time() {
    assert_eq!(observation(12345, None, &[]).name(), "12345");
    assert_eq!(observation(-7, None, &[]).name(), "-7");
}

#[test]
fn name_keeps_an_empty_start_time() {
    assert_eq!(observation(5, Some(""), &[]).name(), "");
}

#[test]
fn eligibility_follows_the_payloads() {
    assert!(!observation(1, None, &[]).is_eligible());
    assert!(observation(1, None, &["http://a/1"]).is_eligible());
    assert!(observation(1, Some("t"), &["http://a/1", "http://a/2"]).is_eligible());
}

#[test]
fn tag_is_the_lower_case_name() {
    assert_eq!(cuava().tag(), "cuava-2");
    assert_eq!(Satellite { name: "WS-1", id: "60469" }.tag(), "ws-1");
    assert_eq!(Satellite { name: "already lower", id: "1" }.tag(), "already lower");
}

#[test]
fn folder_is_below_download() {
    assert_eq!(cuava().folder(), "download/cuava-2");
    assert_eq!(Satellite { name: "WS-1", id: "60469" }.folder(), "download/ws-1");
}

#[test]
fn duplicate_is_the_same_satellite() {
    let sat = cuava();
    assert_eq!(sat.duplicate(), sat);
}

#[test]
fn the_fleet_is_cuava_then_ws() {
    let fleet = satellites();
    assert_eq!(
        fleet,
        vec![Satellite { name: "CUAVA-2", id: "60527" }, Satellite { name: "WS-1", id: "60469" }]
    );
}

#[test]
fn files_are_named_by_start_time_and_tag() {
    let obs = observation(12345, Some("2024-08-16T03:00:00Z"), &["http://a/1"]);
    assert_eq!(
        output_file("download/cuava-2", &cuava(), &obs, "url"),
        "download/cuava-2/2024-08-16T03:00:00Z-cuava-2-beacon.url"
    );
    assert_eq!(
        output_file("download/cuava-2", &cuava(), &obs, "raw"),
        "download/cuava-2/2024-08-16T03:00:00Z-cuava-2-beacon.raw"
    );
}

#[test]
fn files_are_named_by_identity_without_start_time() {
    let obs = observation(12345, None, &["http://a/1"]);
    assert_eq!(
        output_file("download/cuava-2", &cuava(), &obs, "url"),
        "download/cuava-2/12345-cuava-2-beacon.url"
    );
    assert_eq!(
        output_file("download/cuava-2", &cuava(), &obs, "raw"),
        "download/cuava-2/12345-cuava-2-beacon.raw"
    );
}

#[test]
fn file_names_take_any_parent_and_suffix() {
    let obs = observation(3, None, &[]);
    assert_eq!(output_file("a/b", &cuava(), &obs, "txt"), "a/b/3-cuava-2-beacon.txt");
    assert_eq!(output_file("a", &cuava(), &obs, ""), "a/3-cuava-2-beacon.");
}

#[test]
fn file_of_an_empty_parent_is_the_file_name_alone() {
    let obs = observation(3, None, &[]);
    assert_eq!(output_file("", &cuava(), &obs, ""), "3-cuava-2-beacon.");
    assert_eq!(output_file("", &cuava(), &obs, "url"), "3-cuava-2-beacon.url");
}

#[test]
fn file_below_a_parent_that_ends_in_a_separator() {
    let obs = observation(3, None, &[]);
    assert_eq!(output_file("a/b/", &cuava(), &obs, "raw"), "a/b/3-cuava-2-beacon.raw");
    assert_eq!(output_file("/", &cuava(), &obs, "raw"), "/3-cuava-2-beacon.raw");
}

#[test]
fn file_whose_name_begins_at_the_root_stands_for_itself() {
    let obs = observation(3, Some("/tmp/x"), &[]);
    assert_eq!(
        output_file("download/cuava-2", &cuava(), &obs, "raw"),
        "/tmp/x-cuava-2-beacon.raw"
    );
}

#[test]
fn file_path_agrees_with_the_join_of_paths() {
    let parents = ["", "a", "a/", "a/b", "/", "/a", "download/cuava-2"];
    let names = ["3", "2024-08-16T03:00:00Z", "/abs", "x/y", ""];
    for parent in parents {
        for name in names {
            let obs = observation(3, Some(name), &[]);
            let file = format!("{}-cuava-2-beacon.url", name);
            let expected = std::path::Path::new(parent).join(&file);
            let path = output_file(parent, &cuava(), &obs, "url");
            assert_eq!(Some(path.as_str()), expected.to_str());
        }
    }
}

#[test]
fn join_puts_one_separator_between_parent_and_file() {
    assert_eq!(join("a", "b"), "a/b");
    assert_eq!(join("a/", "b"), "a/b");
    assert_eq!(join("", "b"), "b");
    assert_eq!(join("a", ""), "a/");
    assert_eq!(join("", ""), "");
    assert_eq!(join("a", "/b"), "/b");
    assert_eq!(join("a//", "b/c"), "a//b/c");
}

#[test]
fn file_path_of_name_and_tag() {
    assert_eq!(
        file_path_of("download/cuava-2", "2024-08-16T03:00:00Z", "cuava-2", "url"),
        "download/cuava-2/2024-08-16T03:00:00Z-cuava-2-beacon.url"
    );
    assert_eq!(
        file_path_of("download/cuava-2", "2024-08-16T03:00:00Z", "cuava-2", "raw"),
        "download/cuava-2/2024-08-16T03:00:00Z-cuava-2-beacon.raw"
    );
    assert_eq!(
        file_path_of("download/cuava-2", "12345", "cuava-2", "url"),
        "download/cuava-2/12345-cuava-2-beacon.url"
    );
    assert_eq!(file_path_of("", "12345", "ws-1", "raw"), "12345-ws-1-beacon.raw");
}

#[test]
fn folder_of_a_tag() {
    assert_eq!(folder_of("cuava-2"), "download/cuava-2");
    assert_eq!(folder_of(""), "download/");
}

#[test]
fn line_of_a_quoted_address() {
    assert_eq!(line_of("\"http://a/1\""), "\"http://a/1\"\n");
    assert_eq!(line_of(""), "\n");
}

#[test]
fn line_is_the_quoted_address_and_a_line_feed() {
    assert_eq!(line_for("http://a/1"), "\"http://a/1\"\n");
    assert_eq!(line_for(""), "\"\"\n");
}

#[test]
fn line_escapes_what_quoting_escapes() {
    assert_eq!(line_for("a\"b"), "\"a\\\"b\"\n");
    assert_eq!(line_for("a\nb"), "\"a\\nb\"\n");
    assert_eq!(line_for("a\\b"), "\"a\\\\b\"\n");
}

#[test]
fn notice_names_satellite_record_and_identity() {
    let obs = observation(12345, Some("2024-08-16T03:00:00Z"), &["http://a/1"]);
    assert_eq!(
        notice_for(&cuava(), &obs),
        "CUAVA-2: Downloading observation: 2024-08-16T03:00:00Z (12345)"
    );
    let bare = observation(42, None, &["http://a/1"]);
    assert_eq!(notice_for(&cuava(), &bare), "CUAVA-2: Downloading observation: 42 (42)");
}
