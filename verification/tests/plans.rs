use satnogs_downloader::plan::{plan_page, plan_record, Step};
use satnogs_downloader::record::{DemodData, Observation};
use satnogs_downloader::target::Satellite;

fn cuava() -> Satellite {
    Satellite { name: "CUAVA-2", id: "60527" }
}

fn observation(id: i32, start: Option<&str>, urls: &[&str]) -> Observation {
    Observation {
        id,
        start: start.map(|s| s.to_string()),
        demoddata: urls.iter().map(|u| DemodData { payload_demod: u.to_string() }).collect(),
    }
}

fn report(message: &str) -> Step {
    Step::Report { message: message.to_string() }
}

fn write_line(file: &str, line: &str) -> Step {
    Step::WriteLine { file: file.to_string(), line: line.to_string() }
}

fn append_line(file: &str, line: &str) -> Step {
    Step::AppendLine { file: file.to_string(), line: line.to_string() }
}

fn download(url: &str, file: &str) -> Step {
    Step::Download { url: url.to_string(), file: file.to_string() }
}

#[test]
fn record_without_payloads_plans_nothing() {
    let obs = observation(1, Some("2024-08-16T03:00:00Z"), &[]);
    assert_eq!(plan_record("download/cuava-2", &cuava(), &obs), Vec::<Step>::new());
}

#[test]
fn record_with_one_payload() {
    let obs = observation(12345, None, &["https://h.example/p/1"]);
    assert_eq!(
        plan_record("download/cuava-2", &cuava(), &obs),
        vec![
            report("CUAVA-2: Downloading observation: 12345 (12345)"),
            write_line("download/cuava-2/12345-cuava-2-beacon.url", "\"https://h.example/p/1\"\n"),
            download("https://h.example/p/1", "download/cuava-2/12345-cuava-2-beacon.raw"),
        ]
    );
}

#[test]
fn record_with_three_payloads() {
    let obs = observation(
        9,
        Some("2024-08-16T03:00:00Z"),
        &["https://h.example/a", "https://h.example/b", "https://h.example/c"],
    );
    let sidecar = "download/cuava-2/2024-08-16T03:00:00Z-cuava-2-beacon.url";
    let payload = "download/cuava-2/2024-08-16T03:00:00Z-cuava-2-beacon.raw";
    assert_eq!(
        plan_record("download/cuava-2", &cuava(), &obs),
        vec![
            report("CUAVA-2: Downloading observation: 2024-08-16T03:00:00Z (9)"),
            write_line(sidecar, "\"https://h.example/a\"\n"),
            download("https://h.example/a", payload),
            append_line(sidecar, "\"https://h.example/b\"\n"),
            download("https://h.example/b", payload),
            append_line(sidecar, "\"https://h.example/c\"\n"),
            download("https://h.example/c", payload),
        ]
    );
}

#[test]
fn empty_page_plans_nothing() {
    assert_eq!(plan_page("download/cuava-2", &cuava(), &Vec::new()), Vec::<Step>::new());
}

#[test]
fn page_of_records_without_payloads_plans_nothing() {
    let records = vec![observation(1, None, &[]), observation(2, Some("t"), &[])];
    assert_eq!(plan_page("download/cuava-2", &cuava(), &records), Vec::<Step>::new());
}

#[test]
fn page_plans_its_records_in_order() {
    let records = vec![
        observation(1, None, &["https://h.example/1"]),
        observation(2, None, &[]),
        observation(3, Some("s"), &["https://h.example/3a", "https://h.example/3b"]),
    ];
    assert_eq!(
        plan_page("d", &cuava(), &records),
        vec![
            report("CUAVA-2: Downloading observation: 1 (1)"),
            write_line("d/1-cuava-2-beacon.url", "\"https://h.example/1\"\n"),
            download("https://h.example/1", "d/1-cuava-2-beacon.raw"),
            report("CUAVA-2: Downloading observation: s (3)"),
            write_line("d/s-cuava-2-beacon.url", "\"https://h.example/3a\"\n"),
            download("https://h.example/3a", "d/s-cuava-2-beacon.raw"),
            append_line("d/s-cuava-2-beacon.url", "\"https://h.example/3b\"\n"),
            download("https://h.example/3b", "d/s-cuava-2-beacon.raw"),
        ]
    );
}

#[test]
fn page_plan_is_the_plans_of_its_records() {
    let records = vec![
        observation(1, None, &["https://h.example/1"]),
        observation(2, Some("x"), &["https://h.example/2", "https://h.example/2b"]),
    ];
    let mut expected = plan_record("d", &cuava(), &records[0]);
    expected.extend(plan_record("d", &cuava(), &records[1]));
    assert_eq!(plan_page("d", &cuava(), &records), expected);
}
