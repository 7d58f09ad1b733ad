use tarssh::export::render;
use tarssh::metrics::Metrics;
use tarssh::stats::ClientMetrics;

fn value_of(text: &str, name: &str) -> String {
    let prefix = format!("{} ", name);
    for line in text.lines() {
        if let Some(rest) = line.strip_prefix(&prefix) {
            return rest.to_string();
        }
    }
    panic!("no line for {}", name);
}

#[test]
fn export_header_lines() {
    let m = Metrics::new(1000);
    let text = m.export(6500);
    let head = "# HELP uptime_seconds Number of seconds since startup.\n\
                # TYPE uptime_seconds gauge\n\
                uptime_seconds 5\n\
                \n\
                # HELP connections_count Number of current connections.\n\
                # TYPE connections_count counter\n\
                connections_count 0\n\
                \n\
                # HELP connections_total Total number of connections.\n\
                # TYPE connections_total counter\n\
                connections_total 0\n\
                \n\
                # HELP client_maximum_connection_time_seconds Length in seconds of longest connection by current clients.\n\
                # TYPE client_maximum_connection_time_seconds counter\n\
                client_maximum_connection_time_seconds 0\n\
                \n";
    assert!(text.starts_with(head), "{}", text);
    assert!(text.contains(
        "# HELP client_connection_time_seconds_bucket A histogram of the connection time of current clients.\n\
         # TYPE client_connection_time_seconds_bucket histogram\n\
         client_connection_time_seconds_bucket{le=0s} 0\n\
         client_connection_time_seconds_bucket{le=1s} 0\n\
         client_connection_time_seconds_bucket{le=3s} 0\n"
    ));
    assert!(text.contains(
        "client_connection_time_seconds_bucket{le=2147483647s} 0\n\
         \n\
         # HELP former_maximum_connection_time_seconds Length in seconds of longest connection by former clients.\n"
    ));
    assert!(text.contains(
        "# HELP former_sent_eastereggs_sum Sum of sent sent_eastereggs by former clients.\n"
    ));
    assert!(text.contains(
        "# HELP total_connection_time_seconds_sum Sum of connection time overall.\n\
         # TYPE total_connection_time_seconds_sum counter\n\
         total_connection_time_seconds_sum 0\n\n"
    ));
    assert!(text.ends_with("total_connection_time_seconds_bucket{le=2147483647s} 0\n"));
    assert_eq!(value_of(&text, "total_minimum_connection_time_seconds"), "18446744073709551615");
}

#[test]
fn export_line_count_is_fixed() {
    let mut m = Metrics::new(0);
    let empty = m.export(0);
    let (_, a) = m.connect(10, 0).unwrap();
    m.sent_chunk(&a).unwrap();
    let busy = m.export(123_456);
    // 3 single metrics, then 3 populations of 6 metrics and a histogram.
    let lines = 3 * 4 + 3 * (6 * 4 + 2 + 32) + 2;
    assert_eq!(empty.lines().count(), lines);
    assert_eq!(busy.lines().count(), lines);
    let names = |t: &str| -> Vec<String> {
        t.lines().map(|l| l.split(' ').next().unwrap().to_string()).collect()
    };
    assert_eq!(names(&empty), names(&busy));
}

#[test]
fn export_twice_is_identical() {
    let mut m = Metrics::new(0);
    let (_, a) = m.connect(10, 1000).unwrap();
    m.sent_banner(&a).unwrap();
    let first = m.export(50_000);
    let second = m.export(50_000);
    assert_eq!(first, second);
    assert_eq!(m.connections(), 1);
    let later = m.export(51_000);
    assert_eq!(value_of(&later, "uptime_seconds"), "51");
    assert_eq!(value_of(&first, "uptime_seconds"), "50");
    assert_eq!(value_of(&later, "client_connection_time_seconds_sum"), "50");
    assert_eq!(value_of(&first, "client_connection_time_seconds_sum"), "49");
    let differ: Vec<(&str, &str)> = first
        .lines()
        .zip(later.lines())
        .filter(|(x, y)| x != y)
        .collect();
    for (x, _) in differ {
        assert!(
            x.starts_with("uptime_seconds")
                || x.starts_with("client_")
                || x.starts_with("total_"),
            "{}",
            x
        );
    }
}

#[test]
fn export_totals_add_live_and_former() {
    let mut m = Metrics::new(0);
    let (_, a) = m.connect(10, 0).unwrap();
    let (_, b) = m.connect(10, 0).unwrap();
    m.sent_chunk(&a).unwrap();
    m.sent_chunk(&a).unwrap();
    m.sent_easteregg(&a).unwrap();
    m.sent_chunk(&b).unwrap();
    m.sent_banner(&b).unwrap();
    m.disconnect(a, 4000).unwrap();
    let text = m.export(10_000);
    assert_eq!(value_of(&text, "former_sent_chunks_sum"), "2");
    assert_eq!(value_of(&text, "client_sent_chunks_sum"), "1");
    assert_eq!(value_of(&text, "total_sent_chunks_sum"), "3");
    assert_eq!(value_of(&text, "total_sent_eastereggs_sum"), "1");
    assert_eq!(value_of(&text, "total_sent_banners_sum"), "1");
    assert_eq!(value_of(&text, "former_connection_time_seconds_sum"), "4");
    assert_eq!(value_of(&text, "client_connection_time_seconds_sum"), "10");
    assert_eq!(value_of(&text, "total_connection_time_seconds_sum"), "14");
    assert_eq!(value_of(&text, "total_maximum_connection_time_seconds"), "10");
    assert_eq!(value_of(&text, "total_minimum_connection_time_seconds"), "4");
    assert_eq!(value_of(&text, "connections_count"), "1");
    assert_eq!(value_of(&text, "connections_total"), "2");
    assert!(text.contains("former_connection_time_seconds_bucket{le=3s} 1\n"));
    assert!(text.contains("client_connection_time_seconds_bucket{le=7s} 1\n"));
    assert!(text.contains("total_connection_time_seconds_bucket{le=3s} 1\n"));
    assert!(text.contains("total_connection_time_seconds_bucket{le=7s} 1\n"));
}

#[test]
fn render_prints_large_values() {
    let mut live = ClientMetrics::new();
    live.maximum_connection_time = 1234567890;
    live.connection_time_till[31] = 42;
    let former = ClientMetrics::new();
    let text = render(u64::MAX, 7, 10, &live, &former);
    assert_eq!(value_of(&text, "uptime_seconds"), "18446744073709551615");
    assert_eq!(value_of(&text, "connections_count"), "7");
    assert_eq!(value_of(&text, "connections_total"), "10");
    assert_eq!(value_of(&text, "client_maximum_connection_time_seconds"), "1234567890");
    assert!(text.contains("client_connection_time_seconds_bucket{le=2147483647s} 42\n"));
    assert!(text.contains("total_connection_time_seconds_bucket{le=2147483647s} 42\n"));
    assert!(text.contains("former_connection_time_seconds_bucket{le=2147483647s} 0\n"));
}
