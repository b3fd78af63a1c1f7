use srs_exporter::config::{join_sections, split_sections};
use srs_exporter::metrics::{stream_totals, streams_url, summaries_url};
use srs_exporter::text::{http_url_string, owned, port_string};
use srs_exporter::{
    AppConfig, AppError, ConfigError, MetricCollector, MetricRegistry, NacosConfig, ResourceUsage, SrsConfig,
    SrsExporterConfig, StreamCollector, SummaryCollector, DEFAULT_CONFIG,
};

#[test]
fn app_config_default() {
    let a = AppConfig::default();
    assert_eq!(a.port, 9707);
    assert_eq!(a.host, "127.0.0.1");
}

#[test]
fn srs_config_default() {
    let s = SrsConfig::default();
    assert_eq!(s.mode, "edge");
    assert_eq!(s.domain, "127.0.0.1");
    assert_eq!(s.rtmp_port, 1935);
    assert_eq!(s.host, "127.0.0.1");
    assert_eq!(s.http_port, 1985);
}

#[test]
fn nacos_config_default() {
    let n = NacosConfig::default();
    assert!(!n.auth);
    assert_eq!(n.host, "127.0.0.1");
    assert_eq!(n.port, 8848);
    assert_eq!(n.namespace_id, "public");
    assert_eq!(n.group_name, "public");
    assert_eq!(n.username, "nacos");
    assert_eq!(n.password, "nacos");
}

#[test]
fn exporter_config_default_has_empty_rest() {
    let c = SrsExporterConfig::default();
    assert_eq!(c.app, AppConfig::default());
    assert_eq!(c.srs, SrsConfig::default());
    assert_eq!(c.nacos, NacosConfig::default());
    assert_eq!(c.rest, toml::Value::Table(toml::value::Table::new()));
    assert_eq!(DEFAULT_CONFIG, "config.toml");
}

#[test]
fn split_sections_separates_known_sections() {
    let doc: toml::Value = toml::from_str("[app]\nport = 1\n[nacos]\nauth = true\n[extra]\nx = 2\n").unwrap();
    let s = split_sections(doc).unwrap();
    assert_eq!(s.app, Some(toml::from_str::<toml::Value>("port = 1\n").unwrap()));
    assert!(s.srs.is_none());
    assert_eq!(s.nacos, Some(toml::from_str::<toml::Value>("auth = true\n").unwrap()));
    let rest = s.rest.as_table().unwrap();
    assert_eq!(rest.len(), 1);
    assert!(rest.contains_key("extra"));
}

#[test]
fn split_sections_refuses_non_table() {
    let r = split_sections(toml::Value::Integer(3));
    assert_eq!(r.err(), Some(ConfigError::NotATable));
    assert_eq!(ConfigError::NotATable.message(), "A config file should always be a toml table");
}

#[test]
fn from_sections_fills_defaults() {
    let app = AppConfig { port: 1, host: "h".to_string() };
    let rest = toml::Value::Table(toml::value::Table::new());
    let c = SrsExporterConfig::from_sections(Some(app.clone()), None, None, rest.clone());
    assert_eq!(c.app, app);
    assert_eq!(c.srs, SrsConfig::default());
    assert_eq!(c.nacos, NacosConfig::default());
    assert_eq!(c.rest, rest);
}

#[test]
fn app_error_messages_and_status() {
    assert_eq!(
        AppError::NacosUnreachable.message(),
        "Cannot reach Nacos server, Please check Nacos configuration and the Nacos server"
    );
    assert_eq!(
        AppError::SrsUnreachable.message(),
        "Cannot reach SRS server, Please check SRS configuration and the SRS Server"
    );
    assert_eq!(AppError::SrsUnreachable.http_status(), 500);
    assert_eq!(AppError::NacosUnreachable.http_status(), 500);
}

#[test]
fn decimal_port_strings() {
    assert_eq!(port_string(0), "0");
    assert_eq!(port_string(7), "7");
    assert_eq!(port_string(10), "10");
    assert_eq!(port_string(1985), "1985");
    assert_eq!(port_string(65535), "65535");
    assert_eq!(owned("abc"), "abc");
    assert_eq!(http_url_string("h", 80, "/p"), "http://h:80/p");
}

#[test]
fn srs_api_urls() {
    let s = SrsConfig::default();
    assert_eq!(streams_url(&s), "http://127.0.0.1:1985/api/v1/streams/");
    assert_eq!(summaries_url(&s), "http://127.0.0.1:1985/api/v1/summaries");
}

#[test]
fn stream_totals_count_streams_and_sum_clients() {
    assert_eq!(stream_totals(&vec![]), (0, 0));
    assert_eq!(stream_totals(&vec![3, 0, 4]), (3, 7));
    assert_eq!(stream_totals(&vec![u32::MAX, u32::MAX]), (2, 2 * u32::MAX as i64));
}

#[test]
fn metric_collector_exports_stream_gauges() {
    let mut mc = MetricCollector::new(MetricRegistry::new(), SrsConfig::default()).unwrap();
    assert_eq!(mc.stream().srs_url(), "http://127.0.0.1:1985/api/v1/streams/");
    assert_eq!(mc.summary().srs_url(), "http://127.0.0.1:1985/api/v1/summaries");
    let text = mc.encode();
    assert!(text.contains("# HELP srs_stream_active_total SRS active streams\n"));
    assert!(text.contains("# HELP srs_stream_clients_total SRS connected clients\n"));
    assert!(text.contains("# TYPE srs_stream_clients_total gauge\n"));
    assert!(text.contains("srs_stream_active_total 0\n"));
    assert_eq!(mc.record_streams(&vec![2, 5, 1]), (3, 8));
    let text = mc.encode();
    assert!(text.contains("srs_stream_active_total 3\n"));
    assert!(text.contains(
        "# HELP srs_stream_clients_total SRS connected clients\n# TYPE srs_stream_clients_total gauge\nsrs_stream_clients_total 8\n"
    ));
    assert_eq!(mc.record_streams(&vec![]), (0, 0));
    let text = mc.encode();
    assert!(text.contains("srs_stream_active_total 0\n"));
    assert!(text.contains("srs_stream_clients_total 0\n"));
}

#[test]
fn metric_collector_exports_all_four_gauges() {
    let mut mc = MetricCollector::new(MetricRegistry::new(), SrsConfig::default()).unwrap();
    mc.record_streams(&vec![2, 5]);
    mc.summary().mem_percent().gauge.set(12.5);
    mc.summary().cpu_percent().gauge.set(3.25);
    let text = mc.encode();
    assert_eq!(
        text,
        "# HELP srs_cpu_percent SRS cpu usage (percent)\n# TYPE srs_cpu_percent gauge\nsrs_cpu_percent 3.25\n\
         # HELP srs_mem_percent SRS mem usage (percent)\n# TYPE srs_mem_percent gauge\nsrs_mem_percent 12.5\n\
         # HELP srs_stream_active_total SRS active streams\n# TYPE srs_stream_active_total gauge\nsrs_stream_active_total 2\n\
         # HELP srs_stream_clients_total SRS connected clients\n# TYPE srs_stream_clients_total gauge\nsrs_stream_clients_total 7\n"
    );
}

#[test]
fn large_client_totals_are_written_in_full() {
    let mut mc = MetricCollector::new(MetricRegistry::new(), SrsConfig::default()).unwrap();
    mc.record_streams(&vec![u32::MAX, u32::MAX, u32::MAX]);
    let text = mc.encode();
    assert!(text.contains("srs_stream_clients_total 12884901885\n"));
}

#[test]
fn collectors_share_one_registry() {
    let mut registry = MetricRegistry::new();
    let srs = SrsConfig { host: "10.0.0.5".to_string(), http_port: 8080, ..SrsConfig::default() };
    let mut sc = StreamCollector::new(&mut registry, &srs).unwrap();
    let summary = SummaryCollector::new(&mut registry, &srs).unwrap();
    assert_eq!(sc.srs_url(), "http://10.0.0.5:8080/api/v1/streams/");
    assert_eq!(summary.srs_url(), "http://10.0.0.5:8080/api/v1/summaries");
    assert_eq!(sc.record(&vec![2, 5]), (2, 7));
}

#[test]
fn resource_usage_collect_line() {
    assert_eq!(ResourceUsage::new().collect(), "/api/v1/rusage/");
}

#[test]
fn join_sections_sets_the_three_sections() {
    let rest: toml::Value = toml::from_str("[extra]\nx = 2\n").unwrap();
    let doc = join_sections(rest, toml::Value::Integer(1), toml::Value::Integer(2), toml::Value::Integer(3));
    let t = doc.as_table().unwrap();
    assert_eq!(t.len(), 4);
    assert_eq!(t.get("app"), Some(&toml::Value::Integer(1)));
    assert_eq!(t.get("srs"), Some(&toml::Value::Integer(2)));
    assert_eq!(t.get("nacos"), Some(&toml::Value::Integer(3)));
    assert!(t.contains_key("extra"));
}

#[test]
fn join_sections_keeps_a_non_table() {
    let doc = join_sections(toml::Value::Boolean(true), toml::Value::Integer(1), toml::Value::Integer(2), toml::Value::Integer(3));
    assert_eq!(doc, toml::Value::Boolean(true));
}

#[test]
fn join_then_split_gives_back_sections_and_rest() {
    let rest: toml::Value = toml::from_str("[extra]\nx = 2\n").unwrap();
    let doc = join_sections(rest.clone(), toml::Value::Integer(1), toml::Value::Integer(2), toml::Value::Integer(3));
    let s = split_sections(doc).unwrap();
    assert_eq!(s.app, Some(toml::Value::Integer(1)));
    assert_eq!(s.srs, Some(toml::Value::Integer(2)));
    assert_eq!(s.nacos, Some(toml::Value::Integer(3)));
    assert_eq!(s.rest, rest);
}

#[test]
fn scrape_steps_keep_gauges_on_errors() {
    let mut mc = MetricCollector::new(MetricRegistry::new(), SrsConfig::default()).unwrap();
    mc.record_streams(&vec![4]);
    assert_eq!(mc.record_stream_reply(Err(AppError::SrsUnreachable)), Err(AppError::SrsUnreachable));
    assert!(mc.encode().contains("srs_stream_active_total 1\n"));
    assert!(mc.encode().contains("srs_stream_clients_total 4\n"));
    assert_eq!(mc.record_stream_reply(Ok(vec![1, 2])), Ok(()));
    assert_eq!(mc.finish_scrape(Err(AppError::SrsUnreachable)), Err(AppError::SrsUnreachable));
    let text = mc.finish_scrape(Ok(())).unwrap();
    assert!(text.contains("srs_stream_active_total 2\n"));
    assert!(text.contains("srs_stream_clients_total 3\n"));
    assert!(text.contains("# TYPE srs_mem_percent gauge\n"));
}
