use srs_exporter::nacos::{beat_outcome, register_outcome, srs_health_outcome};
use srs_exporter::{AppError, NacosClient, PingPong, SrsExporterConfig};

const META: &str = "{\"cluster_mode\":\"edge\",\"intranet_host\":\"127.0.0.1\",\"metric_host\":\"127.0.0.1\",\"metric_port\":\"9707\",\"metric_path\":\"/metrics\"}";

const ENCODED_BEAT: &str = "%7B%22serviceName%22%3A%22public@@srs%22%2C%22ip%22%3A%22127.0.0.1%22%2C%22port%22%3A%221935%22%2C%22weight%22%3A1%2C%22metadata%22%3A%7B%22cluster_mode%22%3A%22edge%22%2C%22intranet_host%22%3A%22127.0.0.1%22%2C%22metric_host%22%3A%22127.0.0.1%22%2C%22metric_port%22%3A%229707%22%2C%22metric_path%22%3A%22/metrics%22%7D%7D";

const BEAT_URL: &str = "http://127.0.0.1:8848/nacos/v1/ns/instance/beat?namespaceId=public&serviceName=public%40%40srs&beat=%257B%2522serviceName%2522%253A%2522public%40%40srs%2522%252C%2522ip%2522%253A%2522127.0.0.1%2522%252C%2522port%2522%253A%25221935%2522%252C%2522weight%2522%253A1%252C%2522metadata%2522%253A%257B%2522cluster_mode%2522%253A%2522edge%2522%252C%2522intranet_host%2522%253A%2522127.0.0.1%2522%252C%2522metric_host%2522%253A%2522127.0.0.1%2522%252C%2522metric_port%2522%253A%25229707%2522%252C%2522metric_path%2522%253A%2522%2Fmetrics%2522%257D%257D";

fn pairs(v: &[(&str, &str)]) -> Vec<(String, String)> {
    v.iter().map(|(k, w)| (k.to_string(), w.to_string())).collect()
}

#[test]
fn metadata_of_default_config() {
    let client = NacosClient::new(&SrsExporterConfig::default());
    assert_eq!(
        client.metadata(),
        pairs(&[
            ("cluster_mode", "edge"),
            ("intranet_host", "127.0.0.1"),
            ("metric_host", "127.0.0.1"),
            ("metric_port", "9707"),
            ("metric_path", "/metrics"),
        ])
    );
    assert_eq!(client.metadata_json(), META);
}

#[test]
fn metadata_json_escapes_quotes_and_controls() {
    let mut config = SrsExporterConfig::default();
    config.srs.mode = "ed\"ge\\\n\u{1}".to_string();
    config.app.port = 80;
    let client = NacosClient::new(&config);
    assert_eq!(
        client.metadata_json(),
        "{\"cluster_mode\":\"ed\\\"ge\\\\\\n\\u0001\",\"intranet_host\":\"127.0.0.1\",\"metric_host\":\"127.0.0.1\",\"metric_port\":\"80\",\"metric_path\":\"/metrics\"}"
    );
}

#[test]
fn register_params_without_auth() {
    let client = NacosClient::new(&SrsExporterConfig::default());
    assert_eq!(
        client.register_params(),
        pairs(&[
            ("serviceName", "srs"),
            ("ip", "127.0.0.1"),
            ("port", "1935"),
            ("namespaceId", "public"),
            ("group", "public"),
            ("metadata", META),
        ])
    );
}

#[test]
fn register_params_with_auth_end_with_credentials() {
    let mut config = SrsExporterConfig::default();
    config.nacos.auth = true;
    config.nacos.username = "admin".to_string();
    config.nacos.password = "secret".to_string();
    config.srs.domain = "live.example.com".to_string();
    config.srs.rtmp_port = 19350;
    let params = NacosClient::new(&config).register_params();
    assert_eq!(params.len(), 8);
    assert_eq!(params[1], ("ip".to_string(), "live.example.com".to_string()));
    assert_eq!(params[2], ("port".to_string(), "19350".to_string()));
    assert_eq!(params[6], ("username".to_string(), "admin".to_string()));
    assert_eq!(params[7], ("password".to_string(), "secret".to_string()));
}

#[test]
fn register_url_of_default_config() {
    let client = NacosClient::new(&SrsExporterConfig::default());
    assert_eq!(
        client.register_url().unwrap(),
        "http://127.0.0.1:8848/nacos/api/ns/instance?serviceName=srs&ip=127.0.0.1&port=1935&namespaceId=public&group=public&metadata=%7B%22cluster_mode%22%3A%22edge%22%2C%22intranet_host%22%3A%22127.0.0.1%22%2C%22metric_host%22%3A%22127.0.0.1%22%2C%22metric_port%22%3A%229707%22%2C%22metric_path%22%3A%22%2Fmetrics%22%7D"
    );
}

#[test]
fn register_url_refused_for_bad_host() {
    let mut config = SrsExporterConfig::default();
    config.nacos.host = "bad host".to_string();
    assert_eq!(NacosClient::new(&config).register_url(), None);
    assert_eq!(NacosClient::new(&config).beat_url(), None);
}

#[test]
fn grouped_service_name_joins_group_and_service() {
    let mut config = SrsExporterConfig::default();
    config.nacos.group_name = "live".to_string();
    assert_eq!(NacosClient::new(&config).grouped_service_name(), "live@@srs");
}

#[test]
fn beat_text_of_default_config() {
    let client = NacosClient::new(&SrsExporterConfig::default());
    assert_eq!(
        client.beat(),
        format!("{{\"serviceName\":\"public@@srs\",\"ip\":\"127.0.0.1\",\"port\":\"1935\",\"weight\":1,\"metadata\":{}}}", META)
    );
}

#[test]
fn encoded_beat_of_default_config() {
    let client = NacosClient::new(&SrsExporterConfig::default());
    assert_eq!(client.encoded_beat(), ENCODED_BEAT);
}

#[test]
fn encoded_beat_has_no_fragment_characters() {
    let mut config = SrsExporterConfig::default();
    config.srs.domain = "直播 host".to_string();
    let encoded = NacosClient::new(&config).encoded_beat();
    assert!(encoded.is_ascii());
    for c in [' ', '"', '{', '}', ':', ','] {
        assert!(!encoded.contains(c));
    }
    assert!(encoded.contains("%E7%9B%B4%E6%92%AD%20host"));
}

#[test]
fn beat_params_without_auth() {
    let client = NacosClient::new(&SrsExporterConfig::default());
    assert_eq!(
        client.beat_params(),
        pairs(&[("namespaceId", "public"), ("serviceName", "public@@srs"), ("beat", ENCODED_BEAT)])
    );
}

#[test]
fn beat_url_of_default_config() {
    let client = NacosClient::new(&SrsExporterConfig::default());
    assert_eq!(client.beat_url().unwrap(), BEAT_URL);
}

#[test]
fn beat_url_with_auth_carries_credentials() {
    let mut config = SrsExporterConfig::default();
    config.nacos.auth = true;
    config.nacos.password = "p w&d".to_string();
    let client = NacosClient::new(&config);
    assert_eq!(client.beat_url().unwrap(), format!("{}&username=nacos&password=p+w%26d", BEAT_URL));
}

#[test]
fn health_url_is_srs_summary() {
    let mut config = SrsExporterConfig::default();
    config.srs.host = "10.0.0.2".to_string();
    config.srs.http_port = 8080;
    assert_eq!(NacosClient::new(&config).health_url(), "http://10.0.0.2:8080/api/v1/summaries");
}

#[test]
fn registration_outcomes() {
    assert_eq!(register_outcome(true), Ok(()));
    assert_eq!(register_outcome(false), Err(AppError::NacosUnreachable));
    assert_eq!(beat_outcome(true), Ok(()));
    assert_eq!(beat_outcome(false), Err(AppError::NacosUnreachable));
    assert_eq!(srs_health_outcome(true), Ok(()));
    assert_eq!(srs_health_outcome(false), Err(AppError::SrsUnreachable));
}

#[test]
fn ping_pong_round_succeeds_when_both_answer() {
    let s = PingPong::start();
    assert_eq!(s, PingPong::CheckingSrs);
    let s = s.next(true);
    assert_eq!(s, PingPong::SendingBeat);
    assert_eq!(s.outcome(), None);
    let s = s.next(true);
    assert_eq!(s, PingPong::Succeeded);
    assert_eq!(s.outcome(), Some(Ok(())));
    assert_eq!(s.next(false), PingPong::Succeeded);
}

#[test]
fn ping_pong_round_stops_when_srs_is_down() {
    let s = PingPong::start().next(false);
    assert_eq!(s, PingPong::Failed(AppError::SrsUnreachable));
    assert_eq!(s.outcome(), Some(Err(AppError::SrsUnreachable)));
    assert_eq!(s.next(true), s);
}

#[test]
fn ping_pong_round_fails_when_nacos_is_down() {
    let s = PingPong::start().next(true).next(false);
    assert_eq!(s.outcome(), Some(Err(AppError::NacosUnreachable)));
}
