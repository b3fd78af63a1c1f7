//! Registration of the SRS server with Nacos, and the heartbeats that keep it registered.

use percent_encoding::AsciiSet;
use vstd::prelude::*;
use vstd::string::*;
use vstd::utf8::encode_utf8;

use crate::config::{AppConfig, NacosConfig, SrsConfig, SrsExporterConfig};
use crate::error::AppError;
use crate::json_text::{json_object, json_stringify_object, keys_distinct, pairs_view};
use crate::metrics::{srs_api_url, summaries_path, summaries_url};
use crate::percent::{
    ascii_set_bytes, fragment_bytes, fragment_set, lemma_percent_encoded_passes_through, passes_through,
    percent_encode_bytes, utf8_percent_encode_string,
};
use crate::query_url::{parse_url_with_params, url_with_params};
use crate::text::{decimal, http_url, http_url_string, owned, push_decimal};

verus! {

/// The name SRS is registered under.
pub open spec fn service_name() -> Seq<char> {
    "srs"@
}

/// Where the exporter serves the metrics, and the SRS server's role and internal host.
pub open spec fn metadata_pairs(c: SrsExporterConfig) -> Seq<(Seq<char>, Seq<char>)> {
    seq![
        ("cluster_mode"@, c.srs.mode@),
        ("intranet_host"@, c.srs.host@),
        ("metric_host"@, c.app.host@),
        ("metric_port"@, decimal(c.app.port as nat)),
        ("metric_path"@, "/metrics"@),
    ]
}

/// The metadata as a JSON object.
pub open spec fn metadata_json(c: SrsExporterConfig) -> Seq<char> {
    json_object(metadata_pairs(c))
}

/// The credentials sent to Nacos: the user name and password when Nacos asks for them,
/// nothing otherwise.
pub open spec fn credentials(n: NacosConfig) -> Seq<(Seq<char>, Seq<char>)> {
    if n.auth {
        seq![("username"@, n.username@), ("password"@, n.password@)]
    } else {
        seq![]
    }
}

/// The query of the registration: the service, the external address of SRS, where it is
/// registered, the metadata, and the credentials.
pub open spec fn register_params(c: SrsExporterConfig) -> Seq<(Seq<char>, Seq<char>)> {
    seq![
        ("serviceName"@, service_name()),
        ("ip"@, c.srs.domain@),
        ("port"@, decimal(c.srs.rtmp_port as nat)),
        ("namespaceId"@, c.nacos.namespace_id@),
        ("group"@, c.nacos.group_name@),
        ("metadata"@, metadata_json(c)),
    ] + credentials(c.nacos)
}

/// The registration endpoint of the Nacos server.
pub open spec fn register_base(c: SrsExporterConfig) -> Seq<char> {
    http_url(c.nacos.host@, c.nacos.port, "/nacos/api/ns/instance"@)
}

/// The service name qualified by its group: `group@@srs`.
pub open spec fn grouped_service_name(c: SrsExporterConfig) -> Seq<char> {
    c.nacos.group_name@ + "@@"@ + service_name()
}

/// The heartbeat: the grouped service, the external address of SRS, weight 1, and the metadata.
pub open spec fn beat_text(c: SrsExporterConfig) -> Seq<char> {
    "{\"serviceName\":\""@ + grouped_service_name(c) + "\",\"ip\":\""@ + c.srs.domain@
        + "\",\"port\":\""@ + decimal(c.srs.rtmp_port as nat) + "\",\"weight\":1,\"metadata\":"@
        + metadata_json(c) + "}"@
}

/// The heartbeat, percent-encoded with the fragment set.
pub open spec fn encoded_beat(c: SrsExporterConfig) -> Seq<char> {
    percent_encode_bytes(encode_utf8(beat_text(c)), fragment_bytes())
}

/// The query of a heartbeat: where the service is registered, its grouped name, the encoded
/// heartbeat, and the credentials.
pub open spec fn beat_params(c: SrsExporterConfig) -> Seq<(Seq<char>, Seq<char>)> {
    seq![
        ("namespaceId"@, c.nacos.namespace_id@),
        ("serviceName"@, grouped_service_name(c)),
        ("beat"@, encoded_beat(c)),
    ] + credentials(c.nacos)
}

/// The heartbeat endpoint of the Nacos server.
pub open spec fn beat_base(c: SrsExporterConfig) -> Seq<char> {
    http_url(c.nacos.host@, c.nacos.port, "/nacos/v1/ns/instance/beat"@)
}

/// A copy of a string.
fn copy_string(s: &String) -> (r: String)
    ensures
        r == *s,
{
    s.clone()
}

/// A copy of the exporter's section.
fn copy_app(a: &AppConfig) -> (r: AppConfig)
    ensures
        r == *a,
{
    AppConfig { port: a.port, host: copy_string(&a.host) }
}

/// A copy of the SRS section.
fn copy_srs(s: &SrsConfig) -> (r: SrsConfig)
    ensures
        r == *s,
{
    SrsConfig {
        mode: copy_string(&s.mode),
        domain: copy_string(&s.domain),
        rtmp_port: s.rtmp_port,
        host: copy_string(&s.host),
        http_port: s.http_port,
    }
}

/// A copy of the Nacos section.
fn copy_nacos(n: &NacosConfig) -> (r: NacosConfig)
    ensures
        r == *n,
{
    NacosConfig {
        auth: n.auth,
        host: copy_string(&n.host),
        port: n.port,
        namespace_id: copy_string(&n.namespace_id),
        group_name: copy_string(&n.group_name),
        username: copy_string(&n.username),
        password: copy_string(&n.password),
    }
}

/// A copy of the whole configuration.
fn copy_config(c: &SrsExporterConfig) -> (r: SrsExporterConfig)
    ensures
        r == *c,
{
    SrsExporterConfig {
        app: copy_app(&c.app),
        srs: copy_srs(&c.srs),
        nacos: copy_nacos(&c.nacos),
        rest: c.rest.clone(),
    }
}

/// The metadata keys are five different words.
proof fn lemma_metadata_keys_distinct(c: SrsExporterConfig)
    ensures
        keys_distinct(metadata_pairs(c)),
{
    reveal_strlit("cluster_mode");
    reveal_strlit("intranet_host");
    reveal_strlit("metric_host");
    reveal_strlit("metric_port");
    reveal_strlit("metric_path");
    let p = metadata_pairs(c);
    assert(p[0].0[0] != p[1].0[0]);
    assert(p[0].0[0] != p[2].0[0]);
    assert(p[0].0[0] != p[3].0[0]);
    assert(p[0].0[0] != p[4].0[0]);
    assert(p[1].0[0] != p[2].0[0]);
    assert(p[1].0[0] != p[3].0[0]);
    assert(p[1].0[0] != p[4].0[0]);
    assert(p[2].0[7] != p[3].0[7]);
    assert(p[2].0[7] != p[4].0[7]);
    assert(p[3].0[8] != p[4].0[8]);
}

/// A client of the Nacos server that registers SRS as a service.
#[derive(Debug)]
pub struct NacosClient {
    srs_exporter_config: SrsExporterConfig,
    fragment: &'static AsciiSet,
}

impl NacosClient {
    #[verifier::type_invariant]
    spec fn fragment_is_set(self) -> bool {
        ascii_set_bytes(*self.fragment) == fragment_bytes()
    }

    /// The configuration the client registers by.
    pub closed spec fn config(&self) -> SrsExporterConfig {
        self.srs_exporter_config
    }

    /// A client for a copy of the configuration.
    pub fn new(srs_exporter_config: &SrsExporterConfig) -> (r: Self)
        ensures
            r.config() == *srs_exporter_config,
    {
        NacosClient { srs_exporter_config: copy_config(srs_exporter_config), fragment: fragment_set() }
    }

    /// The metadata pairs, in this order: `cluster_mode`, `intranet_host`, `metric_host`,
    /// `metric_port`, `metric_path`.
    pub fn metadata(&self) -> (r: Vec<(String, String)>)
        ensures
            pairs_view(r@) == metadata_pairs(self.config()),
            pairs_view(r@)[1] == ("intranet_host"@, self.config().srs.host@),
            pairs_view(r@)[2] == ("metric_host"@, self.config().app.host@),
    {
        proof {
            lemma_metadata_entries(self.config());
        }
        let c = &self.srs_exporter_config;
        let mut m: Vec<(String, String)> = Vec::new();
        m.push((owned("cluster_mode"), copy_string(&c.srs.mode)));
        m.push((owned("intranet_host"), copy_string(&c.srs.host)));
        m.push((owned("metric_host"), copy_string(&c.app.host)));
        let mut port = String::new();
        push_decimal(&mut port, c.app.port);
        m.push((owned("metric_port"), port));
        m.push((owned("metric_path"), owned("/metrics")));
        assert(pairs_view(m@) =~= metadata_pairs(self.config()));
        m
    }

    /// The metadata as JSON text.
    pub fn metadata_json(&self) -> (r: String)
        ensures
            r@ == metadata_json(self.config()),
    {
        let m = self.metadata();
        proof {
            lemma_metadata_keys_distinct(self.config());
        }
        json_stringify_object(&m)
    }

    /// Adds the credentials when Nacos asks for them.
    fn push_credentials(&self, params: &mut Vec<(String, String)>)
        ensures
            pairs_view(final(params)@) == pairs_view(old(params)@) + credentials(self.config().nacos),
    {
        let n = &self.srs_exporter_config.nacos;
        let ghost before = params@;
        if n.auth {
            params.push((owned("username"), copy_string(&n.username)));
            params.push((owned("password"), copy_string(&n.password)));
            assert(pairs_view(params@) =~= pairs_view(before) + credentials(self.config().nacos));
        } else {
            assert(pairs_view(params@) =~= pairs_view(before) + credentials(self.config().nacos));
        }
    }

    /// The query parameters of the registration.
    pub fn register_params(&self) -> (r: Vec<(String, String)>)
        ensures
            pairs_view(r@) == register_params(self.config()),
            pairs_view(r@)[3] == ("namespaceId"@, self.config().nacos.namespace_id@),
            pairs_view(r@)[4] == ("group"@, self.config().nacos.group_name@),
    {
        proof {
            lemma_register_params_entries(self.config());
        }
        let c = &self.srs_exporter_config;
        let mut p: Vec<(String, String)> = Vec::new();
        p.push((owned("serviceName"), owned("srs")));
        p.push((owned("ip"), copy_string(&c.srs.domain)));
        let mut port = String::new();
        push_decimal(&mut port, c.srs.rtmp_port);
        p.push((owned("port"), port));
        p.push((owned("namespaceId"), copy_string(&c.nacos.namespace_id)));
        p.push((owned("group"), copy_string(&c.nacos.group_name)));
        p.push((owned("metadata"), self.metadata_json()));
        let ghost fixed = p@;
        self.push_credentials(&mut p);
        assert(pairs_view(fixed) =~= register_params(self.config()).take(6));
        assert(pairs_view(p@) =~= register_params(self.config()));
        p
    }

    /// The URL the registration is posted to: the registration endpoint with its query;
    /// `None` when the Nacos host and port do not make a valid URL.
    pub fn register_url(&self) -> (r: Option<String>)
        ensures
            r matches Some(u) ==> url_with_params(register_base(self.config()), register_params(self.config())) == Some(u@),
            r is None ==> url_with_params(register_base(self.config()), register_params(self.config())) is None,
    {
        let n = &self.srs_exporter_config.nacos;
        let base = http_url_string(n.host.as_str(), n.port, "/nacos/api/ns/instance");
        let params = self.register_params();
        parse_url_with_params(base.as_str(), &params)
    }

    /// The service name qualified by the group.
    pub fn grouped_service_name(&self) -> (r: String)
        ensures
            r@ == grouped_service_name(self.config()),
    {
        let mut s = copy_string(&self.srs_exporter_config.nacos.group_name);
        s.append("@@");
        s.append("srs");
        s
    }

    /// The heartbeat text, before encoding.
    pub fn beat(&self) -> (r: String)
        ensures
            r@ == beat_text(self.config()),
            ("{\"serviceName\":\""@ + self.config().nacos.group_name@ + "@@srs\","@).is_prefix_of(r@),
    {
        proof {
            lemma_beat_names_grouped_service(self.config());
        }
        let c = &self.srs_exporter_config;
        let mut b = owned("{\"serviceName\":\"");
        let svc = self.grouped_service_name();
        b.append(svc.as_str());
        b.append("\",\"ip\":\"");
        b.append(c.srs.domain.as_str());
        b.append("\",\"port\":\"");
        push_decimal(&mut b, c.srs.rtmp_port);
        b.append("\",\"weight\":1,\"metadata\":");
        let meta = self.metadata_json();
        b.append(meta.as_str());
        b.append("}");
        b
    }

    /// The heartbeat, percent-encoded with the fragment set.
    pub fn encoded_beat(&self) -> (r: String)
        ensures
            r@ == encoded_beat(self.config()),
    {
        proof {
            use_type_invariant(self);
        }
        let b = self.beat();
        utf8_percent_encode_string(b.as_str(), self.fragment)
    }

    /// The query parameters of a heartbeat.
    pub fn beat_params(&self) -> (r: Vec<(String, String)>)
        ensures
            pairs_view(r@) == beat_params(self.config()),
            pairs_view(r@)[0] == ("namespaceId"@, self.config().nacos.namespace_id@),
            pairs_view(r@)[1] == ("serviceName"@, self.config().nacos.group_name@ + "@@srs"@),
    {
        proof {
            lemma_beat_params_entries(self.config());
        }
        let c = &self.srs_exporter_config;
        let mut p: Vec<(String, String)> = Vec::new();
        p.push((owned("namespaceId"), copy_string(&c.nacos.namespace_id)));
        p.push((owned("serviceName"), self.grouped_service_name()));
        p.push((owned("beat"), self.encoded_beat()));
        let ghost fixed = p@;
        self.push_credentials(&mut p);
        assert(pairs_view(fixed) =~= beat_params(self.config()).take(3));
        assert(pairs_view(p@) =~= beat_params(self.config()));
        p
    }

    /// The URL a heartbeat is put to: the heartbeat endpoint with its query; `None` when the
    /// Nacos host and port do not make a valid URL.
    pub fn beat_url(&self) -> (r: Option<String>)
        ensures
            r matches Some(u) ==> url_with_params(beat_base(self.config()), beat_params(self.config())) == Some(u@),
            r is None ==> url_with_params(beat_base(self.config()), beat_params(self.config())) is None,
    {
        let n = &self.srs_exporter_config.nacos;
        let base = http_url_string(n.host.as_str(), n.port, "/nacos/v1/ns/instance/beat");
        let params = self.beat_params();
        parse_url_with_params(base.as_str(), &params)
    }

    /// The URL that shows whether SRS is up: its summary API.
    pub fn health_url(&self) -> (r: String)
        ensures
            r@ == srs_api_url(self.config().srs, summaries_path()),
    {
        summaries_url(&self.srs_exporter_config.srs)
    }
} // impl NacosClient

/// The encoded heartbeat holds no character of the fragment set and no non-ASCII
/// character: none of the characters that would break the JSON out of the query.
pub proof fn lemma_encoded_beat_passes_through(c: SrsExporterConfig)
    ensures
        forall|i: int| 0 <= i < encoded_beat(c).len() ==> passes_through(#[trigger] encoded_beat(c)[i], fragment_bytes()),
{
    lemma_percent_encoded_passes_through(encode_utf8(beat_text(c)), fragment_bytes());
}

/// A credential key: `username` or `password`.
pub open spec fn is_credential_key(k: Seq<char>) -> bool {
    k == "username"@ || k == "password"@
}

/// Whether a query sends credentials.
pub open spec fn sends_credentials(params: Seq<(Seq<char>, Seq<char>)>) -> bool {
    exists|i: int| 0 <= i < params.len() && is_credential_key(#[trigger] params[i].0)
}

/// Credentials go to Nacos, in the registration and in every heartbeat, exactly when the
/// configuration says that Nacos asks for them.
pub proof fn lemma_credentials_only_with_auth(c: SrsExporterConfig)
    ensures
        sends_credentials(register_params(c)) == c.nacos.auth,
        sends_credentials(beat_params(c)) == c.nacos.auth,
{
    reveal_strlit("username");
    reveal_strlit("password");
    reveal_strlit("serviceName");
    reveal_strlit("ip");
    reveal_strlit("port");
    reveal_strlit("namespaceId");
    reveal_strlit("group");
    reveal_strlit("metadata");
    reveal_strlit("beat");
    let r = register_params(c);
    let b = beat_params(c);
    if c.nacos.auth {
        assert(is_credential_key(r[6].0));
        assert(is_credential_key(b[3].0));
    } else {
        assert forall|i: int| 0 <= i < r.len() implies !is_credential_key(#[trigger] r[i].0) by {
            assert(r[i].0.len() != 8 || r[i].0[0] != 'u' && r[i].0[0] != 'p');
        }
        assert forall|i: int| 0 <= i < b.len() implies !is_credential_key(#[trigger] b[i].0) by {
            assert(b[i].0.len() != 8 || b[i].0[0] != 'u' && b[i].0[0] != 'p');
        }
    }
}

/// The metadata reports, in this order, the cluster mode of SRS, the internal host of SRS as
/// `intranet_host`, and where the exporter itself serves the metrics: its own host and port
/// as `metric_host` and `metric_port`, and the path `/metrics`.
pub proof fn lemma_metadata_entries(c: SrsExporterConfig)
    ensures
        metadata_pairs(c).len() == 5,
        metadata_pairs(c)[0] == ("cluster_mode"@, c.srs.mode@),
        metadata_pairs(c)[1] == ("intranet_host"@, c.srs.host@),
        metadata_pairs(c)[2] == ("metric_host"@, c.app.host@),
        metadata_pairs(c)[3] == ("metric_port"@, decimal(c.app.port as nat)),
        metadata_pairs(c)[4] == ("metric_path"@, "/metrics"@),
{
}

/// The registration names the service `srs`, the external address of SRS (its domain and
/// RTMP port), the configured namespace as `namespaceId` and the configured group as `group`,
/// then the metadata JSON, then the credentials.
pub proof fn lemma_register_params_entries(c: SrsExporterConfig)
    ensures
        register_params(c).len() == 6 + credentials(c.nacos).len(),
        register_params(c)[0] == ("serviceName"@, "srs"@),
        register_params(c)[1] == ("ip"@, c.srs.domain@),
        register_params(c)[2] == ("port"@, decimal(c.srs.rtmp_port as nat)),
        register_params(c)[3] == ("namespaceId"@, c.nacos.namespace_id@),
        register_params(c)[4] == ("group"@, c.nacos.group_name@),
        register_params(c)[5] == ("metadata"@, metadata_json(c)),
        register_params(c).skip(6) == credentials(c.nacos),
{
    assert(register_params(c).skip(6) =~= credentials(c.nacos));
}

/// A heartbeat goes to the namespace the registration names, under the service name
/// qualified by the configured group (`group@@srs`), and carries the encoded heartbeat, then
/// the credentials.
pub proof fn lemma_beat_params_entries(c: SrsExporterConfig)
    ensures
        beat_params(c).len() == 3 + credentials(c.nacos).len(),
        beat_params(c)[0] == ("namespaceId"@, c.nacos.namespace_id@),
        beat_params(c)[0] == register_params(c)[3],
        beat_params(c)[1] == ("serviceName"@, c.nacos.group_name@ + "@@srs"@),
        beat_params(c)[2] == ("beat"@, encoded_beat(c)),
        beat_params(c).skip(3) == credentials(c.nacos),
{
    reveal_strlit("@@srs");
    reveal_strlit("@@");
    reveal_strlit("srs");
    assert("@@"@ + "srs"@ =~= "@@srs"@);
    assert(c.nacos.group_name@ + "@@"@ + "srs"@ =~= c.nacos.group_name@ + "@@srs"@);
    assert(beat_params(c).skip(3) =~= credentials(c.nacos));
}

/// The heartbeat text opens with the service name qualified by the configured group, the
/// same name the heartbeat query sends as `serviceName`.
pub proof fn lemma_beat_names_grouped_service(c: SrsExporterConfig)
    ensures
        ("{\"serviceName\":\""@ + c.nacos.group_name@ + "@@srs\","@).is_prefix_of(beat_text(c)),
        ("{\"serviceName\":\""@ + beat_params(c)[1].1 + "\","@).is_prefix_of(beat_text(c)),
{
    reveal_strlit("{\"serviceName\":\"");
    reveal_strlit("@@srs\",");
    reveal_strlit("@@srs");
    reveal_strlit("@@");
    reveal_strlit("srs");
    reveal_strlit("\",");
    reveal_strlit("\",\"ip\":\"");
    reveal_strlit("\"ip\":\"");
    lemma_beat_params_entries(c);
    let g = c.nacos.group_name@;
    let open = "{\"serviceName\":\""@;
    let p = open + g + "@@srs\","@;
    let t = beat_text(c);
    let rest = "\",\"port\":\""@ + decimal(c.srs.rtmp_port as nat) + "\",\"weight\":1,\"metadata\":"@
        + metadata_json(c) + "}"@;
    assert(t =~= open + (g + "@@"@ + "srs"@) + "\",\"ip\":\""@ + c.srs.domain@ + rest);
    assert(t =~= p + ("\"ip\":\""@ + c.srs.domain@ + rest)) by {
        assert("\",\"ip\":\""@ =~= "\","@ + "\"ip\":\""@);
    };
    assert(t.subrange(0, p.len() as int) =~= p);
    assert(open + (g + "@@srs"@) + "\","@ =~= p);
}

/// The heartbeat reports what the registration registered: after the grouped service name
/// sent as `serviceName`, the registration's `ip` and `port` (SRS's domain and RTMP port),
/// weight 1, and the registration's metadata JSON.
pub proof fn lemma_beat_matches_registration(c: SrsExporterConfig)
    ensures
        beat_text(c) == "{\"serviceName\":\""@ + beat_params(c)[1].1 + "\",\"ip\":\""@ + register_params(c)[1].1
            + "\",\"port\":\""@ + register_params(c)[2].1 + "\",\"weight\":1,\"metadata\":"@
            + register_params(c)[5].1 + "}"@,
        register_params(c)[1].1 == c.srs.domain@,
        register_params(c)[2].1 == decimal(c.srs.rtmp_port as nat),
{
    lemma_register_params_entries(c);
    lemma_beat_params_entries(c);
    reveal_strlit("@@srs");
    reveal_strlit("@@");
    reveal_strlit("srs");
    assert(grouped_service_name(c) =~= c.nacos.group_name@ + "@@srs"@);
}

/// Registration and heartbeat go to the configured Nacos host and port: the registration to
/// `/nacos/api/ns/instance`, the heartbeat to `/nacos/v1/ns/instance/beat`.
pub proof fn lemma_nacos_endpoints(c: SrsExporterConfig)
    ensures
        register_base(c) == http_url(c.nacos.host@, c.nacos.port, "/nacos/api/ns/instance"@),
        beat_base(c) == http_url(c.nacos.host@, c.nacos.port, "/nacos/v1/ns/instance/beat"@),
{
}

/// What became of the registration request: answered by Nacos or not.
pub fn register_outcome(answered: bool) -> (r: Result<(), AppError>)
    ensures
        answered ==> r is Ok,
        !answered ==> r == Err::<(), AppError>(AppError::NacosUnreachable),
{
    if answered {
        Ok(())
    } else {
        Err(AppError::NacosUnreachable)
    }
}

/// What became of a heartbeat: answered by Nacos or not.
pub fn beat_outcome(answered: bool) -> (r: Result<(), AppError>)
    ensures
        answered ==> r is Ok,
        !answered ==> r == Err::<(), AppError>(AppError::NacosUnreachable),
{
    if answered {
        Ok(())
    } else {
        Err(AppError::NacosUnreachable)
    }
}

/// What became of the request to the SRS health URL: answered by SRS or not.
pub fn srs_health_outcome(answered: bool) -> (r: Result<(), AppError>)
    ensures
        answered ==> r is Ok,
        !answered ==> r == Err::<(), AppError>(AppError::SrsUnreachable),
{
    if answered {
        Ok(())
    } else {
        Err(AppError::SrsUnreachable)
    }
}

/// Where a heartbeat round stands: SRS is being checked, the heartbeat is being sent, or
/// the round is over, successfully or with an error.
#[derive(Clone, Copy, Debug, PartialEq, Eq, Structural)]
pub enum PingPong {
    CheckingSrs,
    SendingBeat,
    Succeeded,
    Failed(AppError),
}

impl PingPong {
    /// A round starts by checking that SRS is up.
    pub fn start() -> (r: Self)
        ensures
            r == PingPong::CheckingSrs,
    {
        PingPong::CheckingSrs
    }

    /// The state after the request of this state was answered or not.
    pub open spec fn step(self, answered: bool) -> PingPong {
        match self {
            PingPong::CheckingSrs => if answered { PingPong::SendingBeat } else { PingPong::Failed(AppError::SrsUnreachable) },
            PingPong::SendingBeat => if answered { PingPong::Succeeded } else { PingPong::Failed(AppError::NacosUnreachable) },
            _ => self,
        }
    }

    /// The next state once the request of this state was answered or not: a heartbeat is
    /// sent only after SRS answered; the round succeeds when Nacos answers the heartbeat.
    pub fn next(self, answered: bool) -> (r: Self)
        ensures
            r == self.step(answered),
            self == PingPong::CheckingSrs && answered ==> r == PingPong::SendingBeat,
            self == PingPong::CheckingSrs && !answered ==> r == PingPong::Failed(AppError::SrsUnreachable),
            self == PingPong::SendingBeat && answered ==> r == PingPong::Succeeded,
            self == PingPong::SendingBeat && !answered ==> r == PingPong::Failed(AppError::NacosUnreachable),
            self.is_done() ==> r == self,
    {
        match self {
            PingPong::CheckingSrs => match srs_health_outcome(answered) {
                Ok(()) => PingPong::SendingBeat,
                Err(e) => PingPong::Failed(e),
            },
            PingPong::SendingBeat => match beat_outcome(answered) {
                Ok(()) => PingPong::Succeeded,
                Err(e) => PingPong::Failed(e),
            },
            PingPong::Succeeded => PingPong::Succeeded,
            PingPong::Failed(e) => PingPong::Failed(e),
        }
    }

    /// A round sends a heartbeat exactly when SRS answered, and succeeds exactly when SRS
    /// answered and then Nacos answered the heartbeat; a round that is over stays over.
    pub proof fn lemma_round(srs_answered: bool, nacos_answered: bool)
        ensures
            (PingPong::CheckingSrs.step(srs_answered) == PingPong::SendingBeat) == srs_answered,
            (PingPong::CheckingSrs.step(srs_answered).step(nacos_answered) == PingPong::Succeeded)
                == (srs_answered && nacos_answered),
            PingPong::CheckingSrs.step(srs_answered).step(nacos_answered).is_done(),
    {
    }

    /// Whether the round is over.
    pub open spec fn is_done(self) -> bool {
        self is Succeeded || self is Failed
    }

    /// The result of a round that is over; `None` while it goes on.
    pub fn outcome(self) -> (r: Option<Result<(), AppError>>)
        ensures
            self is Succeeded ==> r == Some(Ok::<(), AppError>(())),
            self matches PingPong::Failed(e) ==> r == Some(Err::<(), AppError>(e)),
            !self.is_done() ==> r is None,
    {
        match self {
            PingPong::Succeeded => Some(Ok(())),
            PingPong::Failed(e) => Some(Err(e)),
            _ => None,
        }
    }
}

} // verus!
