//! The exporter's configuration: the exporter itself, the SRS server and the Nacos server.

use vstd::prelude::*;

use crate::text::owned;

verus! {

#[verifier::external_type_specification]
#[verifier::external_body]
pub struct ExTomlValue(toml::Value);

/// The keys of a TOML value that is a table; `None` for any other value.
pub uninterp spec fn toml_table_keys(v: toml::Value) -> Option<Set<Seq<char>>>;

/// The entry under `key` of a TOML value that is a table; `None` when it has no such entry,
/// and for any other value.
pub uninterp spec fn toml_table_get(v: toml::Value, key: Seq<char>) -> Option<toml::Value>;

/// The derived `Clone` of `toml::Value`: a structural copy, equal to the original.
pub assume_specification[ <toml::Value as Clone>::clone ](v: &toml::Value) -> (r: toml::Value)
    ensures
        r == *v,
;

/// `toml::Value::Table(toml::value::Table::default())`: a table without keys.
#[verifier::external_body]
fn toml_empty_table() -> (v: toml::Value)
    ensures
        toml_table_keys(v) == Some(Set::<Seq<char>>::empty()),
        forall|k: Seq<char>| #[trigger] toml_table_get(v, k) is None,
{
    toml::Value::Table(toml::value::Table::default())
}

/// Whether the value is the `Table` variant.
#[verifier::external_body]
fn toml_is_table(v: &toml::Value) -> (b: bool)
    ensures
        b == (toml_table_keys(*v) is Some),
{
    match v {
        toml::Value::Table(_) => true,
        _ => false,
    }
}

/// `toml::map::Map::remove` on a table: takes the entry of `key` out, if there is one.
#[verifier::external_body]
fn toml_table_remove(v: &mut toml::Value, key: &str) -> (r: Option<toml::Value>)
    requires
        toml_table_keys(*old(v)) is Some,
    ensures
        toml_table_keys(*final(v)) == Some(toml_table_keys(*old(v)).unwrap().remove(key@)),
        (r is Some) == toml_table_keys(*old(v)).unwrap().contains(key@),
        r == toml_table_get(*old(v), key@),
        toml_table_get(*final(v), key@) is None,
        forall|k: Seq<char>| k != key@ ==> #[trigger] toml_table_get(*final(v), k) == toml_table_get(*old(v), k),
{
    match v {
        toml::Value::Table(t) => t.remove(key),
        _ => None,
    }
}

/// `toml::map::Map::insert` on a table: sets the entry of `key`.
#[verifier::external_body]
fn toml_table_insert(v: &mut toml::Value, key: &str, value: toml::Value)
    requires
        toml_table_keys(*old(v)) is Some,
    ensures
        toml_table_keys(*final(v)) == Some(toml_table_keys(*old(v)).unwrap().insert(key@)),
        toml_table_get(*final(v), key@) == Some(value),
        forall|k: Seq<char>| k != key@ ==> #[trigger] toml_table_get(*final(v), k) == toml_table_get(*old(v), k),
{
    if let toml::Value::Table(t) = v {
        t.insert(key.to_string(), value);
    }
}

/// The exporter's own address, reported to Nacos as where metrics are served.
#[derive(Clone, Debug, PartialEq, Eq)]
pub struct AppConfig {
    /// Port of the metrics endpoint.
    pub port: u16,
    /// Host of the metrics endpoint.
    pub host: String,
}

/// The SRS server.
#[derive(Clone, Debug, PartialEq, Eq)]
pub struct SrsConfig {
    /// `origin` or `edge`.
    pub mode: String,
    /// Host for external clients.
    pub domain: String,
    /// RTMP port for external clients.
    pub rtmp_port: u16,
    /// Host for internal services.
    pub host: String,
    /// Port of the HTTP API.
    pub http_port: u16,
}

/// The Nacos server and the namespace the service is registered in.
#[derive(Clone, Debug, PartialEq, Eq)]
pub struct NacosConfig {
    /// Whether Nacos asks for credentials.
    pub auth: bool,
    pub host: String,
    pub port: u16,
    pub namespace_id: String,
    pub group_name: String,
    pub username: String,
    pub password: String,
}

/// The exporter's address when the file gives none.
pub open spec fn is_default_app(a: AppConfig) -> bool {
    a.port == 9707 && a.host@ == "127.0.0.1"@
}

/// The SRS server when the file gives none: an edge on the local host with the standard ports.
pub open spec fn is_default_srs(s: SrsConfig) -> bool {
    &&& s.mode@ == "edge"@
    &&& s.domain@ == "127.0.0.1"@
    &&& s.rtmp_port == 1935
    &&& s.host@ == "127.0.0.1"@
    &&& s.http_port == 1985
}

/// The Nacos server when the file gives none: local, without credentials, namespace and group `public`.
pub open spec fn is_default_nacos(n: NacosConfig) -> bool {
    &&& !n.auth
    &&& n.host@ == "127.0.0.1"@
    &&& n.port == 8848
    &&& n.namespace_id@ == "public"@
    &&& n.group_name@ == "public"@
    &&& n.username@ == "nacos"@
    &&& n.password@ == "nacos"@
}

impl Default for AppConfig {
    fn default() -> (r: Self)
        ensures
            is_default_app(r),
    {
        AppConfig { port: 9707, host: owned("127.0.0.1") }
    }
}

impl Default for SrsConfig {
    fn default() -> (r: Self)
        ensures
            is_default_srs(r),
    {
        SrsConfig {
            mode: owned("edge"),
            domain: owned("127.0.0.1"),
            rtmp_port: 1935,
            host: owned("127.0.0.1"),
            http_port: 1985,
        }
    }
}

impl Default for NacosConfig {
    fn default() -> (r: Self)
        ensures
            is_default_nacos(r),
    {
        NacosConfig {
            auth: false,
            host: owned("127.0.0.1"),
            port: 8848,
            namespace_id: owned("public"),
            group_name: owned("public"),
            username: owned("nacos"),
            password: owned("nacos"),
        }
    }
}

/// The whole configuration file: the three known sections and every other top-level entry.
#[derive(Clone, Debug, PartialEq)]
pub struct SrsExporterConfig {
    pub app: AppConfig,
    pub srs: SrsConfig,
    pub nacos: NacosConfig,
    /// The other top-level entries of the file, kept so that the file can be written back.
    pub rest: toml::Value,
}

/// Why a configuration document is refused.
#[derive(Clone, Copy, Debug, PartialEq, Eq)]
pub enum ConfigError {
    /// The document is not a TOML table.
    NotATable,
}

impl ConfigError {
    /// The message the refusal is reported with.
    pub fn message(&self) -> (m: &'static str)
        ensures
            m@ == "A config file should always be a toml table"@,
    {
        "A config file should always be a toml table"
    }
}

/// The sections of a configuration document, split from its other entries.
pub struct ConfigSections {
    /// The `app` entry, if the document has one.
    pub app: Option<toml::Value>,
    /// The `srs` entry, if the document has one.
    pub srs: Option<toml::Value>,
    /// The `nacos` entry, if the document has one.
    pub nacos: Option<toml::Value>,
    /// The document without those three entries.
    pub rest: toml::Value,
}

/// The keys that hold the known sections.
pub open spec fn section_keys() -> Set<Seq<char>> {
    set!["app"@, "srs"@, "nacos"@]
}

/// `rest` holds the entries of `doc` under every key outside `section_keys()`, and none
/// under those keys.
pub open spec fn rest_of(doc: toml::Value, rest: toml::Value) -> bool {
    &&& toml_table_keys(rest) == Some(toml_table_keys(doc).unwrap().difference(section_keys()))
    &&& forall|k: Seq<char>| !section_keys().contains(k) ==> #[trigger] toml_table_get(rest, k) == toml_table_get(doc, k)
    &&& forall|k: Seq<char>| section_keys().contains(k) ==> #[trigger] toml_table_get(rest, k) is None
}

/// `s` is the table `doc` split: each section is the document's entry under its key, and the
/// rest holds the other entries.
pub open spec fn is_split(doc: toml::Value, s: ConfigSections) -> bool {
    &&& s.app == toml_table_get(doc, "app"@)
    &&& s.srs == toml_table_get(doc, "srs"@)
    &&& s.nacos == toml_table_get(doc, "nacos"@)
    &&& (s.app is Some) == toml_table_keys(doc).unwrap().contains("app"@)
    &&& (s.srs is Some) == toml_table_keys(doc).unwrap().contains("srs"@)
    &&& (s.nacos is Some) == toml_table_keys(doc).unwrap().contains("nacos"@)
    &&& rest_of(doc, s.rest)
}

/// Splits a configuration document into its known sections and the rest: refused unless it
/// is a table; each section is the document's entry under its key, if it has one; the rest
/// keeps every other entry.
pub fn split_sections(doc: toml::Value) -> (r: Result<ConfigSections, ConfigError>)
    ensures
        (r is Err) == (toml_table_keys(doc) is None),
        r matches Ok(s) ==> is_split(doc, s),
{
    if !toml_is_table(&doc) {
        return Err(ConfigError::NotATable);
    }
    let ghost keys = toml_table_keys(doc).unwrap();
    proof {
        reveal_strlit("app");
        reveal_strlit("srs");
        reveal_strlit("nacos");
        assert("app"@[0] != "srs"@[0]);
        assert("app"@[0] != "nacos"@[0]);
        assert("srs"@[0] != "nacos"@[0]);
    }
    let ghost d = doc;
    let mut rest = doc;
    let app = toml_table_remove(&mut rest, "app");
    let ghost k1 = keys.remove("app"@);
    assert(toml_table_keys(rest) == Some(k1));
    let ghost r1 = rest;
    let srs = toml_table_remove(&mut rest, "srs");
    let ghost k2 = k1.remove("srs"@);
    assert(k1.contains("srs"@) == keys.contains("srs"@));
    let ghost r2 = rest;
    let nacos = toml_table_remove(&mut rest, "nacos");
    assert(k2.contains("nacos"@) == keys.contains("nacos"@));
    assert(k2.remove("nacos"@) =~= keys.difference(section_keys()));
    assert(srs == toml_table_get(d, "srs"@));
    assert(nacos == toml_table_get(d, "nacos"@));
    assert forall|k: Seq<char>| !section_keys().contains(k) implies #[trigger] toml_table_get(rest, k) == toml_table_get(d, k) by {
        assert(toml_table_get(r1, k) == toml_table_get(d, k));
        assert(toml_table_get(r2, k) == toml_table_get(r1, k));
    }
    assert forall|k: Seq<char>| section_keys().contains(k) implies #[trigger] toml_table_get(rest, k) is None by {
        if k == "app"@ {
            assert(toml_table_get(r2, k) == toml_table_get(r1, k));
        } else if k == "srs"@ {
        }
    }
    Ok(ConfigSections { app, srs, nacos, rest })
}

impl Default for SrsExporterConfig {
    fn default() -> (r: Self)
        ensures
            is_default_app(r.app),
            is_default_srs(r.srs),
            is_default_nacos(r.nacos),
            toml_table_keys(r.rest) == Some(Set::<Seq<char>>::empty()),
            forall|k: Seq<char>| #[trigger] toml_table_get(r.rest, k) is None,
    {
        SrsExporterConfig {
            app: AppConfig::default(),
            srs: SrsConfig::default(),
            nacos: NacosConfig::default(),
            rest: toml_empty_table(),
        }
    }
}

/// The keys of a document written from other entries and the three sections.
pub open spec fn joined_keys(rest_keys: Set<Seq<char>>) -> Set<Seq<char>> {
    rest_keys.insert("app"@).insert("srs"@).insert("nacos"@)
}

/// `doc` is the table `rest` with the three sections set under their keys.
pub open spec fn is_joined(rest: toml::Value, app: toml::Value, srs: toml::Value, nacos: toml::Value, doc: toml::Value) -> bool {
    &&& toml_table_keys(doc) == Some(joined_keys(toml_table_keys(rest).unwrap()))
    &&& toml_table_get(doc, "app"@) == Some(app)
    &&& toml_table_get(doc, "srs"@) == Some(srs)
    &&& toml_table_get(doc, "nacos"@) == Some(nacos)
    &&& forall|k: Seq<char>| !section_keys().contains(k) ==> #[trigger] toml_table_get(doc, k) == toml_table_get(rest, k)
}

/// The document to write: the other entries, with the three sections set under their keys.
/// Other entries that do not form a table are returned as they are.
pub fn join_sections(rest: toml::Value, app: toml::Value, srs: toml::Value, nacos: toml::Value) -> (r: toml::Value)
    ensures
        toml_table_keys(rest) is Some ==> is_joined(rest, app, srs, nacos, r),
        toml_table_keys(rest) is None ==> r == rest,
{
    if !toml_is_table(&rest) {
        return rest;
    }
    proof {
        reveal_strlit("app");
        reveal_strlit("srs");
        reveal_strlit("nacos");
        assert("app"@[0] != "srs"@[0]);
        assert("app"@[0] != "nacos"@[0]);
        assert("srs"@[0] != "nacos"@[0]);
    }
    let ghost r0 = rest;
    let mut doc = rest;
    toml_table_insert(&mut doc, "app", app);
    let ghost d1 = doc;
    toml_table_insert(&mut doc, "srs", srs);
    let ghost d2 = doc;
    toml_table_insert(&mut doc, "nacos", nacos);
    assert(toml_table_get(d2, "app"@) == toml_table_get(d1, "app"@));
    assert forall|k: Seq<char>| !section_keys().contains(k) implies #[trigger] toml_table_get(doc, k) == toml_table_get(r0, k) by {
        assert(toml_table_get(d1, k) == toml_table_get(r0, k));
        assert(toml_table_get(d2, k) == toml_table_get(d1, k));
    }
    doc
}

/// Writing the sections into the other entries and splitting the document again gives back
/// the three sections and exactly the other entries.
pub proof fn lemma_join_then_split(
    rest: toml::Value,
    app: toml::Value,
    srs: toml::Value,
    nacos: toml::Value,
    doc: toml::Value,
    s: ConfigSections,
)
    requires
        toml_table_keys(rest) is Some,
        is_joined(rest, app, srs, nacos, doc),
        is_split(doc, s),
    ensures
        s.app == Some(app),
        s.srs == Some(srs),
        s.nacos == Some(nacos),
        toml_table_keys(s.rest) == Some(toml_table_keys(rest).unwrap().difference(section_keys())),
        forall|k: Seq<char>| !section_keys().contains(k) ==> #[trigger] toml_table_get(s.rest, k) == toml_table_get(rest, k),
{
    let keys = toml_table_keys(rest).unwrap();
    assert(joined_keys(keys).difference(section_keys()) =~= keys.difference(section_keys()));
    assert forall|k: Seq<char>| !section_keys().contains(k) implies #[trigger] toml_table_get(s.rest, k) == toml_table_get(rest, k) by {
        assert(toml_table_get(s.rest, k) == toml_table_get(doc, k));
    }
}

impl SrsExporterConfig {
    /// The configuration from its sections: each missing section takes its default.
    pub fn from_sections(
        app: Option<AppConfig>,
        srs: Option<SrsConfig>,
        nacos: Option<NacosConfig>,
        rest: toml::Value,
    ) -> (r: Self)
        ensures
            app matches Some(a) ==> r.app == a,
            srs matches Some(s) ==> r.srs == s,
            nacos matches Some(n) ==> r.nacos == n,
            app is None ==> is_default_app(r.app),
            srs is None ==> is_default_srs(r.srs),
            nacos is None ==> is_default_nacos(r.nacos),
            r.rest == rest,
    {
        SrsExporterConfig {
            app: match app { Some(a) => a, None => AppConfig::default() },
            srs: match srs { Some(s) => s, None => SrsConfig::default() },
            nacos: match nacos { Some(n) => n, None => NacosConfig::default() },
            rest,
        }
    }
}

} // verus!
