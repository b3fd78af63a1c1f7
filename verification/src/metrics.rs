//! Prometheus metrics of an SRS server: the gauges, their registry, and what the SRS API
//! answers is turned into.

use prometheus::{Gauge, IntGauge, Opts, Registry, TextEncoder};
use vstd::prelude::*;

use crate::config::SrsConfig;
use crate::error::AppError;
use crate::text::{decimal, http_url, http_url_string};

verus! {

#[verifier::external_type_specification]
#[verifier::external_body]
pub struct ExRegistry(Registry);

#[verifier::external_type_specification]
#[verifier::external_body]
pub struct ExPrometheusError(prometheus::Error);

/// The identifier that `prometheus` gives the descriptor of a metric without labels: a hash
/// of its name. A registry refuses a second metric whose descriptor has the same identifier.
pub uninterp spec fn descriptor_id(name: Seq<char>) -> u64;

/// The registry the exporter's gauges are registered in: the names registered in it and the
/// identifiers of their descriptors.
///
/// The `prometheus::Registry` inside is made by `Registry::new`, so it has no name prefix and
/// no common labels; it never leaves this struct, and the only collectors registered in it
/// are the gauges without labels that `register_int_gauge` and `register_float_gauge`
/// register, one for each name of `names` and each identifier of `ids`.
pub struct MetricRegistry {
    registry: Registry,
    names: Ghost<Set<Seq<char>>>,
    ids: Ghost<Set<u64>>,
}

impl MetricRegistry {
    /// The names of the gauges registered.
    pub closed spec fn names(&self) -> Set<Seq<char>> {
        self.names@
    }

    /// The identifiers of the descriptors registered.
    pub closed spec fn ids(&self) -> Set<u64> {
        self.ids@
    }

    /// The `prometheus` registry inside.
    pub closed spec fn inner(&self) -> Registry {
        self.registry
    }

    /// A registry in which nothing is registered.
    pub fn new() -> (r: Self)
        ensures
            r.names() == Set::<Seq<char>>::empty(),
            r.ids() == Set::<u64>::empty(),
    {
        new_registry()
    }
}

/// `Registry::new`: a registry with no prefix, no common labels and no collectors.
#[verifier::external_body]
fn new_registry() -> (r: MetricRegistry)
    ensures
        r.names() == Set::<Seq<char>>::empty(),
        r.ids() == Set::<u64>::empty(),
{
    MetricRegistry { registry: Registry::new(), names: Ghost(Set::empty()), ids: Ghost(Set::empty()) }
}

/// Gauges with the descriptor identifiers `new_ids` can be registered one after the other in
/// a registry that holds `ids`: none is taken, and they are pairwise different.
pub open spec fn ids_free(ids: Set<u64>, new_ids: Seq<u64>) -> bool {
    &&& forall|i: int| 0 <= i < new_ids.len() ==> !ids.contains(#[trigger] new_ids[i])
    &&& forall|i: int, j: int| 0 <= i < j < new_ids.len() ==> #[trigger] new_ids[i] != #[trigger] new_ids[j]
}

/// A `prometheus::IntGauge`, held opaque; its clones share its value.
#[verifier::external_body]
#[derive(Debug)]
struct IntGaugeHandle {
    gauge: IntGauge,
}

/// An integer gauge of the exporter: its name and help text, the value last set through
/// it, and the registry it was registered in.
pub struct MetricGauge {
    handle: IntGaugeHandle,
    id: Ghost<u64>,
    name: Ghost<Seq<char>>,
    help: Ghost<Seq<char>>,
    value: Ghost<i64>,
    registry: Ghost<Option<Registry>>,
}

impl MetricGauge {
    /// The metric name.
    pub closed spec fn name(&self) -> Seq<char> {
        self.name@
    }

    /// The identifier of the gauge's descriptor.
    pub closed spec fn id(&self) -> u64 {
        self.id@
    }

    /// The help text.
    pub closed spec fn help(&self) -> Seq<char> {
        self.help@
    }

    /// The gauge's value.
    pub closed spec fn value(&self) -> i64 {
        self.value@
    }

    /// The registry the gauge is registered in, if any.
    pub closed spec fn registry(&self) -> Option<Registry> {
        self.registry@
    }
}

/// A `prometheus::Gauge`, which holds a floating-point value; its clones share that value,
/// which the program that runs the exporter sets through `gauge`.
#[verifier::external_body]
#[derive(Debug)]
pub struct FloatGaugeHandle {
    pub gauge: Gauge,
}

/// A floating-point gauge of the exporter: its name and help text and the registry it was
/// registered in. Its value is not modelled.
pub struct FloatGauge {
    handle: FloatGaugeHandle,
    id: Ghost<u64>,
    name: Ghost<Seq<char>>,
    help: Ghost<Seq<char>>,
    registry: Ghost<Option<Registry>>,
}

impl FloatGauge {
    /// The metric name.
    pub closed spec fn name(&self) -> Seq<char> {
        self.name@
    }

    /// The identifier of the gauge's descriptor.
    pub closed spec fn id(&self) -> u64 {
        self.id@
    }

    /// The help text.
    pub closed spec fn help(&self) -> Seq<char> {
        self.help@
    }

    /// The registry the gauge is registered in, if any.
    pub closed spec fn registry(&self) -> Option<Registry> {
        self.registry@
    }

    /// The `prometheus` gauge, whose value is set from outside the library.
    pub fn handle(&self) -> &FloatGaugeHandle {
        &self.handle
    }
}

/// A character that may start a metric name: an ASCII letter, `_` or `:`.
pub open spec fn is_metric_name_start(c: char) -> bool {
    ('a' <= c && c <= 'z') || ('A' <= c && c <= 'Z') || c == '_' || c == ':'
}

/// A character that may follow in a metric name: one that may start it, or an ASCII digit.
pub open spec fn is_metric_name_char(c: char) -> bool {
    is_metric_name_start(c) || ('0' <= c && c <= '9')
}

/// A valid Prometheus metric name: `[a-zA-Z_:][a-zA-Z0-9_:]*`.
pub open spec fn valid_metric_name(name: Seq<char>) -> bool {
    &&& name.len() > 0
    &&& is_metric_name_start(name[0])
    &&& forall|i: int| 1 <= i < name.len() ==> is_metric_name_char(#[trigger] name[i])
}

/// `IntGauge::with_opts(Opts::new(name, help))`. The crate builds the gauge's descriptor
/// from this name and help text, with the identifier `descriptor_id(name)`, and the value 0,
/// and refuses exactly an empty help text or an invalid metric name. The new gauge is in no
/// registry.
#[verifier::external_body]
fn new_int_gauge(name: &str, help: &str) -> (r: Result<MetricGauge, prometheus::Error>)
    ensures
        (r is Ok) == (help@.len() > 0 && valid_metric_name(name@)),
        r matches Ok(g) ==> g.name() == name@ && g.help() == help@ && g.value() == 0 && g.registry() is None,
        r matches Ok(g) ==> g.id() == descriptor_id(name@),
{
    IntGauge::with_opts(Opts::new(name, help)).map(|gauge| MetricGauge {
        handle: IntGaugeHandle { gauge },
        id: Ghost(descriptor_id(name@)),
        name: Ghost(name@),
        help: Ghost(help@),
        value: Ghost(0),
        registry: Ghost(None),
    })
}

/// `Gauge::with_opts(Opts::new(name, help))`, the floating-point gauge, built and refused as
/// `IntGauge::with_opts` is.
#[verifier::external_body]
fn new_float_gauge(name: &str, help: &str) -> (r: Result<FloatGauge, prometheus::Error>)
    ensures
        (r is Ok) == (help@.len() > 0 && valid_metric_name(name@)),
        r matches Ok(g) ==> g.name() == name@ && g.help() == help@ && g.registry() is None,
        r matches Ok(g) ==> g.id() == descriptor_id(name@),
{
    Gauge::with_opts(Opts::new(name, help)).map(|gauge| FloatGauge {
        handle: FloatGaugeHandle { gauge },
        id: Ghost(descriptor_id(name@)),
        name: Ghost(name@),
        help: Ghost(help@),
        registry: Ghost(None),
    })
}

/// `Registry::register` of a clone of the integer gauge, which shares the gauge's value. The
/// crate refuses it exactly when the identifier of the gauge's descriptor is one already
/// registered (in this registry, whose collectors are all single gauges without labels, no
/// other check can fail: a name registered before has its identifier registered too); when
/// it is accepted the registry holds the gauge, and when it is refused nothing changes.
#[verifier::external_body]
fn register_int_gauge(registry: &mut MetricRegistry, g: &mut MetricGauge) -> (r: Result<(), prometheus::Error>)
    ensures
        (r is Ok) == !old(registry).ids().contains(old(g).id()),
        final(registry).inner() == old(registry).inner(),
        r is Ok ==> final(registry).names() == old(registry).names().insert(old(g).name()),
        r is Ok ==> final(registry).ids() == old(registry).ids().insert(old(g).id()),
        r is Err ==> final(registry).names() == old(registry).names(),
        r is Err ==> final(registry).ids() == old(registry).ids(),
        final(g).id() == old(g).id(),
        final(g).name() == old(g).name(),
        final(g).help() == old(g).help(),
        final(g).value() == old(g).value(),
        r is Ok ==> final(g).registry() == Some(old(registry).inner()),
        r is Err ==> final(g).registry() == old(g).registry(),
{
    registry.registry.register(Box::new(g.handle.gauge.clone()))
}

/// `Registry::register` of a clone of the floating-point gauge, accepted and refused as for
/// an integer gauge.
#[verifier::external_body]
fn register_float_gauge(registry: &mut MetricRegistry, g: &mut FloatGauge) -> (r: Result<(), prometheus::Error>)
    ensures
        (r is Ok) == !old(registry).ids().contains(old(g).id()),
        final(registry).inner() == old(registry).inner(),
        r is Ok ==> final(registry).names() == old(registry).names().insert(old(g).name()),
        r is Ok ==> final(registry).ids() == old(registry).ids().insert(old(g).id()),
        r is Err ==> final(registry).names() == old(registry).names(),
        r is Err ==> final(registry).ids() == old(registry).ids(),
        final(g).id() == old(g).id(),
        final(g).name() == old(g).name(),
        final(g).help() == old(g).help(),
        r is Ok ==> final(g).registry() == Some(old(registry).inner()),
        r is Err ==> final(g).registry() == old(g).registry(),
{
    registry.registry.register(Box::new(g.handle.gauge.clone()))
}

/// `IntGauge::set`: stores the value in the gauge and in the clones that share it.
#[verifier::external_body]
fn set_int_gauge(g: &mut MetricGauge, value: i64)
    ensures
        final(g).value() == value,
        final(g).id() == old(g).id(),
        final(g).name() == old(g).name(),
        final(g).help() == old(g).help(),
        final(g).registry() == old(g).registry(),
    no_unwind
{
    g.handle.gauge.set(value)
}

/// Why the metrics could not be set up.
#[derive(Clone, Copy, Debug, PartialEq, Eq, Structural)]
pub enum MetricError {
    /// The registry refused a gauge: the identifier of its descriptor was taken.
    Registration,
}

/// The sum of the clients of all streams.
pub open spec fn total_clients(clients: Seq<u32>) -> int
    decreases clients.len(),
{
    if clients.len() == 0 {
        0
    } else {
        total_clients(clients.drop_last()) + clients.last()
    }
}

/// The number of active streams and the number of connected clients over all of them, from
/// the clients of each stream that the SRS API lists.
pub fn stream_totals(clients: &Vec<u32>) -> (r: (i64, i64))
    requires
        clients.len() <= i64::MAX,
        total_clients(clients@) <= i64::MAX,
    ensures
        r.0 == clients.len(),
        r.1 == total_clients(clients@),
    no_unwind
{
    let mut sum: i64 = 0;
    let mut i: usize = 0;
    while i < clients.len()
        invariant
            i <= clients.len(),
            total_clients(clients@) <= i64::MAX,
            sum == total_clients(clients@.take(i as int)),
        decreases clients.len() - i,
    {
        proof {
            assert(clients@.take(i + 1).drop_last() == clients@.take(i as int));
            lemma_total_clients_prefix(clients@, i + 1);
        }
        sum = sum + clients[i] as i64;
        i = i + 1;
    }
    assert(clients@.take(clients.len() as int) == clients@);
    (clients.len() as i64, sum)
}

/// Every listed stream's clients count: no stream gives no clients, one more stream with `c`
/// clients adds `c`, and the total of two lists one after the other is the sum of theirs.
pub proof fn lemma_total_clients_additive(s: Seq<u32>, t: Seq<u32>, c: u32)
    ensures
        total_clients(Seq::<u32>::empty()) == 0,
        total_clients(s.push(c)) == total_clients(s) + c,
        total_clients(s + t) == total_clients(s) + total_clients(t),
    decreases t.len(),
{
    assert(s.push(c).drop_last() =~= s);
    if t.len() == 0 {
        assert(s + t =~= s);
    } else {
        lemma_total_clients_additive(s, t.drop_last(), c);
        assert((s + t).drop_last() =~= s + t.drop_last());
    }
}

/// The clients of a prefix are at most the clients of the whole.
proof fn lemma_total_clients_prefix(s: Seq<u32>, n: int)
    requires
        0 <= n <= s.len(),
    ensures
        total_clients(s.take(n)) <= total_clients(s),
    decreases s.len() - n,
{
    if n < s.len() {
        lemma_total_clients_prefix(s, n + 1);
        assert(s.take(n + 1).drop_last() == s.take(n));
    } else {
        assert(s.take(n) == s);
    }
}

/// The path of the SRS API that lists the streams.
pub open spec fn streams_path() -> Seq<char> {
    "/api/v1/streams/"@
}

/// The path of the SRS API that summarizes the server's state.
pub open spec fn summaries_path() -> Seq<char> {
    "/api/v1/summaries"@
}

/// The path of the SRS API of resource usage.
pub open spec fn rusage_path() -> Seq<char> {
    "/api/v1/rusage/"@
}

/// The URL of an SRS API path on the server's internal host and HTTP port.
pub open spec fn srs_api_url(srs: SrsConfig, path: Seq<char>) -> Seq<char> {
    http_url(srs.host@, srs.http_port, path)
}

/// The URL that lists the streams of the SRS server.
pub fn streams_url(srs: &SrsConfig) -> (r: String)
    ensures
        r@ == srs_api_url(*srs, streams_path()),
{
    http_url_string(srs.host.as_str(), srs.http_port, "/api/v1/streams/")
}

/// The URL of the summary of the SRS server; answering it is also how the server is
/// known to be up.
pub fn summaries_url(srs: &SrsConfig) -> (r: String)
    ensures
        r@ == srs_api_url(*srs, summaries_path()),
{
    http_url_string(srs.host.as_str(), srs.http_port, "/api/v1/summaries")
}

/// Creates an integer gauge with this name and help text and registers it in `registry`;
/// the name and help text are valid, so only the registry can refuse.
fn registered_gauge(registry: &mut MetricRegistry, name: &str, help: &str) -> (r: Result<MetricGauge, MetricError>)
    requires
        help@.len() > 0,
        valid_metric_name(name@),
    ensures
        (r is Ok) == !old(registry).ids().contains(descriptor_id(name@)),
        final(registry).inner() == old(registry).inner(),
        r is Ok ==> final(registry).names() == old(registry).names().insert(name@),
        r is Ok ==> final(registry).ids() == old(registry).ids().insert(descriptor_id(name@)),
        r is Err ==> final(registry).names() == old(registry).names(),
        r is Err ==> final(registry).ids() == old(registry).ids(),
        r matches Ok(g) ==> g.name() == name@ && g.help() == help@ && g.value() == 0,
        r matches Ok(g) ==> g.registry() == Some(final(registry).inner()),
        r is Err ==> r == Err::<MetricGauge, MetricError>(MetricError::Registration),
{
    match new_int_gauge(name, help) {
        Ok(gauge) => {
            let mut gauge = gauge;
            match register_int_gauge(registry, &mut gauge) {
                Ok(()) => Ok(gauge),
                Err(_) => Err(MetricError::Registration),
            }
        },
        Err(_) => Err(MetricError::Registration),
    }
}

/// Creates a floating-point gauge with this name and help text and registers it in
/// `registry`; the name and help text are valid, so only the registry can refuse.
fn registered_float_gauge(registry: &mut MetricRegistry, name: &str, help: &str) -> (r: Result<FloatGauge, MetricError>)
    requires
        help@.len() > 0,
        valid_metric_name(name@),
    ensures
        (r is Ok) == !old(registry).ids().contains(descriptor_id(name@)),
        final(registry).inner() == old(registry).inner(),
        r is Ok ==> final(registry).names() == old(registry).names().insert(name@),
        r is Ok ==> final(registry).ids() == old(registry).ids().insert(descriptor_id(name@)),
        r is Err ==> final(registry).names() == old(registry).names(),
        r is Err ==> final(registry).ids() == old(registry).ids(),
        r matches Ok(g) ==> g.name() == name@ && g.help() == help@,
        r matches Ok(g) ==> g.registry() == Some(final(registry).inner()),
        r is Err ==> r == Err::<FloatGauge, MetricError>(MetricError::Registration),
{
    match new_float_gauge(name, help) {
        Ok(gauge) => {
            let mut gauge = gauge;
            match register_float_gauge(registry, &mut gauge) {
                Ok(()) => Ok(gauge),
                Err(_) => Err(MetricError::Registration),
            }
        },
        Err(_) => Err(MetricError::Registration),
    }
}

/// Name of the gauge of active streams.
pub open spec fn active_total_name() -> Seq<char> {
    "srs_stream_active_total"@
}

/// Help text of the gauge of active streams.
pub open spec fn active_total_help() -> Seq<char> {
    "SRS active streams"@
}

/// Name of the gauge of connected clients.
pub open spec fn clients_total_name() -> Seq<char> {
    "srs_stream_clients_total"@
}

/// Help text of the gauge of connected clients.
pub open spec fn clients_total_help() -> Seq<char> {
    "SRS connected clients"@
}

/// Name of the gauge of SRS's memory use.
pub open spec fn mem_percent_name() -> Seq<char> {
    "srs_mem_percent"@
}

/// Help text of the gauge of SRS's memory use.
pub open spec fn mem_percent_help() -> Seq<char> {
    "SRS mem usage (percent)"@
}

/// Name of the gauge of SRS's CPU use.
pub open spec fn cpu_percent_name() -> Seq<char> {
    "srs_cpu_percent"@
}

/// Help text of the gauge of SRS's CPU use.
pub open spec fn cpu_percent_help() -> Seq<char> {
    "SRS cpu usage (percent)"@
}

/// The descriptor identifiers of the two stream gauges.
pub open spec fn stream_ids() -> Seq<u64> {
    seq![descriptor_id(active_total_name()), descriptor_id(clients_total_name())]
}

/// The descriptor identifiers of the two summary gauges.
pub open spec fn summary_ids() -> Seq<u64> {
    seq![descriptor_id(mem_percent_name()), descriptor_id(cpu_percent_name())]
}

/// Two gauges registered one after the other: if the first is refused nothing changes, if
/// the second is refused the registry keeps the first.
pub open spec fn pair_registered(old_reg: MetricRegistry, new_reg: MetricRegistry, names: Seq<Seq<char>>, ok: bool) -> bool {
    &&& new_reg.inner() == old_reg.inner()
    &&& ok ==> new_reg.names() == old_reg.names().insert(names[0]).insert(names[1])
    &&& ok ==> new_reg.ids() == old_reg.ids().insert(descriptor_id(names[0])).insert(descriptor_id(names[1]))
    &&& !ok ==> (new_reg.names() == old_reg.names() || new_reg.names() == old_reg.names().insert(names[0]))
}

/// The gauges of the streams of an SRS server: how many are active, and how many clients
/// are connected to them.
pub struct StreamCollector {
    srs_url: String,
    total: MetricGauge,
    clients: MetricGauge,
}

impl StreamCollector {
    /// The URL the streams are read from.
    pub closed spec fn url(&self) -> Seq<char> {
        self.srs_url@
    }

    /// The gauge of active streams.
    pub closed spec fn total_gauge(&self) -> MetricGauge {
        self.total
    }

    /// The gauge of connected clients.
    pub closed spec fn clients_gauge(&self) -> MetricGauge {
        self.clients
    }

    /// The two gauges carry their names and help texts.
    pub open spec fn gauges_named(&self) -> bool {
        &&& self.total_gauge().name() == active_total_name()
        &&& self.total_gauge().help() == active_total_help()
        &&& self.clients_gauge().name() == clients_total_name()
        &&& self.clients_gauge().help() == clients_total_help()
    }

    /// Creates the gauges `srs_stream_active_total` and `srs_stream_clients_total`, both 0,
    /// and registers them in `registry`, which holds neither name yet. That succeeds exactly
    /// when the identifiers of their descriptors are free and differ; then the registry holds
    /// these two more, and nothing else new.
    pub fn new(registry: &mut MetricRegistry, srs_config: &SrsConfig) -> (r: Result<Self, MetricError>)
        requires
            !old(registry).names().contains(active_total_name()),
            !old(registry).names().contains(clients_total_name()),
        ensures
            (r is Ok) == ids_free(old(registry).ids(), stream_ids()),
            pair_registered(*old(registry), *final(registry), seq![active_total_name(), clients_total_name()], r is Ok),
            r matches Ok(c) ==> {
                &&& c.url() == srs_api_url(*srs_config, streams_path())
                &&& c.gauges_named()
                &&& c.total_gauge().value() == 0
                &&& c.clients_gauge().value() == 0
                &&& c.total_gauge().registry() == Some(final(registry).inner())
                &&& c.clients_gauge().registry() == Some(final(registry).inner())
            },
            r is Err ==> r == Err::<Self, MetricError>(MetricError::Registration),
    {
        let srs_url = streams_url(srs_config);
        proof {
            reveal_strlit("srs_stream_active_total");
            reveal_strlit("SRS active streams");
            reveal_strlit("srs_stream_clients_total");
            reveal_strlit("SRS connected clients");
        }
        let ghost ids0 = registry.ids();
        let ghost ids = stream_ids();
        let total = match registered_gauge(registry, "srs_stream_active_total", "SRS active streams") {
            Ok(g) => g,
            Err(e) => {
                assert(ids0.contains(ids[0]));
                return Err(e);
            },
        };
        let clients = match registered_gauge(registry, "srs_stream_clients_total", "SRS connected clients") {
            Ok(g) => g,
            Err(e) => {
                assert(ids0.contains(ids[1]) || ids[0] == ids[1]);
                return Err(e);
            },
        };
        assert(ids_free(ids0, ids)) by {
            assert(!ids0.contains(ids[0]));
            assert(!ids0.contains(ids[1]));
        }
        Ok(StreamCollector { srs_url, total, clients })
    }

    /// The URL the streams are read from.
    pub fn srs_url(&self) -> (r: &str)
        ensures
            r@ == self.url(),
    {
        self.srs_url.as_str()
    }

    /// Sets the gauges from the clients of each stream that the SRS API listed: the active
    /// streams gauge to the number of streams, the clients gauge to the sum of their clients.
    pub fn record(&mut self, stream_clients: &Vec<u32>) -> (r: (i64, i64))
        requires
            stream_clients.len() <= i64::MAX,
            total_clients(stream_clients@) <= i64::MAX,
        ensures
            r.0 == stream_clients.len(),
            r.1 == total_clients(stream_clients@),
            final(self).total_gauge().value() == r.0,
            final(self).clients_gauge().value() == r.1,
            final(self).url() == old(self).url(),
            final(self).total_gauge().name() == old(self).total_gauge().name(),
            final(self).total_gauge().help() == old(self).total_gauge().help(),
            final(self).total_gauge().registry() == old(self).total_gauge().registry(),
            final(self).clients_gauge().name() == old(self).clients_gauge().name(),
            final(self).clients_gauge().help() == old(self).clients_gauge().help(),
            final(self).clients_gauge().registry() == old(self).clients_gauge().registry(),
        no_unwind
    {
        let totals = stream_totals(stream_clients);
        set_int_gauge(&mut self.total, totals.0);
        set_int_gauge(&mut self.clients, totals.1);
        totals
    }
}

/// The gauges of SRS's own resource use: memory and CPU, in percent. Their values are
/// floating-point numbers, set from outside the library.
pub struct SummaryCollector {
    srs_url: String,
    mem_percent: FloatGauge,
    cpu_percent: FloatGauge,
}

impl SummaryCollector {
    /// The URL the summary is read from.
    pub closed spec fn url(&self) -> Seq<char> {
        self.srs_url@
    }

    /// The gauge of memory use.
    pub closed spec fn mem_gauge(&self) -> FloatGauge {
        self.mem_percent
    }

    /// The gauge of CPU use.
    pub closed spec fn cpu_gauge(&self) -> FloatGauge {
        self.cpu_percent
    }

    /// The two gauges carry their names and help texts.
    pub open spec fn gauges_named(&self) -> bool {
        &&& self.mem_gauge().name() == mem_percent_name()
        &&& self.mem_gauge().help() == mem_percent_help()
        &&& self.cpu_gauge().name() == cpu_percent_name()
        &&& self.cpu_gauge().help() == cpu_percent_help()
    }

    /// Creates the gauges `srs_mem_percent` and `srs_cpu_percent` and registers them in
    /// `registry`, which holds neither name yet. That succeeds exactly when the identifiers of
    /// their descriptors are free and differ; then the registry holds these two more, and
    /// nothing else new.
    pub fn new(registry: &mut MetricRegistry, srs_config: &SrsConfig) -> (r: Result<Self, MetricError>)
        requires
            !old(registry).names().contains(mem_percent_name()),
            !old(registry).names().contains(cpu_percent_name()),
        ensures
            (r is Ok) == ids_free(old(registry).ids(), summary_ids()),
            pair_registered(*old(registry), *final(registry), seq![mem_percent_name(), cpu_percent_name()], r is Ok),
            r matches Ok(c) ==> {
                &&& c.url() == srs_api_url(*srs_config, summaries_path())
                &&& c.gauges_named()
                &&& c.mem_gauge().registry() == Some(final(registry).inner())
                &&& c.cpu_gauge().registry() == Some(final(registry).inner())
            },
            r is Err ==> r == Err::<Self, MetricError>(MetricError::Registration),
    {
        let srs_url = summaries_url(srs_config);
        proof {
            reveal_strlit("srs_mem_percent");
            reveal_strlit("SRS mem usage (percent)");
            reveal_strlit("srs_cpu_percent");
            reveal_strlit("SRS cpu usage (percent)");
        }
        let ghost ids0 = registry.ids();
        let ghost ids = summary_ids();
        let mem_percent = match registered_float_gauge(registry, "srs_mem_percent", "SRS mem usage (percent)") {
            Ok(g) => g,
            Err(e) => {
                assert(ids0.contains(ids[0]));
                return Err(e);
            },
        };
        let cpu_percent = match registered_float_gauge(registry, "srs_cpu_percent", "SRS cpu usage (percent)") {
            Ok(g) => g,
            Err(e) => {
                assert(ids0.contains(ids[1]) || ids[0] == ids[1]);
                return Err(e);
            },
        };
        assert(ids_free(ids0, ids)) by {
            assert(!ids0.contains(ids[0]));
            assert(!ids0.contains(ids[1]));
        }
        Ok(SummaryCollector { srs_url, mem_percent, cpu_percent })
    }

    /// The URL the summary is read from.
    pub fn srs_url(&self) -> (r: &str)
        ensures
            r@ == self.url(),
    {
        self.srs_url.as_str()
    }

    /// The memory gauge, set from outside the library.
    pub fn mem_percent(&self) -> &FloatGaugeHandle {
        self.mem_percent.handle()
    }

    /// The CPU gauge, set from outside the library.
    pub fn cpu_percent(&self) -> &FloatGaugeHandle {
        self.cpu_percent.handle()
    }
}

/// An integer in decimal, with a leading `-` when it is negative.
pub open spec fn int_text(v: i64) -> Seq<char> {
    if v < 0 {
        seq!['-'] + decimal((-(v as int)) as nat)
    } else {
        decimal(v as nat)
    }
}

/// A help text that the text format writes as it is: no backslash and no line feed.
pub open spec fn plain_help(help: Seq<char>) -> bool {
    forall|i: int| 0 <= i < help.len() ==> #[trigger] help[i] != '\\' && help[i] != '\n'
}

/// A value that the text format writes as its exact decimal integer: the gauge holds it as
/// a 64-bit float, which is exact up to 2^53.
pub open spec fn exact_in_text(v: i64) -> bool {
    -0x20000000000000 <= v <= 0x20000000000000
}

/// The help and type lines the Prometheus text format writes for a gauge.
pub open spec fn gauge_header(name: Seq<char>, help: Seq<char>) -> Seq<char> {
    "# HELP "@ + name + " "@ + help + "\n# TYPE "@ + name + " gauge\n"@
}

/// The lines the Prometheus text format writes for an unlabelled integer gauge: its help,
/// its type and its sample.
pub open spec fn int_gauge_lines(name: Seq<char>, help: Seq<char>, value: i64) -> Seq<char> {
    gauge_header(name, help) + name + " "@ + int_text(value) + "\n"@
}

/// The lines of an integer gauge, from its name, help text and value.
pub open spec fn gauge_exposition(g: MetricGauge) -> Seq<char> {
    int_gauge_lines(g.name(), g.help(), g.value())
}

/// `part` occurs in `text`.
pub open spec fn contains_text(text: Seq<char>, part: Seq<char>) -> bool {
    exists|i: int| 0 <= i && i + part.len() <= text.len() && #[trigger] text.subrange(i, i + part.len()) == part
}

/// `TextEncoder::encode_to_string` of what `Registry::gather` gives: the Prometheus text
/// exposition format of the registered metric families, sorted by name. In this registry
/// every family is a gauge with one sample and a valid name, so the encoding succeeds. For
/// each gauge given that is registered in this registry and has a non-empty help text written
/// as it is, the text holds its help and type lines; for an integer gauge whose value a 64-bit
/// float holds exactly, they are followed by its sample line (no prefix, no labels, no
/// timestamp). The gauges are only read by the contract; the rest of the text, and the
/// sample lines of the floating-point gauges, are not stated.
#[verifier::external_body]
fn encode_registry(
    registry: &MetricRegistry,
    total: &MetricGauge,
    clients: &MetricGauge,
    mem: &FloatGauge,
    cpu: &FloatGauge,
) -> (r: Result<String, prometheus::Error>)
    ensures
        r is Ok,
        r matches Ok(t) ==> (total.registry() == Some(registry.inner()) && total.help().len() > 0 && plain_help(total.help())
            && exact_in_text(total.value()) ==> contains_text(t@, gauge_exposition(*total))),
        r matches Ok(t) ==> (clients.registry() == Some(registry.inner()) && clients.help().len() > 0 && plain_help(clients.help())
            && exact_in_text(clients.value()) ==> contains_text(t@, gauge_exposition(*clients))),
        r matches Ok(t) ==> (mem.registry() == Some(registry.inner()) && mem.help().len() > 0 && plain_help(mem.help())
            ==> contains_text(t@, gauge_header(mem.name(), mem.help()))),
        r matches Ok(t) ==> (cpu.registry() == Some(registry.inner()) && cpu.help().len() > 0 && plain_help(cpu.help())
            ==> contains_text(t@, gauge_header(cpu.name(), cpu.help()))),
{
    TextEncoder::new().encode_to_string(&registry.registry.gather())
}

/// The descriptor identifiers of the four gauges of the exporter.
pub open spec fn exporter_ids() -> Seq<u64> {
    stream_ids() + summary_ids()
}

/// The names of the four gauges of the exporter.
pub open spec fn exporter_names() -> Set<Seq<char>> {
    set![active_total_name(), clients_total_name(), mem_percent_name(), cpu_percent_name()]
}

/// Four identifiers can be registered one after the other exactly when the first two can,
/// and then the last two can.
proof fn lemma_ids_free_four(ids: Set<u64>, a: Seq<u64>, b: Seq<u64>)
    requires
        a.len() == 2,
        b.len() == 2,
    ensures
        ids_free(ids, a + b) == (ids_free(ids, a) && ids_free(ids.insert(a[0]).insert(a[1]), b)),
{
    let s = a + b;
    assert(s[0] == a[0] && s[1] == a[1] && s[2] == b[0] && s[3] == b[1]);
    if ids_free(ids, s) {
        assert forall|i: int| 0 <= i < a.len() implies !ids.contains(#[trigger] a[i]) by {
            assert(a[i] == s[i]);
        }
        assert forall|i: int, j: int| 0 <= i < j < a.len() implies #[trigger] a[i] != #[trigger] a[j] by {
            assert(a[i] == s[i] && a[j] == s[j]);
        }
        assert forall|i: int| 0 <= i < b.len() implies !ids.insert(a[0]).insert(a[1]).contains(#[trigger] b[i]) by {
            assert(b[i] == s[i + 2]);
            assert(!ids.contains(s[i + 2]));
            assert(s[0] != s[i + 2] && s[1] != s[i + 2]);
        }
        assert forall|i: int, j: int| 0 <= i < j < b.len() implies #[trigger] b[i] != #[trigger] b[j] by {
            assert(b[i] == s[i + 2] && b[j] == s[j + 2]);
        }
    }
    if ids_free(ids, a) && ids_free(ids.insert(a[0]).insert(a[1]), b) {
        assert(!ids.contains(a[0]) && !ids.contains(a[1]) && a[0] != a[1]);
        assert(!ids.insert(a[0]).insert(a[1]).contains(b[0]));
        assert(!ids.insert(a[0]).insert(a[1]).contains(b[1]));
        assert(b[0] != b[1]);
        assert forall|i: int| 0 <= i < s.len() implies !ids.contains(#[trigger] s[i]) by {
            if i >= 2 {
                assert(s[i] == b[i - 2]);
            }
        }
        assert forall|i: int, j: int| 0 <= i < j < s.len() implies #[trigger] s[i] != #[trigger] s[j] by {
            if j >= 2 {
                assert(s[j] == b[j - 2]);
            }
            if i >= 2 {
                assert(s[i] == b[i - 2]);
            }
        }
    }
}

/// The registry of the exporter and the gauges registered in it: those of the streams and
/// those of SRS's resource use.
pub struct MetricCollector {
    registry: MetricRegistry,
    stream: StreamCollector,
    summary: SummaryCollector,
}

impl MetricCollector {
    #[verifier::type_invariant]
    spec fn gauges_registered(self) -> bool {
        &&& self.stream.total_gauge().registry() == Some(self.registry.inner())
        &&& self.stream.clients_gauge().registry() == Some(self.registry.inner())
        &&& self.summary.mem_gauge().registry() == Some(self.registry.inner())
        &&& self.summary.cpu_gauge().registry() == Some(self.registry.inner())
        &&& self.stream.gauges_named()
        &&& self.summary.gauges_named()
    }

    /// The stream gauges.
    pub closed spec fn streams(&self) -> StreamCollector {
        self.stream
    }

    /// The gauges of SRS's resource use.
    pub closed spec fn summaries(&self) -> SummaryCollector {
        self.summary
    }

    /// The names registered in the registry.
    pub closed spec fn registered(&self) -> Set<Seq<char>> {
        self.registry.names()
    }

    /// Registers the four gauges of the exporter for the SRS server in `registry`, which
    /// holds none of their names yet, and keeps the registry. That succeeds exactly when the
    /// identifiers of their descriptors are free and pairwise different; then the registry
    /// holds these four more, the stream gauges at 0.
    pub fn new(registry: MetricRegistry, srs_config: SrsConfig) -> (r: Result<Self, MetricError>)
        requires
            registry.names().disjoint(exporter_names()),
        ensures
            (r is Ok) == ids_free(registry.ids(), exporter_ids()),
            r matches Ok(c) ==> {
                &&& c.registered() == registry.names() + exporter_names()
                &&& c.streams().url() == srs_api_url(srs_config, streams_path())
                &&& c.streams().gauges_named()
                &&& c.streams().total_gauge().value() == 0
                &&& c.streams().clients_gauge().value() == 0
                &&& c.summaries().url() == srs_api_url(srs_config, summaries_path())
                &&& c.summaries().gauges_named()
            },
            r is Err ==> r == Err::<Self, MetricError>(MetricError::Registration),
    {
        let mut registry = registry;
        let ghost names0 = registry.names();
        let ghost ids0 = registry.ids();
        proof {
            lemma_ids_free_four(ids0, stream_ids(), summary_ids());
            assert(exporter_names().contains(active_total_name()));
            assert(exporter_names().contains(clients_total_name()));
            assert(exporter_names().contains(mem_percent_name()));
            assert(exporter_names().contains(cpu_percent_name()));
        }
        let stream = match StreamCollector::new(&mut registry, &srs_config) {
            Ok(s) => s,
            Err(e) => return Err(e),
        };
        proof {
            reveal_strlit("srs_stream_active_total");
            reveal_strlit("srs_stream_clients_total");
            reveal_strlit("srs_mem_percent");
            reveal_strlit("srs_cpu_percent");
            assert(active_total_name().len() != mem_percent_name().len());
            assert(active_total_name().len() != cpu_percent_name().len());
            assert(clients_total_name().len() != mem_percent_name().len());
            assert(clients_total_name().len() != cpu_percent_name().len());
        }
        let summary = match SummaryCollector::new(&mut registry, &srs_config) {
            Ok(s) => s,
            Err(e) => return Err(e),
        };
        assert(registry.names() == names0 + exporter_names());
        Ok(MetricCollector { registry, stream, summary })
    }

    /// The stream gauges.
    pub fn stream(&self) -> (r: &StreamCollector)
        ensures
            *r == self.streams(),
    {
        &self.stream
    }

    /// The gauges of SRS's resource use, whose values are set from outside the library.
    pub fn summary(&self) -> (r: &SummaryCollector)
        ensures
            *r == self.summaries(),
    {
        &self.summary
    }

    /// Sets the stream gauges from the clients of each listed stream, as
    /// `StreamCollector::record` does; the other gauges and the registry stay.
    pub fn record_streams(&mut self, stream_clients: &Vec<u32>) -> (r: (i64, i64))
        requires
            stream_clients.len() <= i64::MAX,
            total_clients(stream_clients@) <= i64::MAX,
        ensures
            r.0 == stream_clients.len(),
            r.1 == total_clients(stream_clients@),
            final(self).streams().total_gauge().value() == r.0,
            final(self).streams().clients_gauge().value() == r.1,
            final(self).streams().url() == old(self).streams().url(),
            final(self).summaries() == old(self).summaries(),
            final(self).registered() == old(self).registered(),
    {
        proof {
            use_type_invariant(&*self);
        }
        let r = self.stream.record(stream_clients);
        r
    }

    /// What the text written out of the registry holds: the help, type and sample lines of
    /// both stream gauges, with their current values where a 64-bit float holds them exactly,
    /// and the help and type lines of the memory and CPU gauges.
    pub open spec fn exposes(&self, text: Seq<char>) -> bool {
        &&& exact_in_text(self.streams().total_gauge().value()) ==> contains_text(
            text,
            int_gauge_lines(active_total_name(), active_total_help(), self.streams().total_gauge().value()),
        )
        &&& exact_in_text(self.streams().clients_gauge().value()) ==> contains_text(
            text,
            int_gauge_lines(clients_total_name(), clients_total_help(), self.streams().clients_gauge().value()),
        )
        &&& contains_text(text, gauge_header(mem_percent_name(), mem_percent_help()))
        &&& contains_text(text, gauge_header(cpu_percent_name(), cpu_percent_help()))
    }

    /// The metrics of the registry in the Prometheus text format.
    pub fn encode(&self) -> (r: String)
        ensures
            self.exposes(r@),
    {
        proof {
            use_type_invariant(self);
            reveal_strlit("SRS active streams");
            reveal_strlit("SRS connected clients");
            reveal_strlit("SRS mem usage (percent)");
            reveal_strlit("SRS cpu usage (percent)");
        }
        encode_registry(
            &self.registry,
            &self.stream.total,
            &self.stream.clients,
            &self.summary.mem_percent,
            &self.summary.cpu_percent,
        ).unwrap()
    }

    /// The first step of a scrape, given what reading the streams from SRS gave: the clients
    /// of each stream, or the error. The gauges are set from the streams; after an error every
    /// gauge stays as it was and the scrape ends with that error.
    pub fn record_stream_reply(&mut self, reply: Result<Vec<u32>, AppError>) -> (r: Result<(), AppError>)
        requires
            reply matches Ok(c) ==> c.len() <= i64::MAX && total_clients(c@) <= i64::MAX,
        ensures
            reply matches Err(e) ==> r == Err::<(), AppError>(e) && *final(self) == *old(self),
            reply matches Ok(c) ==> {
                &&& r is Ok
                &&& final(self).streams().total_gauge().value() == c.len()
                &&& final(self).streams().clients_gauge().value() == total_clients(c@)
                &&& final(self).streams().url() == old(self).streams().url()
                &&& final(self).summaries() == old(self).summaries()
                &&& final(self).registered() == old(self).registered()
            },
    {
        match reply {
            Ok(clients) => {
                self.record_streams(&clients);
                Ok(())
            },
            Err(e) => Err(e),
        }
    }

    /// The last step of a scrape, given whether reading SRS's summary (and setting the memory
    /// and CPU gauges from it) succeeded: the metrics in the text format, or that error; the
    /// stream gauges keep what the first step set either way.
    pub fn finish_scrape(&self, summary_reply: Result<(), AppError>) -> (r: Result<String, AppError>)
        ensures
            summary_reply matches Err(e) ==> r == Err::<String, AppError>(e),
            summary_reply is Ok ==> (r matches Ok(t) && self.exposes(t@)),
    {
        match summary_reply {
            Ok(()) => Ok(self.encode()),
            Err(e) => Err(e),
        }
    }
}

/// The resource usage of the SRS server, not yet collected.
#[derive(Debug)]
pub struct ResourceUsage {}

impl ResourceUsage {
    pub fn new() -> (r: Self)
        ensures
            r == (ResourceUsage {}),
    {
        ResourceUsage {}
    }

    /// The line that collecting prints: the path of the resource-usage API.
    pub fn collect(self) -> (line: &'static str)
        ensures
            line@ == rusage_path(),
    {
        "/api/v1/rusage/"
    }
}

} // verus!
