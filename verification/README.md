# srs_exporter

An exporter for the SRS media server: it serves SRS metrics in the Prometheus text format
and keeps SRS registered as a service in Nacos.

- `src/` is the library, verified with Verus: the configuration and its defaults, the
  splitting of a configuration document into its sections, the Nacos registration and
  heartbeat requests (metadata JSON, percent-encoded heartbeat, query URLs, credentials),
  the heartbeat round as a state machine, and the metrics: a registry of the library's own
  with the four gauges of the exporter, the stream gauges set from the SRS stream list, the
  steps of a scrape, and the lines of the exported text.
- `app/` is the program around it: reading the configuration file, the HTTP server, the
  requests to SRS and Nacos, and setting the CPU and memory gauges, whose values are
  floating-point.
- `tests/` exercises the library on concrete values.
