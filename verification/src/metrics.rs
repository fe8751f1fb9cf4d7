//! Latest-value gauges for decoded frames, exported through a prometheus
//! registry. The sink holds the most recent frame's twelve measurements and
//! a last-update instant; on demand it renders every gauge into the text
//! exposition format.

use vstd::prelude::*;

use crate::pms5003::Pms5003Frame;
use prometheus_client::metrics::gauge::Gauge;
use prometheus_client::registry::Registry;

verus! {

/// Staleness threshold in milliseconds: a `last_update` older than this
/// means the sensor feed is no longer fresh. The sink never expires values
/// itself; callers compare against this.
pub const METRICS_TTL_MS: u64 = 10_000;

#[verifier::external_type_specification]
#[verifier::external_body]
pub struct ExRegistry(Registry);

#[verifier::external_type_specification]
#[verifier::external_body]
#[verifier::reject_recursive_types(N)]
#[verifier::reject_recursive_types(A)]
pub struct ExGauge<N, A>(Gauge<N, A>);

#[verifier::external_type_specification]
#[verifier::external_body]
pub struct ExInstant(std::time::Instant);

/// The value a gauge currently holds.
pub uninterp spec fn gauge_value(g: Gauge) -> int;

/// The unprefixed names of the metrics the registry holds, in registration
/// order.
pub uninterp spec fn registry_names(r: Registry) -> Seq<Seq<char>>;

/// The common name prefix the registry was created with.
pub uninterp spec fn registry_prefix(r: Registry) -> Seq<char>;

/// The registry holds plain gauges only: metrics whose text encoding can
/// fail through the writer alone.
pub uninterp spec fn registry_gauges_only(r: Registry) -> bool;

/// `needle` occurs somewhere in `hay` as one contiguous run.
pub open spec fn spec_text_contains(hay: Seq<char>, needle: Seq<char>) -> bool {
    exists|j: int, k: int|
        0 <= j <= k <= hay.len() && k - j == needle.len() && #[trigger] hay.subrange(j, k)
            == needle
}

/// The text mentions every name of `names`, each prefixed with `prefix`
/// and an underscore.
pub open spec fn spec_text_lists_names(
    text: Seq<char>,
    prefix: Seq<char>,
    names: Seq<Seq<char>>,
) -> bool {
    forall|k: int|
        0 <= k < names.len() ==> spec_text_contains(text, prefix + seq!['_'] + names[k])
}

/// Relies on `Gauge::default`: a fresh gauge holds zero.
#[verifier::external_body]
fn gauge_new() -> (g: Gauge)
    ensures
        gauge_value(g) == 0,
{
    Gauge::default()
}

/// Relies on `Gauge::set`: stores `v` as the gauge's current value.
#[verifier::external_body]
fn gauge_set(g: &mut Gauge, v: i64)
    ensures
        gauge_value(*final(g)) == v as int,
{
    g.set(v);
}

/// Relies on `Registry::with_prefix`: a fresh registry that holds no
/// metrics yet and puts the given prefix in front of every registered
/// metric's name.
#[verifier::external_body]
fn registry_with_prefix(prefix: &str) -> (r: Registry)
    ensures
        registry_prefix(r) == prefix@,
        registry_names(r) == Seq::<Seq<char>>::empty(),
        registry_gauges_only(r),
{
    Registry::with_prefix(prefix)
}

/// Relies on `Registry::register` and `Gauge::clone`: appends one metric
/// under the given name, keeping the prefix; the registered handle shares
/// the gauge's cell, so later `set` calls show up in the encoding. What is
/// registered here is a plain gauge, so a gauges-only registry stays one.
#[verifier::external_body]
fn registry_register(r: &mut Registry, name: &str, help: &str, g: &Gauge)
    ensures
        registry_names(*final(r)) == registry_names(*old(r)).push(name@),
        registry_prefix(*final(r)) == registry_prefix(*old(r)),
        registry_gauges_only(*final(r)) == registry_gauges_only(*old(r)),
{
    r.register(name, help, g.clone());
}

/// Relies on `prometheus_client::encoding::text::encode`: renders every
/// registered metric into the text exposition format, writing each
/// metric's prefixed name into the output. Its only failure that does not
/// come from the writer needs a native histogram, and writing into a
/// `String` cannot fail, so a gauges-only registry always encodes.
#[verifier::external_body]
fn encode_text(r: &Registry) -> (out: Option<String>)
    ensures
        registry_gauges_only(*r) ==> out is Some,
        out matches Some(s) ==> spec_text_lists_names(
            s@,
            registry_prefix(*r),
            registry_names(*r),
        ),
{
    let mut out = String::new();
    match prometheus_client::encoding::text::encode(&mut out, r) {
        Ok(()) => Some(out),
        Err(_) => None,
    }
}

/// Relies on `Instant::now`: the current monotonic instant.
#[verifier::external_body]
fn instant_now() -> std::time::Instant {
    std::time::Instant::now()
}

/// Relies on `Instant::checked_sub`: the instant `ms` milliseconds before
/// `t`, or `None` when the clock's origin is nearer to `t` than that.
#[verifier::external_body]
fn instant_sub_ms(t: &std::time::Instant, ms: u64) -> Option<std::time::Instant> {
    t.checked_sub(core::time::Duration::from_millis(ms))
}

/// The twelve gauge values of the sink, as one mathematical snapshot.
pub struct GaugeSnapshot {
    pub pm10: int,
    pub pm25: int,
    pub pm100: int,
    pub pm10_atmos: int,
    pub pm25_atmos: int,
    pub pm100_atmos: int,
    pub pm03_count: int,
    pub pm05_count: int,
    pub pm10_count: int,
    pub pm25_count: int,
    pub pm50_count: int,
    pub pm100_count: int,
}

/// The snapshot a frame's fields induce.
pub open spec fn spec_frame_gauges(f: Pms5003Frame) -> GaugeSnapshot {
    GaugeSnapshot {
        pm10: f.pm10 as int,
        pm25: f.pm25 as int,
        pm100: f.pm100 as int,
        pm10_atmos: f.pm10_atmos as int,
        pm25_atmos: f.pm25_atmos as int,
        pm100_atmos: f.pm100_atmos as int,
        pm03_count: f.pm03_count as int,
        pm05_count: f.pm05_count as int,
        pm10_count: f.pm10_count as int,
        pm25_count: f.pm25_count as int,
        pm50_count: f.pm50_count as int,
        pm100_count: f.pm100_count as int,
    }
}

/// The all-zero snapshot a fresh sink starts from.
pub open spec fn spec_zero_gauges() -> GaugeSnapshot {
    GaugeSnapshot {
        pm10: 0,
        pm25: 0,
        pm100: 0,
        pm10_atmos: 0,
        pm25_atmos: 0,
        pm100_atmos: 0,
        pm03_count: 0,
        pm05_count: 0,
        pm10_count: 0,
        pm25_count: 0,
        pm50_count: 0,
        pm100_count: 0,
    }
}

/// The single failure `encode` can report: a formatting fault inside the
/// text encoder.
#[derive(Debug, Clone, Copy, PartialEq, Eq, Structural)]
pub struct EncodeError;

/// The measurement sink: twelve gauges holding the latest decoded frame's
/// fields, the registry they are exported through, and when they were last
/// written.
pub struct Metrics {
    registry: Registry,
    /// When `update` last ran. A fresh sink starts with this beyond the
    /// staleness threshold in the past, so a health check can tell "never
    /// updated" from "fresh".
    pub last_update: std::time::Instant,
    pm10: Gauge,
    pm25: Gauge,
    pm100: Gauge,
    pm10_atmos: Gauge,
    pm25_atmos: Gauge,
    pm100_atmos: Gauge,
    pm03_count: Gauge,
    pm05_count: Gauge,
    pm10_count: Gauge,
    pm25_count: Gauge,
    pm50_count: Gauge,
    pm100_count: Gauge,
}

/// The twelve metric names the sink registers, in registration order.
pub open spec fn spec_metric_names() -> Seq<Seq<char>> {
    seq![
        "pm10"@,
        "pm25"@,
        "pm100"@,
        "pm10_atmos"@,
        "pm25_atmos"@,
        "pm100_atmos"@,
        "pm03_count"@,
        "pm05_count"@,
        "pm10_count"@,
        "pm25_count"@,
        "pm50_count"@,
        "pm100_count"@,
    ]
}

impl Metrics {
    /// The registry the sink exports through; the field is private, this
    /// names its value for contracts.
    pub closed spec fn spec_registry(self) -> Registry {
        self.registry
    }

    /// The values the twelve gauges currently hold.
    pub closed spec fn gauges(self) -> GaugeSnapshot {
        GaugeSnapshot {
            pm10: gauge_value(self.pm10),
            pm25: gauge_value(self.pm25),
            pm100: gauge_value(self.pm100),
            pm10_atmos: gauge_value(self.pm10_atmos),
            pm25_atmos: gauge_value(self.pm25_atmos),
            pm100_atmos: gauge_value(self.pm100_atmos),
            pm03_count: gauge_value(self.pm03_count),
            pm05_count: gauge_value(self.pm05_count),
            pm10_count: gauge_value(self.pm10_count),
            pm25_count: gauge_value(self.pm25_count),
            pm50_count: gauge_value(self.pm50_count),
            pm100_count: gauge_value(self.pm100_count),
        }
    }

    /// A sink whose registry holds exactly the twelve documented gauges
    /// under the common prefix, all reading zero, with `last_update`
    /// placed beyond the staleness threshold in the past (or at the
    /// present when the clock's origin is nearer than the threshold).
    pub fn new() -> (m: Metrics)
        ensures
            m.gauges() == spec_zero_gauges(),
            registry_prefix(m.spec_registry()) == "pm"@,
            registry_names(m.spec_registry()) == spec_metric_names(),
            registry_gauges_only(m.spec_registry()),
    {
        let mut registry = registry_with_prefix("pm");

        let pm10 = gauge_new();
        registry_register(
            &mut registry,
            "pm10",
            "PM1.0 concentration in ug/m3, corrected for standard atmosphere",
            &pm10,
        );
        let pm25 = gauge_new();
        registry_register(
            &mut registry,
            "pm25",
            "PM2.5 concentration in ug/m3, corrected for standard atmosphere",
            &pm25,
        );
        let pm100 = gauge_new();
        registry_register(
            &mut registry,
            "pm100",
            "PM10 concentration in ug/m3, corrected for standard atmosphere",
            &pm100,
        );
        let pm10_atmos = gauge_new();
        registry_register(
            &mut registry,
            "pm10_atmos",
            "PM1.0 concentration in ug/m3, in the current atmosphere",
            &pm10_atmos,
        );
        let pm25_atmos = gauge_new();
        registry_register(
            &mut registry,
            "pm25_atmos",
            "PM2.5 concentration in ug/m3, in the current atmosphere",
            &pm25_atmos,
        );
        let pm100_atmos = gauge_new();
        registry_register(
            &mut registry,
            "pm100_atmos",
            "PM10 concentration in ug/m3, in the current atmosphere",
            &pm100_atmos,
        );
        let pm03_count = gauge_new();
        registry_register(
            &mut registry,
            "pm03_count",
            "Number of particles larger than 0.3um per 0.1L of air",
            &pm03_count,
        );
        let pm05_count = gauge_new();
        registry_register(
            &mut registry,
            "pm05_count",
            "Number of particles larger than 0.5um per 0.1L of air",
            &pm05_count,
        );
        let pm10_count = gauge_new();
        registry_register(
            &mut registry,
            "pm10_count",
            "Number of particles larger than 1.0um per 0.1L of air",
            &pm10_count,
        );
        let pm25_count = gauge_new();
        registry_register(
            &mut registry,
            "pm25_count",
            "Number of particles larger than 2.5um per 0.1L of air",
            &pm25_count,
        );
        let pm50_count = gauge_new();
        registry_register(
            &mut registry,
            "pm50_count",
            "Number of particles larger than 5.0um per 0.1L of air",
            &pm50_count,
        );
        let pm100_count = gauge_new();
        registry_register(
            &mut registry,
            "pm100_count",
            "Number of particles larger than 10.0um per 0.1L of air",
            &pm100_count,
        );

        proof {
            assert(registry_names(registry) =~= spec_metric_names());
        }

        let now = instant_now();
        let last_update = match instant_sub_ms(&now, METRICS_TTL_MS) {
            Some(t) => t,
            None => now,
        };

        Metrics {
            registry,
            last_update,
            pm10,
            pm25,
            pm100,
            pm10_atmos,
            pm25_atmos,
            pm100_atmos,
            pm03_count,
            pm05_count,
            pm10_count,
            pm25_count,
            pm50_count,
            pm100_count,
        }
    }

    /// Overwrite all twelve gauges with the frame's fields and refresh
    /// `last_update` to the present. Any frame is trusted: only validated
    /// frames exist. Nothing but the gauge values and `last_update`
    /// changes: the registry — names, prefix, what is registered — stays
    /// as it is.
    pub fn update(&mut self, frame: &Pms5003Frame)
        ensures
            final(self).gauges() == spec_frame_gauges(*frame),
            final(self).spec_registry() == old(self).spec_registry(),
    {
        gauge_set(&mut self.pm10, frame.pm10 as i64);
        gauge_set(&mut self.pm25, frame.pm25 as i64);
        gauge_set(&mut self.pm100, frame.pm100 as i64);
        gauge_set(&mut self.pm10_atmos, frame.pm10_atmos as i64);
        gauge_set(&mut self.pm25_atmos, frame.pm25_atmos as i64);
        gauge_set(&mut self.pm100_atmos, frame.pm100_atmos as i64);
        gauge_set(&mut self.pm03_count, frame.pm03_count as i64);
        gauge_set(&mut self.pm05_count, frame.pm05_count as i64);
        gauge_set(&mut self.pm10_count, frame.pm10_count as i64);
        gauge_set(&mut self.pm25_count, frame.pm25_count as i64);
        gauge_set(&mut self.pm50_count, frame.pm50_count as i64);
        gauge_set(&mut self.pm100_count, frame.pm100_count as i64);
        self.last_update = instant_now();
    }

    /// Render every gauge into the text exposition format: a snapshot that
    /// names each registered metric under the common prefix. On a
    /// gauges-only registry — and this sink never holds anything else —
    /// encoding into a string cannot fail, so the error is owed to nobody;
    /// sink state is untouched either way.
    pub fn encode(&self) -> (r: Result<String, EncodeError>)
        ensures
            registry_gauges_only(self.spec_registry()) ==> r is Ok,
            r matches Ok(s) ==> spec_text_lists_names(
                s@,
                registry_prefix(self.spec_registry()),
                registry_names(self.spec_registry()),
            ),
    {
        match encode_text(&self.registry) {
            Some(s) => Ok(s),
            None => Err(EncodeError),
        }
    }
}

/// Law: updating the sink with identical frames is idempotent. Two sinks
/// whose gauges both reflect the same frame hold equal gauge values, and
/// `update` leaves the registry untouched by its own contract, so between
/// repeated identical updates only `last_update` may differ.
pub proof fn lemma_update_idempotent(a: GaugeSnapshot, b: GaugeSnapshot, f: Pms5003Frame)
    requires
        a == spec_frame_gauges(f),
        b == spec_frame_gauges(f),
    ensures
        a == b,
{
}

} // verus!
