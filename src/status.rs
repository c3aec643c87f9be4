//! Building the status document: each configured sensor's query result is
//! validated, the surviving readings are gathered per category in
//! configuration order, and the result is laid over the template.

use vstd::prelude::*;
use crate::configuration::{DoorSettings, SensorSettings, Sensors as SensorConfig};
use crate::spaceapi::{Sensor, Sensors, SpaceApi, State};
use crate::telemetry::QueryError;
use crate::validator::{is_fresh, validate, SensorReading};

verus! {

/// The answer of the telemetry store to the query for one sensor.
pub type QueryResult<V> = Result<SensorReading<V>, QueryError>;

/// The answers of the telemetry store for every configured sensor: one per
/// sensor of each category, in configuration order. A sensor without an
/// answer counts as a failed query.
pub struct TelemetrySnapshot<F> {
    pub door: QueryResult<bool>,
    pub temperature: Vec<QueryResult<F>>,
    pub humidity: Vec<QueryResult<F>>,
    pub carbondioxide: Vec<QueryResult<u64>>,
}

/// What the `i`-th sensor of a category publishes: its fresh reading, or
/// nothing when its query failed or its reading is too old.
pub open spec fn entry_at<V>(
    settings: SensorSettings,
    readings: Seq<QueryResult<V>>,
    now: i64,
    i: int,
) -> Option<Sensor<V>> {
    if 0 <= i < readings.len() && 0 <= i < settings.id@.len() {
        match readings[i] {
            Ok(r) => if is_fresh(r.timestamp as int, settings.validity as int, now as int) {
                Some(
                    Sensor {
                        location: settings.id@[i].location,
                        unit: settings.unit,
                        value: r.value,
                        lastchange: Some(r.timestamp as u64),
                    },
                )
            } else {
                None
            },
            Err(_) => None,
        }
    } else {
        None
    }
}

/// What the first `n` sensors of a category publish, in order.
pub open spec fn published_upto<V>(
    settings: SensorSettings,
    readings: Seq<QueryResult<V>>,
    now: i64,
    n: int,
) -> Seq<Sensor<V>>
    decreases n,
{
    if n <= 0 {
        Seq::empty()
    } else {
        let before = published_upto(settings, readings, now, n - 1);
        match entry_at(settings, readings, now, n - 1) {
            Some(s) => before.push(s),
            None => before,
        }
    }
}

/// What a category publishes.
pub open spec fn published<V>(settings: SensorSettings, readings: Seq<QueryResult<V>>, now: i64) -> Seq<
    Sensor<V>,
> {
    published_upto(settings, readings, now, settings.id@.len() as int)
}

/// The door state published for the door sensor's query result.
pub open spec fn door_state_for(settings: DoorSettings, reading: QueryResult<bool>, now: i64) -> Option<
    State,
> {
    match reading {
        Ok(r) => if is_fresh(r.timestamp as int, settings.validity as int, now as int) {
            Some(State { open: Some(r.value), lastchange: Some(r.timestamp as u64), icon: None })
        } else {
            None
        },
        Err(_) => None,
    }
}

/// The template's state with the door state laid over it: the door's open
/// flag and change time replace the template's, its icon stays; without a
/// door state the template's state stays as it is.
pub open spec fn overlay_state(template: Option<State>, door: Option<State>) -> Option<State> {
    match template {
        Some(s) => match door {
            Some(d) => Some(State { open: d.open, lastchange: d.lastchange, icon: s.icon }),
            None => Some(s),
        },
        None => door,
    }
}

/// Whether `result` is the template's sensor block `template` with the
/// live lists laid over it: replaced by the lists when at least one of them
/// holds a reading, kept as it is otherwise.
pub open spec fn overlays_sensors<F>(
    result: Option<Sensors<F>>,
    template: Option<Sensors<F>>,
    temperature: Seq<Sensor<F>>,
    humidity: Seq<Sensor<F>>,
    carbondioxide: Seq<Sensor<u64>>,
) -> bool {
    if temperature.len() > 0 || humidity.len() > 0 || carbondioxide.len() > 0 {
        &&& result is Some
        &&& result->Some_0.temperature@ == temperature
        &&& result->Some_0.humidity@ == humidity
        &&& result->Some_0.carbondioxide@ == carbondioxide
    } else {
        result == template
    }
}

/// The document's fields that no live data touches are those of the
/// template.
pub open spec fn same_static_fields<F>(a: SpaceApi<F>, b: SpaceApi<F>) -> bool {
    &&& a.api_compatibility == b.api_compatibility
    &&& a.space == b.space
    &&& a.logo == b.logo
    &&& a.url == b.url
    &&& a.location == b.location
    &&& a.contact == b.contact
    &&& a.projects == b.projects
}

/// Whether the `i`-th sensor of a category has something to publish: its
/// query gave a reading and the reading is fresh.
pub open spec fn sensor_succeeds<V>(
    settings: SensorSettings,
    readings: Seq<QueryResult<V>>,
    now: i64,
    i: int,
) -> bool {
    &&& 0 <= i < settings.id@.len()
    &&& 0 <= i < readings.len()
    &&& readings[i] is Ok
    &&& is_fresh(
        readings[i]->Ok_0.timestamp as int,
        settings.validity as int,
        now as int,
    )
}

/// Positions, among the first `n` sensors of a category, of those that
/// publish, in configuration order.
pub open spec fn kept_upto<V>(
    settings: SensorSettings,
    readings: Seq<QueryResult<V>>,
    now: i64,
    n: int,
) -> Seq<int>
    decreases n,
{
    if n <= 0 {
        Seq::empty()
    } else {
        let before = kept_upto(settings, readings, now, n - 1);
        if sensor_succeeds(settings, readings, now, n - 1) {
            before.push(n - 1)
        } else {
            before
        }
    }
}

proof fn lemma_published_upto_order<V>(
    settings: SensorSettings,
    readings: Seq<QueryResult<V>>,
    now: i64,
    n: int,
)
    requires
        0 <= n <= settings.id@.len(),
    ensures
        ({
            let out = published_upto(settings, readings, now, n);
            let kept = kept_upto(settings, readings, now, n);
            &&& out.len() == kept.len()
            &&& forall|j: int|
                0 <= j < kept.len() ==> 0 <= #[trigger] kept[j] < n && entry_at(
                    settings,
                    readings,
                    now,
                    kept[j],
                ) == Some(out[j])
            &&& forall|j1: int, j2: int|
                0 <= j1 < j2 < kept.len() ==> #[trigger] kept[j1] < #[trigger] kept[j2]
            &&& forall|i: int|
                0 <= i < n ==> (kept.contains(i) <==> sensor_succeeds(settings, readings, now, i))
        }),
    decreases n,
{
    if n > 0 {
        lemma_published_upto_order(settings, readings, now, n - 1);
        let kept = kept_upto(settings, readings, now, n);
        let before = kept_upto(settings, readings, now, n - 1);
        assert forall|i: int| 0 <= i < n implies (kept.contains(i) <==> sensor_succeeds(
            settings,
            readings,
            now,
            i,
        )) by {
            if sensor_succeeds(settings, readings, now, n - 1) {
                assert(kept == before.push(n - 1));
                if i < n - 1 {
                    if kept.contains(i) {
                        let k = choose|k: int| 0 <= k < kept.len() && kept[k] == i;
                        assert(before[k] == i);
                    }
                    if before.contains(i) {
                        let k = choose|k: int| 0 <= k < before.len() && before[k] == i;
                        assert(kept[k] == i);
                    }
                } else {
                    assert(kept[kept.len() - 1] == n - 1);
                }
            } else {
                if i == n - 1 {
                    if kept.contains(i) {
                        let k = choose|k: int| 0 <= k < kept.len() && kept[k] == i;
                        assert(kept[k] < n - 1);
                    }
                }
            }
        }
    }
}

/// Each category lists exactly the sensors whose query succeeded and whose
/// reading is fresh, in configuration order: the `j`-th published entry is
/// the reading of the `j`-th such sensor, and a sensor whose query or
/// validation failed has no entry.
pub proof fn lemma_published_in_configuration_order<V>(
    settings: SensorSettings,
    readings: Seq<QueryResult<V>>,
    now: i64,
)
    ensures
        ({
            let out = published(settings, readings, now);
            let kept = kept_upto(settings, readings, now, settings.id@.len() as int);
            &&& out.len() == kept.len()
            &&& forall|j: int|
                0 <= j < kept.len() ==> 0 <= #[trigger] kept[j] < settings.id@.len() && out[j] == (
                Sensor {
                    location: settings.id@[kept[j]].location,
                    unit: settings.unit,
                    value: readings[kept[j]]->Ok_0.value,
                    lastchange: Some(readings[kept[j]]->Ok_0.timestamp as u64),
                })
            &&& forall|j1: int, j2: int|
                0 <= j1 < j2 < kept.len() ==> #[trigger] kept[j1] < #[trigger] kept[j2]
            &&& forall|i: int|
                0 <= i < settings.id@.len() ==> (kept.contains(i) <==> sensor_succeeds(
                    settings,
                    readings,
                    now,
                    i,
                ))
        }),
{
    lemma_published_upto_order(settings, readings, now, settings.id@.len() as int);
}

/// Gathers what one category publishes from its sensors' query results.
pub fn collect_sensors<V: Copy>(settings: &SensorSettings, readings: &Vec<QueryResult<V>>, now: i64) -> (r:
    Vec<Sensor<V>>)
    ensures
        r@ == published(*settings, readings@, now),
{
    let mut out: Vec<Sensor<V>> = Vec::new();
    let mut i: usize = 0;
    while i < settings.id.len()
        invariant
            0 <= i <= settings.id@.len(),
            out@ == published_upto(*settings, readings@, now, i as int),
        decreases settings.id@.len() - i,
    {
        if i < readings.len() {
            match &readings[i] {
                Ok(reading) => {
                    let kept = validate(
                        SensorReading { timestamp: reading.timestamp, value: reading.value },
                        settings.validity,
                        now,
                    );
                    match kept {
                        Some(value) => {
                            out.push(
                                Sensor {
                                    location: settings.id[i].location.clone(),
                                    unit: settings.unit.clone(),
                                    value,
                                    lastchange: Some(reading.timestamp as u64),
                                },
                            );
                        },
                        None => {},
                    }
                },
                Err(_) => {},
            }
        }
        i = i + 1;
    }
    out
}

/// The door state for the door sensor's query result.
pub fn door_state(settings: &DoorSettings, reading: &QueryResult<bool>, now: i64) -> (r: Option<State>)
    ensures
        r == door_state_for(*settings, *reading, now),
{
    match reading {
        Ok(reading) => {
            match validate(
                SensorReading { timestamp: reading.timestamp, value: reading.value },
                settings.validity,
                now,
            ) {
                Some(open) => Some(
                    State { open: Some(open), lastchange: Some(reading.timestamp as u64), icon: None },
                ),
                None => None,
            }
        },
        Err(_) => None,
    }
}

/// Lays the live door state and sensor lists over the template.
pub fn update_template<F>(
    template: SpaceApi<F>,
    door: Option<State>,
    temperature: Vec<Sensor<F>>,
    humidity: Vec<Sensor<F>>,
    carbondioxide: Vec<Sensor<u64>>,
) -> (r: SpaceApi<F>)
    ensures
        same_static_fields(r, template),
        r.state == overlay_state(template.state, door),
        overlays_sensors(r.sensors, template.sensors, temperature@, humidity@, carbondioxide@),
{
    let mut document = template;
    let state = match document.state {
        Some(s) => match door {
            Some(d) => Some(State { open: d.open, lastchange: d.lastchange, icon: s.icon }),
            None => Some(s),
        },
        None => door,
    };
    document.state = state;
    if temperature.len() > 0 || humidity.len() > 0 || carbondioxide.len() > 0 {
        document.sensors = Some(Sensors { temperature, humidity, carbondioxide });
    }
    document
}

/// The status document for the template, the sensor configuration, the
/// store's answers and the time `now`.
pub fn build_status<F: Copy>(
    template: SpaceApi<F>,
    sensors: &SensorConfig,
    snapshot: &TelemetrySnapshot<F>,
    now: i64,
) -> (r: SpaceApi<F>)
    ensures
        same_static_fields(r, template),
        r.state == overlay_state(template.state, door_state_for(sensors.door, snapshot.door, now)),
        overlays_sensors(
            r.sensors,
            template.sensors,
            published(sensors.temperature, snapshot.temperature@, now),
            published(sensors.humidity, snapshot.humidity@, now),
            published(sensors.carbondioxide, snapshot.carbondioxide@, now),
        ),
{
    let temperature = collect_sensors(&sensors.temperature, &snapshot.temperature, now);
    let humidity = collect_sensors(&sensors.humidity, &snapshot.humidity, now);
    let carbondioxide = collect_sensors(&sensors.carbondioxide, &snapshot.carbondioxide, now);
    let door = door_state(&sensors.door, &snapshot.door, now);
    update_template(template, door, temperature, humidity, carbondioxide)
}

} // verus!
