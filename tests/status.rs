use spacestatus::badge::Badges;
use spacestatus::configuration::{
    DoorSettings, SensorIdentification, SensorSettings, Sensors as SensorConfig,
};
use spacestatus::spaceapi::{Contact, Icon, Sensor, Sensors, SpaceApi, State};
use spacestatus::status::{
    build_status, collect_sensors, door_state, update_template, QueryResult, TelemetrySnapshot,
};
use spacestatus::telemetry::{latest_reading, query_text, QueryError};
use spacestatus::validator::SensorReading;

const T0: i64 = 1_700_000_000;

fn id(entity: &str, location: &str) -> SensorIdentification {
    SensorIdentification { entity: entity.to_string(), location: location.to_string() }
}

fn settings(ids: Vec<SensorIdentification>, unit: &str, validity: i64) -> SensorSettings {
    SensorSettings { id: ids, unit: unit.to_string(), validity }
}

fn door(validity: i64) -> DoorSettings {
    DoorSettings { entity: "door".to_string(), unit: "state".to_string(), validity }
}

fn config() -> SensorConfig {
    SensorConfig {
        door: door(0),
        temperature: settings(vec![id("a", "A"), id("b", "B")], "°C", 60),
        humidity: settings(vec![], "%", 60),
        carbondioxide: settings(vec![], "ppm", 60),
    }
}

fn template(state: Option<State>) -> SpaceApi<f64> {
    SpaceApi {
        api_compatibility: vec!["14".to_string(), "15".to_string()],
        space: "Space".to_string(),
        logo: "https://example.org/logo.png".to_string(),
        url: "https://example.org".to_string(),
        location: None,
        state,
        contact: Contact { mastodon: None, email: Some("info@example.org".to_string()), ml: None, issue_mail: None },
        projects: None,
        sensors: None,
    }
}

fn ok<V>(timestamp: i64, value: V) -> QueryResult<V> {
    Ok(SensorReading { timestamp, value })
}

fn snapshot() -> TelemetrySnapshot<f64> {
    TelemetrySnapshot {
        door: Err(QueryError::NoSeries),
        temperature: vec![ok(T0, 21.5), Err(QueryError::NoValues)],
        humidity: vec![],
        carbondioxide: vec![],
    }
}

#[test]
fn fresh_reading_is_published_and_missing_one_left_out() {
    let doc = build_status(template(None), &config(), &snapshot(), T0 + 30);
    let sensors = doc.sensors.expect("sensor block");
    assert_eq!(
        sensors.temperature,
        vec![Sensor { location: "A".to_string(), unit: "°C".to_string(), value: 21.5, lastchange: Some(T0 as u64) }]
    );
    assert!(sensors.humidity.is_empty());
    assert!(sensors.carbondioxide.is_empty());
    assert_eq!(doc.state, None);
}

#[test]
fn stale_reading_leaves_no_sensor_block() {
    let doc = build_status(template(None), &config(), &snapshot(), T0 + 90);
    assert!(doc.sensors.is_none());
    assert_eq!(doc.space, "Space");
}

#[test]
fn categories_keep_configuration_order_and_skip_failures() {
    let cfg = settings(vec![id("c", "C"), id("a", "A"), id("x", "X"), id("b", "B")], "ppm", 60);
    let readings: Vec<QueryResult<u64>> =
        vec![ok(T0, 800), ok(T0 - 100, 900), Err(QueryError::Connection("refused".to_string())), ok(T0 - 10, 400)];
    let out = collect_sensors(&cfg, &readings, T0);
    let locations: Vec<&str> = out.iter().map(|s| s.location.as_str()).collect();
    assert_eq!(locations, vec!["C", "B"]);
    assert_eq!(out[0].value, 800);
    assert_eq!(out[1].value, 400);
    assert_eq!(out[1].lastchange, Some((T0 - 10) as u64));
}

#[test]
fn sensor_without_answer_is_skipped() {
    let cfg = settings(vec![id("a", "A"), id("b", "B")], "%", 0);
    let out = collect_sensors(&cfg, &vec![ok(5, 40.0)], T0);
    assert_eq!(out.len(), 1);
    assert_eq!(out[0].location, "A");
}

#[test]
fn door_reading_overwrites_template_state_but_keeps_icon() {
    let icon = Icon { open: "o.png".to_string(), closed: "c.png".to_string() };
    let tpl = template(Some(State { open: Some(false), lastchange: Some(1), icon: Some(icon.clone()) }));
    let mut snap = snapshot();
    snap.door = ok(T0 - 5, true);
    let doc = build_status(tpl, &config(), &snap, T0);
    assert_eq!(doc.state, Some(State { open: Some(true), lastchange: Some((T0 - 5) as u64), icon: Some(icon) }));
}

#[test]
fn failed_door_query_leaves_template_state() {
    let tpl_state = State { open: Some(false), lastchange: Some(1), icon: None };
    let doc = build_status(template(Some(tpl_state.clone())), &config(), &snapshot(), T0);
    assert_eq!(doc.state, Some(tpl_state));
}

#[test]
fn door_state_without_template_state() {
    let state = door_state(&door(60), &ok(T0, false), T0 + 10);
    assert_eq!(state, Some(State { open: Some(false), lastchange: Some(T0 as u64), icon: None }));
    assert_eq!(door_state(&door(60), &ok(T0, false), T0 + 60), None);
    assert_eq!(door_state(&door(60), &Err(QueryError::NoSeries), T0), None);
}

#[test]
fn template_sensors_kept_without_live_data() {
    let mut tpl = template(None);
    let kept = Sensors {
        temperature: vec![Sensor { location: "T".to_string(), unit: "°C".to_string(), value: 1.0, lastchange: None }],
        humidity: vec![],
        carbondioxide: vec![],
    };
    tpl.sensors = Some(kept.clone());
    let doc = update_template(tpl, None, vec![], vec![], vec![]);
    assert_eq!(doc.sensors, Some(kept));
}

#[test]
fn badge_follows_door_state() {
    let badges = Badges::new("open".to_string(), "closed".to_string(), "unknown".to_string());
    assert_eq!(badges.select(Some(true)), "open");
    assert_eq!(badges.select(Some(false)), "closed");
    assert_eq!(badges.select(None), "unknown");
    assert_eq!(badges.for_door(&door(60), &ok(T0, true), T0 + 1), "open");
    assert_eq!(badges.for_door(&door(60), &ok(T0, false), T0 + 1), "closed");
    assert_eq!(badges.for_door(&door(60), &ok(T0, true), T0 + 61), "unknown");
    assert_eq!(badges.for_door(&door(60), &Err(QueryError::Malformed("x".to_string())), T0), "unknown");
}

#[test]
fn query_with_window() {
    assert_eq!(
        query_text("sensor.a", "°C", 60),
        "SELECT time, value FROM \"°C\" WHERE (entity_id = 'sensor.a' AND time > now() - 60s) ORDER BY time DESC LIMIT 1"
    );
}

#[test]
fn query_without_window() {
    assert_eq!(
        query_text("binary_sensor.door", "state", 0),
        "SELECT time, value FROM \"state\" WHERE (entity_id = 'binary_sensor.door' ) ORDER BY time DESC LIMIT 1"
    );
}

#[test]
fn query_window_digits() {
    assert!(query_text("e", "u", 3600).contains("now() - 3600s)"));
    assert!(query_text("e", "u", -7).contains("now() - -7s)"));
    assert!(query_text("e", "u", i64::MIN).contains("now() - -9223372036854775808s)"));
    assert!(query_text("e", "u", 9).contains("now() - 9s)"));
}

#[test]
fn latest_reading_takes_first_value_of_first_series() {
    let answer = vec![vec![SensorReading { timestamp: 3, value: 1.5 }, SensorReading { timestamp: 2, value: 9.0 }], vec![]];
    assert_eq!(latest_reading(answer), Ok(SensorReading { timestamp: 3, value: 1.5 }));
}

#[test]
fn latest_reading_errors() {
    assert_eq!(latest_reading::<f64>(vec![]), Err(QueryError::NoSeries));
    assert_eq!(latest_reading::<f64>(vec![vec![]]), Err(QueryError::NoValues));
}
