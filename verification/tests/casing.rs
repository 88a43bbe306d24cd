use oreos::casing::{snake_with_suffix, to_pascal_case, to_snake_case};

#[test]
fn pascal_case_is_idempotent() {
    assert_eq!(to_pascal_case("SensorBackend"), "SensorBackend");
}

#[test]
fn pascal_case_from_snake() {
    assert_eq!(to_pascal_case("sensor_backend"), "SensorBackend");
}

#[test]
fn snake_case_from_pascal() {
    assert_eq!(to_snake_case("SensorBackend"), "sensor_backend");
}

#[test]
fn snake_case_is_idempotent() {
    assert_eq!(to_snake_case("sensor_backend"), "sensor_backend");
}

#[test]
fn snake_with_suffix_avoids_stutter() {
    assert_eq!(snake_with_suffix("SensorBackend", "backend"), "sensor_backend");
    assert_eq!(snake_with_suffix("Sensor", "backend"), "sensor_backend");
}

#[test]
fn pascal_case_from_kebab_space_and_camel() {
    assert_eq!(to_pascal_case("top-heater"), "TopHeater");
    assert_eq!(to_pascal_case("top heater control"), "TopHeaterControl");
    assert_eq!(to_pascal_case("topHeater"), "TopHeater");
    assert_eq!(to_pascal_case("__x__y"), "XY");
    assert_eq!(to_pascal_case(""), "");
}

#[test]
fn pascal_case_uppercases_beyond_ascii() {
    assert_eq!(to_pascal_case("éclair_ß"), "ÉclairSS");
}

#[test]
fn pascal_case_twice_is_once() {
    for s in ["a_b-c d", "ABC", "x1_y2", "already", "Mixed_Case-Input"] {
        let once = to_pascal_case(s);
        assert_eq!(to_pascal_case(&once), once);
    }
}

#[test]
fn snake_case_from_camel_digits_and_separators() {
    assert_eq!(to_snake_case("topHeater"), "top_heater");
    assert_eq!(to_snake_case("Motor2Driver"), "motor2_driver");
    assert_eq!(to_snake_case("top-heater control"), "top_heater_control");
    assert_eq!(to_snake_case("__lead"), "lead");
    assert_eq!(to_snake_case("a__b"), "a_b");
    assert_eq!(to_snake_case("trail_"), "trail_");
    assert_eq!(to_snake_case("ABC"), "abc");
    assert_eq!(to_snake_case(""), "");
}

#[test]
fn snake_case_twice_is_once() {
    for s in ["TopHeater", "a--b", "X_Y_Z", "_lead", "mixed Case-input2Go"] {
        let once = to_snake_case(s);
        assert_eq!(to_snake_case(&once), once);
    }
}

#[test]
fn snake_with_suffix_appends_or_keeps() {
    assert_eq!(snake_with_suffix("backend", "backend"), "backend");
    assert_eq!(snake_with_suffix("LogMiddleware", "middleware"), "log_middleware");
    assert_eq!(snake_with_suffix("Log", "middleware"), "log_middleware");
    assert_eq!(snake_with_suffix("SensorBackends", "backend"), "sensor_backends_backend");
}

#[test]
fn snake_with_suffix_applied_twice_is_once() {
    let once = snake_with_suffix("Sensor", "backend");
    assert_eq!(snake_with_suffix(&once, "backend"), once);
    let kept = snake_with_suffix("SensorBackend", "backend");
    assert_eq!(snake_with_suffix(&kept, "backend"), kept);
    assert_eq!(snake_with_suffix("backend", "backend"), "backend");
}
