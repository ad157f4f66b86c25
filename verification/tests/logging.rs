use femme::{
    ndjson, pretty, wasm, with_level, Femme, Level, LevelFilter, Logger, Record, Registry,
};

fn record(level: Level, target: &str, message: &str, kvs: &[(&str, &str)]) -> Record {
    Record {
        level,
        target: target.to_string(),
        message: message.to_string(),
        key_values: kvs
            .iter()
            .map(|(k, v)| (k.to_string(), v.to_string()))
            .collect(),
    }
}

#[test]
fn filtering_emits_iff_threshold_cleared() {
    let d = pretty().build();
    assert!(d.log_at(&record(Level::Debug, "app", "x", &[]), 0).is_none());
    assert!(d.log_at(&record(Level::Trace, "app", "x", &[]), 0).is_none());
    assert!(d.log_at(&record(Level::Info, "app", "x", &[]), 0).is_some());
    assert!(d.log_at(&record(Level::Warn, "app", "x", &[]), 0).is_some());
    assert!(d.log_at(&record(Level::Error, "app", "x", &[]), 0).is_some());
}

#[test]
fn target_override_resolution() {
    let d = pretty()
        .level_for("alpha".to_string(), LevelFilter::Warn)
        .build();
    assert!(d
        .log_at(&record(Level::Info, "alpha::sub", "m", &[]), 0)
        .is_none());
    assert!(d
        .log_at(&record(Level::Warn, "alpha::sub", "m", &[]), 0)
        .is_some());
    // no override for "beta": the default threshold (Info) applies
    assert!(d.log_at(&record(Level::Info, "beta", "m", &[]), 0).is_some());
    assert!(d
        .log_at(&record(Level::Debug, "beta", "m", &[]), 0)
        .is_none());
}

#[test]
fn module_level_uses_first_segment_only() {
    let f = pretty()
        .level_for("alpha".to_string(), LevelFilter::Trace)
        .level_for("alpha::sub".to_string(), LevelFilter::Error);
    // deeper-nested overrides are not consulted
    let t = f.module_level(&record(Level::Info, "alpha::sub", "m", &[]));
    assert_eq!(t, LevelFilter::Trace);
    let t = f.module_level(&record(Level::Info, "alpha", "m", &[]));
    assert_eq!(t, LevelFilter::Trace);
}

#[test]
fn module_level_edge_targets() {
    let f = pretty()
        .level(LevelFilter::Warn)
        .level_for("".to_string(), LevelFilter::Error)
        .level_for("a:b".to_string(), LevelFilter::Trace);
    // "::x" has an empty first segment
    let t = f.module_level(&record(Level::Info, "::x", "m", &[]));
    assert_eq!(t, LevelFilter::Error);
    let t = f.module_level(&record(Level::Info, "", "m", &[]));
    assert_eq!(t, LevelFilter::Error);
    // a single colon is no separator
    let t = f.module_level(&record(Level::Info, "a:b", "m", &[]));
    assert_eq!(t, LevelFilter::Trace);
    // "a:::b" splits as "a" then ":b"
    let t = f.module_level(&record(Level::Info, "a:::b", "m", &[]));
    assert_eq!(t, LevelFilter::Warn);
}

#[test]
fn level_for_replaces_existing_override() {
    let f = pretty()
        .level_for("db".to_string(), LevelFilter::Trace)
        .level_for("db".to_string(), LevelFilter::Error);
    let t = f.module_level(&record(Level::Warn, "db", "m", &[]));
    assert_eq!(t, LevelFilter::Error);
}

#[test]
fn ceiling_is_most_permissive() {
    assert_eq!(pretty().build().max_level(), LevelFilter::Info);
    assert_eq!(
        pretty().level(LevelFilter::Off).build().max_level(),
        LevelFilter::Off
    );
    // an override more permissive than the default raises the ceiling
    assert_eq!(
        pretty()
            .level_for("noisy".to_string(), LevelFilter::Trace)
            .build()
            .max_level(),
        LevelFilter::Trace
    );
    // one less permissive leaves it where it was
    assert_eq!(
        pretty()
            .level_for("quiet".to_string(), LevelFilter::Error)
            .build()
            .max_level(),
        LevelFilter::Info
    );
}

#[test]
fn machine_round_trip_shape() {
    let d = ndjson().build();
    let line = d
        .log_at(
            &record(Level::Warn, "app", "disk full", &[("path", "/tmp")]),
            1234567,
        )
        .unwrap();
    assert_eq!(
        line,
        "{\"level\":40,\"time\":1234567,\"msg\":\"disk full\",\"path\":/tmp}\n"
    );
}

#[test]
fn machine_time_is_nonnegative_decimal() {
    let d = ndjson().build();
    let line = d.log(&record(Level::Warn, "app", "m", &[])).unwrap();
    let rest = line.strip_prefix("{\"level\":40,\"time\":").unwrap();
    let digits: String = rest.chars().take_while(|c| c.is_ascii_digit()).collect();
    assert!(!digits.is_empty());
    assert!(rest[digits.len()..].starts_with(",\"msg\":\"m\"}\n"));
}

#[test]
fn machine_line_no_fields() {
    let mut out = String::new();
    femme::write_ndjson(
        &mut out,
        &record(Level::Trace, "app", "", &[]),
        0,
    );
    assert_eq!(out, "{\"level\":10,\"time\":0,\"msg\":\"\"}\n");
}

#[test]
fn machine_level_codes() {
    for (level, code) in [
        (Level::Trace, 10),
        (Level::Debug, 20),
        (Level::Info, 30),
        (Level::Warn, 40),
        (Level::Error, 50),
    ] {
        let mut out = String::new();
        femme::write_ndjson(&mut out, &record(level, "t", "m", &[]), 7);
        assert_eq!(
            out,
            format!("{{\"level\":{},\"time\":7,\"msg\":\"m\"}}\n", code)
        );
    }
}

#[test]
fn human_no_fields() {
    let mut out = String::new();
    femme::write_pretty(&mut out, &record(Level::Error, "db", "connection lost", &[]));
    assert_eq!(out, "\u{1b}[31m\u{1b}[1mdb\u{1b}[0m connection lost\n");
}

#[test]
fn human_colors_by_severity() {
    for (level, color) in [
        (Level::Trace, "\u{1b}[32m"),
        (Level::Debug, "\u{1b}[32m"),
        (Level::Info, "\u{1b}[32m"),
        (Level::Warn, "\u{1b}[33m"),
        (Level::Error, "\u{1b}[31m"),
    ] {
        let mut out = String::new();
        femme::write_pretty(&mut out, &record(level, "t", "m", &[]));
        assert_eq!(out, format!("{}\u{1b}[1mt\u{1b}[0m m\n", color));
    }
}

#[test]
fn human_fields_in_order() {
    let mut out = String::new();
    femme::write_pretty(
        &mut out,
        &record(
            Level::Info,
            "web",
            "request",
            &[("method", "GET"), ("path", "/")],
        ),
    );
    assert_eq!(
        out,
        "\u{1b}[32m\u{1b}[1mweb\u{1b}[0m request\
         \n    \u{1b}[1mmethod\u{1b}[0m GET\
         \n    \u{1b}[1mpath\u{1b}[0m /\n"
    );
}

#[test]
fn machine_fields_in_order() {
    let mut out = String::new();
    femme::write_ndjson(
        &mut out,
        &record(
            Level::Info,
            "web",
            "request",
            &[("method", "GET"), ("status", "200")],
        ),
        5,
    );
    assert_eq!(
        out,
        "{\"level\":30,\"time\":5,\"msg\":\"request\",\"method\":GET,\"status\":200}\n"
    );
}

#[test]
fn format_kv_pairs_appends_nothing_for_no_pairs() {
    let mut out = String::from("head");
    femme::format_kv_pairs(&mut out, &Vec::new());
    assert_eq!(out, "head");
}

#[test]
fn enabled_is_idempotent_and_matches_ceiling() {
    let d = pretty().level(LevelFilter::Warn).build();
    let first = d.enabled(Level::Info);
    let second = d.enabled(Level::Info);
    assert_eq!(first, second);
    assert!(!first);
    assert!(d.enabled(Level::Warn));
    assert!(d.enabled(Level::Error));
}

#[test]
fn enabled_covers_every_emitted_record() {
    // a record that clears its target's threshold also clears the ceiling
    let d = pretty()
        .level(LevelFilter::Error)
        .level_for("noisy".to_string(), LevelFilter::Debug)
        .build();
    let r = record(Level::Debug, "noisy::worker", "m", &[]);
    assert!(d.log_at(&r, 0).is_some());
    assert!(d.enabled(Level::Debug));
}

#[test]
fn double_install_is_rejected() {
    let mut registry = Registry::new();
    assert!(registry.installed().is_none());
    let first = ndjson().level(LevelFilter::Trace).finish(&mut registry);
    assert!(first.is_ok());
    let second = pretty().finish(&mut registry);
    assert!(second.is_err());
    // the first installation is untouched
    let installed = registry.installed().as_ref().unwrap();
    assert_eq!(installed.mode(), Logger::NDJson);
    assert_eq!(installed.max_level(), LevelFilter::Trace);
}

#[test]
fn with_level_installs_once() {
    let mut registry = Registry::new();
    with_level(LevelFilter::Debug, &mut registry);
    let installed = registry.installed().as_ref().unwrap();
    assert_eq!(installed.mode(), Logger::Pretty);
    assert_eq!(installed.max_level(), LevelFilter::Debug);
}

#[test]
fn start_installs_info_default() {
    let mut registry = Registry::new();
    femme::start(&mut registry);
    let installed = registry.installed().as_ref().unwrap();
    assert_eq!(installed.mode(), Logger::Pretty);
    assert_eq!(installed.max_level(), LevelFilter::Info);
}

#[test]
fn builder_modes() {
    assert_eq!(pretty().build().mode(), Logger::Pretty);
    assert_eq!(ndjson().build().mode(), Logger::NDJson);
    assert_eq!(wasm().build().mode(), Logger::Wasm);
    assert_eq!(Femme::default().build().mode(), Logger::Pretty);
}

#[test]
fn wasm_mode_renders_human_form() {
    let d = wasm().build();
    let line = d.log_at(&record(Level::Error, "db", "down", &[]), 0).unwrap();
    assert_eq!(line, "\u{1b}[31m\u{1b}[1mdb\u{1b}[0m down\n");
}

#[test]
fn flush_is_a_no_op() {
    let d = pretty().build();
    d.flush();
}

#[test]
fn large_timestamp_renders_all_digits() {
    let mut out = String::new();
    femme::write_ndjson(&mut out, &record(Level::Info, "t", "m", &[]), u64::MAX);
    assert_eq!(
        out,
        "{\"level\":30,\"time\":18446744073709551615,\"msg\":\"m\"}\n"
    );
}
