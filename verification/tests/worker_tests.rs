use sm_init_core::cpu::get_cpu_cores;
use sm_init_core::locator::candidate_paths;
use sm_init_core::locator::get_postcli_path;
use sm_init_core::locator::resolve_from_probes;
use sm_init_core::probability::calculate_post_probability_ppm;
use sm_init_core::profiler::build_profiler_args;
use sm_init_core::profiler::get_default_config;
use sm_init_core::profiler::interpret_profiler_output;
use sm_init_core::profiler::validate_nonces;
use sm_init_core::profiler::ProfilerConfig;
use sm_init_core::providers::classify_device_type;
use sm_init_core::providers::decode_provider_id;
use sm_init_core::providers::estimated_performance;
use sm_init_core::providers::get_gpu_info;
use sm_init_core::providers::parse_u32;
use sm_init_core::providers::provider_id;
use sm_init_core::providers::DeviceType;
use sm_init_core::providers::PostProviderError;
use sm_init_core::providers::Provider;
use sm_init_core::gpu_profiler::find_first_gpu;
use sm_init_core::supervisor::attached_outcome;
use sm_init_core::supervisor::detached_process_info;
use sm_init_core::termination::stop_postcli_process;

#[test]
fn postcli_path_follows_the_bundled_layout() {
    assert_eq!(get_postcli_path("/work", false), "/work/bin/postcli/postcli");
    assert_eq!(
        get_postcli_path("C:/app", true),
        "C:/app/bin/postcli/postcli.exe"
    );
}

#[test]
fn candidates_search_resource_directory_before_working_directory() {
    let with_resources = candidate_paths(
        &Some(String::from("/bundle")),
        "/work",
        "profiler",
        false,
    );
    assert_eq!(
        with_resources,
        vec![
            String::from("/bundle/bin/profiler/profiler"),
            String::from("/work/bin/profiler/profiler"),
        ]
    );
    let without = candidate_paths(&None, "/work", "profiler", false);
    assert_eq!(without, vec![String::from("/work/bin/profiler/profiler")]);
}

#[test]
fn resolution_picks_the_first_existing_candidate() {
    let candidates = vec![String::from("/a/bin/x/x"), String::from("/b/bin/x/x")];
    let r = resolve_from_probes("x", &candidates, &vec![false, true]);
    assert_eq!(r, Ok(String::from("/b/bin/x/x")));
    let r2 = resolve_from_probes("x", &candidates, &vec![true, true]);
    assert_eq!(r2, Ok(String::from("/a/bin/x/x")));
    let missing = resolve_from_probes("postcli", &candidates, &vec![false, false]);
    assert_eq!(
        missing,
        Err(String::from(
            "postcli executable not found at /b/bin/x/x. Please ensure it's installed in the bin directory."
        ))
    );
}

#[test]
fn attached_runs_trust_stdout_only_on_success() {
    let ok = attached_outcome(
        true,
        String::from("all good"),
        String::from("warning noise"),
    );
    let out = ok.expect("zero exit status must give the buffers");
    assert_eq!(out.stdout, "all good");
    assert_eq!(out.stderr, "warning noise");

    let failed = attached_outcome(false, String::from("partial"), String::from("boom"));
    assert_eq!(failed.unwrap_err(), "boom");
}

#[test]
fn detached_spawn_reports_its_process_id() {
    let info = detached_process_info(4711);
    assert_eq!(info.process_id, 4711);
    assert_eq!(
        info.message,
        "POS data generation started in background with process ID: 4711"
    );
}

#[test]
fn terminating_a_dead_process_id_errs_and_is_repeatable() {
    // Far beyond any live pid (the kernel's default pid ceiling is
    // 4194304), yet within the signed pid range: the OS must refuse.
    let first = stop_postcli_process(2_000_000_000);
    let e1 = first.expect_err("no live process can have this id");
    assert!(e1.starts_with("Failed to terminate process 2000000000: "));
    let second = stop_postcli_process(2_000_000_000);
    let e2 = second.expect_err("repeating the request must still err, not crash");
    assert_eq!(e1, e2);
}

#[test]
fn terminating_an_unaddressable_id_errs_without_touching_the_os() {
    let r = stop_postcli_process(0);
    assert_eq!(
        r.unwrap_err(),
        "Failed to terminate process 0: invalid process id"
    );
    let r2 = stop_postcli_process(u32::MAX);
    assert!(r2.unwrap_err().starts_with("Failed to terminate process 4294967295: "));
}

#[test]
fn default_benchmark_config_is_one_gib_for_ten_seconds() {
    let c = get_default_config();
    assert_eq!(c.data_size, 1);
    assert_eq!(c.duration, 10);
    assert!(c.data_file.is_none());
}

#[test]
fn nonce_validation_demands_a_nonzero_multiple_of_sixteen() {
    assert_eq!(
        validate_nonces(0),
        Err(String::from("Nonces parameter is required"))
    );
    assert_eq!(
        validate_nonces(20),
        Err(String::from("Nonces must be a multiple of 16"))
    );
    assert_eq!(validate_nonces(16), Ok(()));
    assert_eq!(validate_nonces(288), Ok(()));
}

#[test]
fn profiler_arguments_match_the_worker_contract_in_order() {
    let args = build_profiler_args(4, 64, "/tmp/data", 1, 5);
    assert_eq!(
        args,
        vec![
            String::from("--threads"),
            String::from("4"),
            String::from("--nonces"),
            String::from("64"),
            String::from("--data-file"),
            String::from("/tmp/data"),
            String::from("--data-size"),
            String::from("1"),
            String::from("--duration"),
            String::from("5"),
        ]
    );
}

#[test]
fn benchmark_output_parses_into_fixed_point_figures() {
    let stdout = br#"{"time_s":5.0,"speed_gib_s":0.2}"#;
    let config = ProfilerConfig { data_size: 1, duration: 5, data_file: None };
    let r = interpret_profiler_output(true, stdout, String::new(), 64, 4, config)
        .expect("a zero exit with both fields must parse");
    assert_eq!(r.time_s_micros, 5_000_000);
    assert_eq!(r.speed_gib_s_micros, 200_000);
    assert_eq!(r.nonces, 64);
    assert_eq!(r.threads, 4);
    assert_eq!(r.data_size, 1);
    assert_eq!(r.duration, 5);
    assert!(r.data_file.is_none());
}

#[test]
fn benchmark_output_tolerates_whitespace_and_extra_fields() {
    let stdout = b"{ \"elapsed\": 1, \"time_s\" : 12.345678 , \"speed_gib_s\" : 3 }";
    let config = ProfilerConfig { data_size: 2, duration: 7, data_file: None };
    let r = interpret_profiler_output(true, stdout, String::new(), 16, 1, config)
        .expect("extra content is ignored by contract");
    // Fractional digits beyond the sixth are dropped.
    assert_eq!(r.time_s_micros, 12_345_678);
    assert_eq!(r.speed_gib_s_micros, 3_000_000);
}

#[test]
fn a_key_inside_another_string_value_does_not_mislead() {
    // The key occurs first inside the note's value, where no colon
    // follows it; the real field further on must still be read.
    let stdout = br#"{"note":"time_s","time_s":5,"speed_gib_s":0.2}"#;
    let config = ProfilerConfig { data_size: 1, duration: 5, data_file: None };
    let r = interpret_profiler_output(true, stdout, String::new(), 16, 1, config)
        .expect("the colon-bearing occurrence decides");
    assert_eq!(r.time_s_micros, 5_000_000);
    assert_eq!(r.speed_gib_s_micros, 200_000);
}

#[test]
fn exponent_formed_numbers_are_refused_not_misread() {
    // 5e3 seconds must not be read as 5 seconds.
    let config = ProfilerConfig { data_size: 1, duration: 5, data_file: None };
    let r = interpret_profiler_output(
        true,
        br#"{"time_s":5e3,"speed_gib_s":0.2}"#,
        String::new(),
        16,
        1,
        config,
    );
    assert_eq!(r.unwrap_err(), "Missing time_s in output");

    let config = ProfilerConfig { data_size: 1, duration: 5, data_file: None };
    let r2 = interpret_profiler_output(
        true,
        br#"{"time_s":5.0,"speed_gib_s":1.5E2}"#,
        String::new(),
        16,
        1,
        config,
    );
    assert_eq!(r2.unwrap_err(), "Missing speed_gib_s in output");
}

#[test]
fn missing_result_fields_are_parse_errors() {
    let config = ProfilerConfig { data_size: 1, duration: 5, data_file: None };
    let no_time = interpret_profiler_output(
        true,
        br#"{"speed_gib_s":0.2}"#,
        String::new(),
        16,
        1,
        config,
    );
    assert_eq!(no_time.unwrap_err(), "Missing time_s in output");

    let config = ProfilerConfig { data_size: 1, duration: 5, data_file: None };
    let no_speed = interpret_profiler_output(
        true,
        br#"{"time_s":5.0}"#,
        String::new(),
        16,
        1,
        config,
    );
    assert_eq!(no_speed.unwrap_err(), "Missing speed_gib_s in output");

    let config = ProfilerConfig { data_size: 1, duration: 5, data_file: None };
    let not_numeric = interpret_profiler_output(
        true,
        br#"{"time_s":"fast","speed_gib_s":0.2}"#,
        String::new(),
        16,
        1,
        config,
    );
    assert_eq!(not_numeric.unwrap_err(), "Missing time_s in output");
}

#[test]
fn nonzero_exit_carries_stderr_verbatim() {
    let config = ProfilerConfig { data_size: 1, duration: 5, data_file: None };
    let r = interpret_profiler_output(
        false,
        br#"{"time_s":5.0,"speed_gib_s":0.2}"#,
        String::from("out of file descriptors"),
        16,
        1,
        config,
    );
    assert_eq!(r.unwrap_err(), "out of file descriptors");
}

#[test]
fn probability_calibration_point_is_exact() {
    // 0.0124 for the sixteen-nonce baseline, in parts per million.
    let p = calculate_post_probability_ppm(16);
    assert_eq!(p, 12_400);
    let approx = p as f64 / 1_000_000.0;
    assert!((approx - 0.0124).abs() < 1e-12);
    assert_eq!(calculate_post_probability_ppm(0), 0);
}

#[test]
fn probability_never_decreases_with_more_nonces() {
    let mut last: u64 = 0;
    let mut nonces: u32 = 0;
    while nonces <= 1600 {
        let p = calculate_post_probability_ppm(nonces);
        assert!(p >= last, "probability dropped at {} nonces", nonces);
        assert!(p <= 1_000_000);
        last = p;
        nonces += 16;
    }
    // Two passes of the baseline: 1 - (1 - 0.0124)^2, with the miss
    // probability rounded down at each step.
    assert_eq!(calculate_post_probability_ppm(32), 24_647);
}

#[test]
fn cpu_count_is_at_least_one() {
    assert!(get_cpu_cores() >= 1);
}

#[test]
fn provider_ids_round_trip() {
    let id = provider_id(3, 17);
    assert_eq!(id, (3 << 16) | 17);
    assert_eq!(decode_provider_id(id), (3, 17));
    assert_eq!(decode_provider_id(provider_id(65535, 65535)), (65535, 65535));
    assert_eq!(decode_provider_id(provider_id(0, 0)), (0, 0));
}

#[test]
fn device_classification_looks_for_the_gpu_marker() {
    assert_eq!(classify_device_type(b"GPU"), DeviceType::GPU);
    assert_eq!(classify_device_type(b"Type: GPU (discrete)"), DeviceType::GPU);
    assert_eq!(classify_device_type(b"CPU"), DeviceType::CPU);
    assert_eq!(classify_device_type(b""), DeviceType::CPU);
    assert_eq!(classify_device_type(b"gpu"), DeviceType::CPU);
}

#[test]
fn device_info_figures_parse_strictly() {
    assert_eq!(parse_u32(b"0"), Some(0));
    assert_eq!(parse_u32(b"2048"), Some(2048));
    assert_eq!(parse_u32(b"4294967295"), Some(u32::MAX));
    assert_eq!(parse_u32(b"4294967296"), None);
    assert_eq!(parse_u32(b""), None);
    assert_eq!(parse_u32(b"12a"), None);
    assert_eq!(parse_u32(b"-5"), None);
}

#[test]
fn performance_estimate_multiplies_units_frequency_and_a_thousand() {
    assert_eq!(estimated_performance(24, 1500), 24 * 1500 * 1000);
    assert_eq!(estimated_performance(0, 1500), 0);
    // An absurd device saturates instead of wrapping.
    assert_eq!(estimated_performance(u32::MAX, u32::MAX), u64::MAX);
}

#[test]
fn gpu_listing_keeps_only_gpu_models_in_order() {
    let providers = vec![
        Provider {
            id: provider_id(0, 0),
            model: String::from("SomeCPU"),
            device_type: DeviceType::CPU,
            performance: None,
        },
        Provider {
            id: provider_id(0, 1),
            model: String::from("FastGPU"),
            device_type: DeviceType::GPU,
            performance: Some(1000),
        },
        Provider {
            id: provider_id(1, 0),
            model: String::from("OtherGPU"),
            device_type: DeviceType::GPU,
            performance: None,
        },
    ];
    assert_eq!(
        get_gpu_info(&providers),
        vec![String::from("FastGPU"), String::from("OtherGPU")]
    );
    assert_eq!(find_first_gpu(&providers), Some(1));

    let cpu_only = vec![Provider {
        id: 0,
        model: String::from("SomeCPU"),
        device_type: DeviceType::CPU,
        performance: None,
    }];
    assert_eq!(get_gpu_info(&cpu_only), Vec::<String>::new());
    assert_eq!(find_first_gpu(&cpu_only), None);
}

#[test]
fn provider_errors_render_their_detail() {
    assert_eq!(
        PostProviderError::PlatformListError(String::from("no driver")).message(),
        "Failed to list platforms: no driver"
    );
    assert_eq!(
        PostProviderError::DeviceListError(String::from("lost")).message(),
        "Failed to list devices: lost"
    );
    assert_eq!(
        PostProviderError::DeviceInfoError(String::from("timeout")).message(),
        "Failed to get device info: timeout"
    );
    assert_eq!(PostProviderError::DeviceNotFound.message(), "Device not found");
}
