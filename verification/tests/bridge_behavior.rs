use uvm_jni::cache::{HandleCache, ResolvedHandles};
use uvm_jni::component::{component_from_wire, constant_name, Component};
use uvm_jni::dispatch::{
    complete_components_entry, complete_installation_entry, complete_installations_entry,
    complete_text_entry, format_project_version,
};
use uvm_jni::error_bridge::{
    report_and_convert, BoundaryError, BoundaryErrorKind, ReturnShape, SentinelValue,
};
use uvm_jni::log_bridge::{host_method_for, route_record, HostLogMethod, LogRoute, NativeLevel};
use uvm_jni::marshal::{
    collect_array_elements, get_file, get_installation, get_path, marshal_component_set,
    marshal_components, marshal_installations, read_installation, InstallationRecord,
    ManagedInstallation,
};
use uvm_jni::version::{format_version, parse_version, ReleaseKind, SemanticVersion};
use uvm_jni::uvm_version;

fn sample_handles(base: u64) -> ResolvedHandles {
    ResolvedHandles {
        logger_class: base,
        file_class: base + 1,
        installation_class: base + 2,
        component_class: base + 3,
        logger_fine: base + 4,
        logger_finer: base + 5,
        logger_info: base + 6,
        logger_warning: base + 7,
        logger_severe: base + 8,
        logger_get_logger: base + 9,
        file_get_absolute_path: base + 10,
        logger_obj: base + 11,
        java_vm: base + 12,
    }
}

#[test]
fn bridge_reports_its_version() {
    assert_eq!(uvm_version(), "0.6.0");
}

#[test]
fn parse_version_accepts_release_version() {
    let v = parse_version("2021.3.5f1").unwrap();
    assert_eq!(
        v,
        SemanticVersion { major: 2021, minor: 3, patch: 5, release: ReleaseKind::Final, revision: 1 }
    );
}

#[test]
fn parse_version_accepts_every_release_letter() {
    assert_eq!(parse_version("1.2.3a4").unwrap().release, ReleaseKind::Alpha);
    assert_eq!(parse_version("1.2.3b4").unwrap().release, ReleaseKind::Beta);
    assert_eq!(parse_version("1.2.3f4").unwrap().release, ReleaseKind::Final);
    assert_eq!(parse_version("1.2.3p4").unwrap().release, ReleaseKind::Patch);
}

#[test]
fn parse_version_accepts_zero_fields() {
    let v = parse_version("0.0.0a0").unwrap();
    assert_eq!(
        v,
        SemanticVersion { major: 0, minor: 0, patch: 0, release: ReleaseKind::Alpha, revision: 0 }
    );
}

#[test]
fn parse_version_accepts_large_fields() {
    let v = parse_version("18446744073709551615.1.2f3").unwrap();
    assert_eq!(v.major, u64::MAX);
}

#[test]
fn parse_version_rejects_malformed_strings() {
    for s in [
        "",
        "1",
        "1.2",
        "1.2.3",
        "1.2.3f",
        "1.2.3x4",
        "1.2.3f4x",
        ".1.2.3f1",
        "1..2f3",
        "1.2.f3",
        "a.b.cf1",
        "1.2.3f4 ",
        " 1.2.3f4",
        "1.2.3f4.5",
    ] {
        let e = parse_version(s).unwrap_err();
        assert_eq!(e.kind, BoundaryErrorKind::Conversion);
    }
}

#[test]
fn parse_version_rejects_numbers_too_large_for_u64() {
    let e = parse_version("18446744073709551616.1.2f3").unwrap_err();
    assert_eq!(e.kind, BoundaryErrorKind::Conversion);
}

#[test]
fn format_version_writes_canonical_form() {
    let v = SemanticVersion {
        major: 2021,
        minor: 3,
        patch: 5,
        release: ReleaseKind::Final,
        revision: 1,
    };
    assert_eq!(format_version(&v), "2021.3.5f1");
    let w = SemanticVersion { major: 0, minor: 10, patch: 0, release: ReleaseKind::Beta, revision: 207 };
    assert_eq!(format_version(&w), "0.10.0b207");
}

#[test]
fn version_round_trips_through_its_string_form() {
    let v = SemanticVersion {
        major: 2019,
        minor: 4,
        patch: 31,
        release: ReleaseKind::Patch,
        revision: 2,
    };
    assert_eq!(parse_version(&format_version(&v)).unwrap(), v);
}

#[test]
fn detect_project_version_with_revision_hash() {
    let v = parse_version("2021.3.5f1").unwrap();
    let s = format_project_version(&v, Some("abc123"), true);
    assert_eq!(s, "2021.3.5f1 (abc123)");
}

#[test]
fn detect_project_version_without_revision_hash() {
    let v = parse_version("2021.3.5f1").unwrap();
    assert_eq!(format_project_version(&v, Some("abc123"), false), "2021.3.5f1");
    assert_eq!(format_project_version(&v, None, true), "2021.3.5f1");
}

#[test]
fn component_names_follow_the_table() {
    assert_eq!(constant_name(Component::Android), "android");
    assert_eq!(constant_name(Component::TvOs), "tvOs");
    assert_eq!(constant_name(Component::WindowsMono), "windowsMono");
    assert_eq!(constant_name(Component::Example), "exampleProject");
    assert_eq!(constant_name(Component::ExampleProject), "exampleProject");
    assert_eq!(
        constant_name(Component::VisualStudioEnterpriseUnityWorkload),
        "visualStudioProfessionalUnityWorkload"
    );
    assert_eq!(constant_name(Component::Unknown), "unknown");
}

#[test]
fn component_names_fall_back_to_unknown() {
    assert_eq!(constant_name(Component::LinuxIL2CPP), "unknown");
    assert_eq!(constant_name(Component::LinuxServer), "unknown");
    assert_eq!(constant_name(Component::MacServer), "unknown");
    assert_eq!(constant_name(Component::WindowsServer), "unknown");
}

#[test]
fn every_component_has_a_nonempty_name() {
    let all = [
        Component::Android,
        Component::Ios,
        Component::TvOs,
        Component::WebGl,
        Component::Linux,
        Component::Windows,
        Component::WindowsMono,
        Component::Editor,
        Component::Mono,
        Component::VisualStudio,
        Component::MonoDevelop,
        Component::StandardAssets,
        Component::Documentation,
        Component::VisualStudioProfessionalUnityWorkload,
        Component::VisualStudioEnterpriseUnityWorkload,
        Component::ExampleProject,
        Component::Example,
        Component::AndroidSdkNdkTools,
        Component::AndroidSdkPlatforms,
        Component::AndroidSdkPlatformTools,
        Component::AndroidSdkBuildTools,
        Component::AndroidNdk,
        Component::AndroidOpenJdk,
        Component::AppleTV,
        Component::LinuxMono,
        Component::Mac,
        Component::MacIL2CPP,
        Component::MacMono,
        Component::Metro,
        Component::UwpIL2CPP,
        Component::UwpNet,
        Component::UniversalWindowsPlatform,
        Component::Samsungtv,
        Component::SamsungTV,
        Component::Tizen,
        Component::Vuforia,
        Component::VuforiaAR,
        Component::WindowsIL2CCP,
        Component::Facebook,
        Component::FacebookGames,
        Component::FacebookGameRoom,
        Component::Lumin,
        Component::LinuxIL2CPP,
        Component::LinuxServer,
        Component::MacServer,
        Component::WindowsServer,
        Component::Unknown,
    ];
    for c in all {
        assert!(!constant_name(c).is_empty());
    }
}

#[test]
fn wire_integers_map_to_their_variants() {
    assert_eq!(component_from_wire(0), Component::Android);
    assert_eq!(component_from_wire(1), Component::Ios);
    assert_eq!(component_from_wire(3), Component::WebGl);
    assert_eq!(component_from_wire(7), Component::Editor);
    assert_eq!(component_from_wire(13), Component::VisualStudioEnterpriseUnityWorkload);
    assert_eq!(component_from_wire(14), Component::VisualStudioEnterpriseUnityWorkload);
    assert_eq!(component_from_wire(41), Component::Lumin);
    assert_eq!(component_from_wire(45), Component::WindowsServer);
}

#[test]
fn unmapped_wire_integers_yield_unknown() {
    assert_eq!(component_from_wire(2), Component::Unknown);
    assert_eq!(component_from_wire(46), Component::Unknown);
    assert_eq!(component_from_wire(-1), Component::Unknown);
    assert_eq!(component_from_wire(i32::MAX), Component::Unknown);
    assert_eq!(component_from_wire(i32::MIN), Component::Unknown);
}

#[test]
fn log_levels_map_to_host_methods() {
    assert_eq!(host_method_for(NativeLevel::Trace), HostLogMethod::Fine);
    assert_eq!(host_method_for(NativeLevel::Debug), HostLogMethod::Fine);
    assert_eq!(host_method_for(NativeLevel::Info), HostLogMethod::Info);
    assert_eq!(host_method_for(NativeLevel::Warn), HostLogMethod::Warning);
    assert_eq!(host_method_for(NativeLevel::Error), HostLogMethod::Severe);
}

#[test]
fn log_records_route_to_the_host_logger_when_attached() {
    match route_record(true, NativeLevel::Warn, String::from("low disk space")) {
        LogRoute::HostCall { method, message } => {
            assert_eq!(method, HostLogMethod::Warning);
            assert_eq!(message, "low disk space");
        }
        LogRoute::ConsoleFallback { .. } => panic!("expected a host logger call"),
    }
}

#[test]
fn log_records_fall_back_to_standard_error_when_detached() {
    match route_record(false, NativeLevel::Error, String::from("worker failed")) {
        LogRoute::ConsoleFallback { message } => assert_eq!(message, "worker failed"),
        LogRoute::HostCall { .. } => panic!("expected the console fallback"),
    }
}

#[test]
fn every_error_kind_converts_to_a_sentinel_and_logs() {
    let kinds = [
        BoundaryErrorKind::Initialization,
        BoundaryErrorKind::Conversion,
        BoundaryErrorKind::Domain,
        BoundaryErrorKind::ForeignCall,
        BoundaryErrorKind::Io,
    ];
    for kind in kinds {
        let e = BoundaryError::new(kind, String::from("something went wrong"));
        let (lines, sentinel) = report_and_convert(&e, ReturnShape::Object);
        assert_eq!(sentinel, SentinelValue::NullObject);
        assert!(!lines.is_empty());
        assert_eq!(lines[0], "error: something went wrong");
    }
}

#[test]
fn sentinels_follow_the_return_shape() {
    let e = BoundaryError::new(BoundaryErrorKind::Io, String::from("read failed"));
    assert_eq!(report_and_convert(&e, ReturnShape::Object).1, SentinelValue::NullObject);
    assert_eq!(report_and_convert(&e, ReturnShape::Array).1, SentinelValue::NullArray);
    assert_eq!(report_and_convert(&e, ReturnShape::Text).1, SentinelValue::NullText);
}

#[test]
fn cause_chain_and_backtrace_render_one_line_each() {
    let e = BoundaryError::new(BoundaryErrorKind::Domain, String::from("install failed"))
        .with_cause(String::from("manifest missing"))
        .with_cause(String::from("file not found"))
        .with_backtrace(String::from("frame 0"));
    let (lines, _) = report_and_convert(&e, ReturnShape::Object);
    assert_eq!(
        lines,
        vec![
            String::from("error: install failed"),
            String::from("caused by: manifest missing"),
            String::from("caused by: file not found"),
            String::from("backtrace: frame 0"),
        ]
    );
}

#[test]
fn path_round_trips_through_the_managed_file_object() {
    let file = get_file("/opt/unity/2021.3.5f1");
    assert_eq!(get_path(&file), "/opt/unity/2021.3.5f1");
}

#[test]
fn installation_marshals_to_path_and_version_string() {
    let record = InstallationRecord {
        path: String::from("/opt/unity/2021.3.5f1"),
        version: parse_version("2021.3.5f1").unwrap(),
    };
    let m = get_installation(&record);
    assert_eq!(m.location.absolute_path, "/opt/unity/2021.3.5f1");
    assert_eq!(m.version, "2021.3.5f1");
}

#[test]
fn installation_reads_back_from_the_managed_object() {
    let m = ManagedInstallation {
        location: get_file("/opt/unity/2019.4.31p2"),
        version: String::from("2019.4.31p2"),
    };
    let record = read_installation(&m).unwrap();
    assert_eq!(record.path, "/opt/unity/2019.4.31p2");
    assert_eq!(record.version, parse_version("2019.4.31p2").unwrap());
}

#[test]
fn installation_with_malformed_version_fails_conversion() {
    let m = ManagedInstallation {
        location: get_file("/opt/unity/broken"),
        version: String::from("not-a-version"),
    };
    let e = read_installation(&m).unwrap_err();
    assert_eq!(e.kind, BoundaryErrorKind::Conversion);
}

#[test]
fn installation_arrays_marshal_in_order() {
    let records = vec![
        InstallationRecord {
            path: String::from("/a"),
            version: parse_version("2020.1.0f1").unwrap(),
        },
        InstallationRecord {
            path: String::from("/b"),
            version: parse_version("2021.2.7b9").unwrap(),
        },
    ];
    let out = marshal_installations(&records);
    assert_eq!(out.len(), 2);
    assert_eq!(out[0].location.absolute_path, "/a");
    assert_eq!(out[0].version, "2020.1.0f1");
    assert_eq!(out[1].location.absolute_path, "/b");
    assert_eq!(out[1].version, "2021.2.7b9");
}

#[test]
fn component_arrays_marshal_to_constant_names_in_order() {
    let names = marshal_components(&vec![Component::Editor, Component::Android, Component::Unknown]);
    assert_eq!(names, vec!["editor", "android", "unknown"]);
}

#[test]
fn array_completion_collects_every_element() {
    let items: Vec<Result<u64, BoundaryError>> = vec![Ok(10), Ok(20), Ok(30)];
    assert_eq!(collect_array_elements(&items).unwrap(), vec![10, 20, 30]);
}

#[test]
fn array_completion_aborts_on_the_first_failing_element() {
    let items: Vec<Result<u64, BoundaryError>> = vec![
        Ok(10),
        Err(BoundaryError::new(
            BoundaryErrorKind::ForeignCall,
            String::from("constructor rejected"),
        )),
        Ok(30),
        Err(BoundaryError::new(BoundaryErrorKind::Io, String::from("later failure"))),
    ];
    let e = collect_array_elements(&items).unwrap_err();
    assert_eq!(e.kind, BoundaryErrorKind::ForeignCall);
    assert_eq!(e.message, "constructor rejected");
}

#[test]
fn component_sets_deduplicate_wire_values() {
    let set = marshal_component_set(&vec![0, 0, 1, 2, 2, 46]);
    assert_eq!(set, vec![Component::Android, Component::Ios, Component::Unknown]);
}

#[test]
fn empty_wire_list_yields_the_empty_component_set() {
    assert_eq!(marshal_component_set(&vec![]), Vec::<Component>::new());
}

#[test]
fn cache_initialization_is_idempotent() {
    let mut cache = HandleCache::new();
    assert!(!cache.check_cache_initialized());
    let first = sample_handles(100);
    let second = sample_handles(500);
    cache.initialize(first);
    assert!(cache.check_cache_initialized());
    cache.initialize(second);
    assert_eq!(*cache.get(), first);
    assert_eq!(cache.get_fine_id(), 104);
    assert_eq!(cache.get_jvm(), 112);
}

#[test]
fn cache_accessors_return_the_resolved_handles() {
    let mut cache = HandleCache::new();
    cache.initialize(sample_handles(0));
    assert_eq!(cache.get_logger_class(), 0);
    assert_eq!(cache.get_file_class(), 1);
    assert_eq!(cache.get_fine_id(), 4);
    assert_eq!(cache.get_finer_id(), 5);
    assert_eq!(cache.get_info_id(), 6);
    assert_eq!(cache.get_warning_id(), 7);
    assert_eq!(cache.get_severe_id(), 8);
    assert_eq!(cache.get_logger_id(), 9);
    assert_eq!(cache.get_absolute_path_id(), 10);
    assert_eq!(cache.get_logger_obj(), 11);
    assert_eq!(cache.get_jvm(), 12);
}

#[test]
fn resolution_plan_lists_the_required_bindings() {
    let methods = uvm_jni::cache::required_method_bindings();
    assert_eq!(methods.len(), 7);
    assert_eq!(methods[0].class_name, "java/util/logging/Logger");
    assert_eq!(methods[0].member_name, "fine");
    assert_eq!(methods[0].type_signature, "(Ljava/lang/String;)V");
    assert!(!methods[0].is_static);
    assert_eq!(methods[5].class_name, "java/io/File");
    assert_eq!(methods[5].member_name, "getAbsolutePath");
    assert_eq!(methods[5].type_signature, "()Ljava/lang/String;");
    assert_eq!(methods[6].member_name, "getLogger");
    assert!(methods[6].is_static);

    let classes = uvm_jni::cache::required_class_names();
    assert_eq!(
        classes,
        vec![
            "java/util/logging/Logger",
            "java/io/File",
            "net/wooga/uvm/Installation",
            "net/wooga/uvm/Component",
        ]
    );
    assert_eq!(uvm_jni::cache::bridge_logger_name(), "net.wooga.uvm.UnityVersionManager.JNI");
}

#[test]
fn resolution_failure_messages_name_the_expected_member() {
    let bindings = uvm_jni::cache::required_method_bindings();
    assert_eq!(
        uvm_jni::cache::method_missing_message(&bindings[0]),
        "Method fine with signature (Ljava/lang/String;)V of class java/util/logging/Logger not found"
    );
    assert_eq!(
        uvm_jni::cache::method_missing_message(&bindings[6]),
        "Static method getLogger with signature (Ljava/lang/String;)Ljava/util/logging/Logger; of class java/util/logging/Logger not found"
    );
    assert_eq!(
        uvm_jni::cache::class_missing_message("java/io/File"),
        "Class java/io/File not found"
    );
}

#[test]
fn locate_entry_returns_sentinel_and_one_domain_line_when_nothing_matches() {
    let failure = BoundaryError::new(
        BoundaryErrorKind::Domain,
        String::from("no installation found for version 2021.3.5f1"),
    );
    let (lines, value) = complete_installation_entry(Err(failure));
    assert!(value.is_none());
    assert_eq!(lines, vec![String::from("error: no installation found for version 2021.3.5f1")]);
}

#[test]
fn install_entry_shape_is_independent_of_the_component_set() {
    let record = || InstallationRecord {
        path: String::from("/opt/unity/2021.3.5f1"),
        version: parse_version("2021.3.5f1").unwrap(),
    };
    let empty_set = marshal_component_set(&vec![]);
    assert!(empty_set.is_empty());
    let one_component = marshal_component_set(&vec![0]);
    assert_eq!(one_component, vec![Component::Android]);

    let (lines_a, value_a) = complete_installation_entry(Ok(record()));
    let (lines_b, value_b) = complete_installation_entry(Ok(record()));
    assert!(lines_a.is_empty() && lines_b.is_empty());
    let a = value_a.unwrap();
    let b = value_b.unwrap();
    assert_eq!(a.location.absolute_path, b.location.absolute_path);
    assert_eq!(a.version, b.version);
}

#[test]
fn successful_entries_produce_managed_values_and_no_log_lines() {
    let (lines, text) = complete_text_entry(Ok(String::from("2021.3.5f1")));
    assert!(lines.is_empty());
    assert_eq!(text.unwrap(), "2021.3.5f1");

    let (lines, list) = complete_installations_entry(Ok(vec![InstallationRecord {
        path: String::from("/a"),
        version: parse_version("2020.1.0f1").unwrap(),
    }]));
    assert!(lines.is_empty());
    let list = list.unwrap();
    assert_eq!(list.len(), 1);
    assert_eq!(list[0].version, "2020.1.0f1");

    let (lines, names) = complete_components_entry(Ok(vec![Component::Android, Component::Ios]));
    assert!(lines.is_empty());
    assert_eq!(names.unwrap(), vec!["android", "ios"]);
}

#[test]
fn failing_entries_log_and_return_the_shape_sentinel() {
    let make = || BoundaryError::new(BoundaryErrorKind::Io, String::from("disk unreadable"))
        .with_cause(String::from("permission denied"));

    let (lines, text) = complete_text_entry(Err(make()));
    assert!(text.is_none());
    assert_eq!(
        lines,
        vec![String::from("error: disk unreadable"), String::from("caused by: permission denied")]
    );

    let (lines, list) = complete_installations_entry(Err(make()));
    assert!(list.is_none());
    assert_eq!(lines.len(), 2);

    let (lines, names) = complete_components_entry(Err(make()));
    assert!(names.is_none());
    assert_eq!(lines.len(), 2);
}
