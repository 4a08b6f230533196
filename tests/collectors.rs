use rustbelt::collectors::{
    amsi_provider_server_path, amsi_providers_path, amsi_providers_table, antivirus_fields,
    antivirus_query, antivirus_table, boot_time_micros, example_table, filetime_to_unix_micros,
    last_shutdown, last_shutdown_table, osinfo, osinfo_env_names, osinfo_table,
    osinfo_value_names,
};
use rustbelt::hive::{base_key_outcome, classify_registry_error, hive_is_supported};
use rustbelt::{
    AmsiProvidersCommand, AntivirusCommand, CellValue, ErrorKind, ExampleCommand,
    LastShutdownCommand, OSInfoCommand, RegistryHive, Row, Runtime,
};

fn named_row(name: &str) -> Row {
    let mut r = Row::new();
    r.insert("displayName".to_string(), CellValue::Text(name.to_string()));
    r
}

#[test]
fn antivirus_table_keeps_rows_read_in_full() {
    let t = antivirus_table(vec![
        Ok(named_row("one")),
        Err(ErrorKind::Backend(-2)),
        Ok(named_row("three")),
    ]);
    assert_eq!(t.source, "Antivirus");
    assert_eq!(t.data, vec![named_row("one"), named_row("three")]);
}

#[test]
fn antivirus_reads_the_security_center() {
    let (ns, q) = antivirus_query();
    assert_eq!(ns, "root\\SecurityCenter2");
    assert_eq!(q, "SELECT * FROM AntiVirusProduct");
    assert_eq!(antivirus_fields(), vec!["displayName", "pathToSignedProductExe", "pathToSignedReportingExe"]);
}

#[test]
fn amsi_paths() {
    assert_eq!(amsi_providers_path(), "SOFTWARE\\Microsoft\\AMSI\\Providers");
    assert_eq!(
        amsi_provider_server_path(&"{2781761E-28E0-4109-99FE-B9D127C57AFE}".to_string()),
        "SOFTWARE\\Classes\\CLSID\\{2781761E-28E0-4109-99FE-B9D127C57AFE}\\InprocServer32"
    );
}

#[test]
fn amsi_table_has_one_row_per_found_provider() {
    let t = amsi_providers_table(vec![
        Ok("C:\\a.dll".to_string()),
        Err(ErrorKind::NotFound),
        Ok("C:\\b.dll".to_string()),
    ]);
    assert_eq!(t.source, "Amsi Providers");
    assert_eq!(t.data.len(), 2);
    assert_eq!(t.data[0].get(&"AMSI Provider".to_string()), Some(&CellValue::Text("C:\\a.dll".to_string())));
    assert_eq!(t.data[1].get(&"AMSI Provider".to_string()), Some(&CellValue::Text("C:\\b.dll".to_string())));
}

#[test]
fn example_table_is_empty() {
    let t = example_table();
    assert_eq!(t.source, "Example");
    assert!(t.data.is_empty());
}

#[test]
fn filetime_decodes_to_unix_micros() {
    // 2024-01-01 00:00:00 UTC
    let bytes = vec![0, 192, 137, 118, 69, 60, 218, 1];
    assert_eq!(filetime_to_unix_micros(&bytes), Ok(1_704_067_200_000_000));
    let epoch = 116444736000000000i64.to_le_bytes().to_vec();
    assert_eq!(filetime_to_unix_micros(&epoch), Ok(0));
    let before = (116444736000000000i64 - 15).to_le_bytes().to_vec();
    assert_eq!(filetime_to_unix_micros(&before), Ok(-1));
}

#[test]
fn short_or_out_of_range_filetime_is_a_decode_failure() {
    assert_eq!(filetime_to_unix_micros(&vec![1, 2, 3]), Err(ErrorKind::Decode));
    assert_eq!(filetime_to_unix_micros(&i64::MIN.to_le_bytes().to_vec()), Err(ErrorKind::Decode));
    assert_eq!(last_shutdown(&vec![]), Err(ErrorKind::Decode));
}

#[test]
fn last_shutdown_renders_the_time() {
    let t = last_shutdown(&vec![0, 192, 137, 118, 69, 60, 218, 1]).unwrap();
    assert_eq!(t.source, "Last Shutdown");
    assert_eq!(t.data.len(), 1);
    assert_eq!(
        t.data[0].get(&"Last Shutdown".to_string()),
        Some(&CellValue::Text("2024-01-01 00:00:00 UTC".to_string()))
    );
    let direct = last_shutdown_table("x".to_string());
    assert_eq!(direct.data[0].get(&"Last Shutdown".to_string()), Some(&CellValue::Text("x".to_string())));
}

#[test]
fn boot_time_is_now_minus_uptime() {
    assert_eq!(boot_time_micros(10_000, 4_000), Ok(6_000_000));
    assert_eq!(boot_time_micros(i64::MIN, 1), Err(ErrorKind::Decode));
}

#[test]
fn osinfo_row_holds_what_was_found() {
    let t = osinfo_table(
        vec![
            ("ProductName".to_string(), Ok("Windows 11 Pro".to_string())),
            ("ReleaseId".to_string(), Err(ErrorKind::NotFound)),
        ],
        vec![
            ("COMPUTERNAME".to_string(), Some("HOST".to_string())),
            ("NUMBER_OF_PROCESSORS".to_string(), None),
        ],
        "boot".to_string(),
        "UTC".to_string(),
        Ok("guid".to_string()),
    )
    .unwrap();
    assert_eq!(t.source, "OSInfo");
    let row = &t.data[0];
    assert_eq!(row.len(), 5);
    assert_eq!(row.column(0).0, "ProductName");
    assert_eq!(row.get(&"ReleaseId".to_string()), None);
    assert_eq!(row.get(&"COMPUTERNAME".to_string()), Some(&CellValue::Text("HOST".to_string())));
    assert_eq!(row.get(&"NUMBER_OF_PROCESSORS".to_string()), None);
    assert_eq!(row.get(&"MachineGuid".to_string()), Some(&CellValue::Text("guid".to_string())));
}

#[test]
fn osinfo_fails_with_the_machine_id_failure() {
    let r = osinfo(vec![], vec![], 1_000, 0, "UTC".to_string(), Err(ErrorKind::Backend(5)));
    assert_eq!(r, Err(ErrorKind::Backend(5)));
    let ok = osinfo(vec![], vec![], 1_000, 0, "UTC".to_string(), Ok("g".to_string())).unwrap();
    assert_eq!(
        ok.data[0].get(&"BootTime".to_string()),
        Some(&CellValue::Text("1970-01-01 00:00:01 UTC".to_string()))
    );
}

#[test]
fn osinfo_names() {
    assert_eq!(osinfo_value_names().len(), 8);
    assert_eq!(osinfo_env_names(), vec!["PROCESSOR_ARCHITECTURE", "NUMBER_OF_PROCESSORS", "COMPUTERNAME"]);
}

#[test]
fn collectors_declare_remote_support() {
    assert!(!ExampleCommand::default().data.support_remote);
    assert!(!AntivirusCommand::default().data.support_remote);
    assert!(!AmsiProvidersCommand::default().data.support_remote);
    assert!(LastShutdownCommand::default().data.support_remote);
    assert!(OSInfoCommand::default().data.support_remote);
}

#[test]
fn registry_errors_are_classified() {
    assert_eq!(classify_registry_error(2), ErrorKind::NotFound);
    assert_eq!(classify_registry_error(-2147024894), ErrorKind::NotFound);
    assert_eq!(classify_registry_error(5), ErrorKind::Backend(5));
    assert_eq!(base_key_outcome(Ok(())), Ok(true));
    assert_eq!(base_key_outcome(Err(2)), Ok(false));
    assert_eq!(base_key_outcome(Err(5)), Err(ErrorKind::Backend(5)));
    assert!(hive_is_supported(RegistryHive::LocalMachine));
    assert!(!hive_is_supported(RegistryHive::DynData));
    assert!(!hive_is_supported(RegistryHive::PerformanceData));
}

#[test]
fn runtime_target_and_credentials() {
    let local = Runtime::new(None, None, None);
    assert!(!local.is_remote());
    assert_eq!(local.credentials(), (String::new(), String::new()));
    let remote = Runtime::new(Some("u".to_string()), Some("p".to_string()), Some("host".to_string()));
    assert!(remote.is_remote());
    assert_eq!(remote.credentials(), ("u".to_string(), "p".to_string()));
}
