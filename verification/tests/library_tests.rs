use dotnet_hostfxr::error::GetHostFxrError;
use dotnet_hostfxr::error::HostFxrError;
use dotnet_hostfxr::library::HostFxrLibrary;
use dotnet_hostfxr::library::REQUIRED_EXPORT_COUNT;
use dotnet_hostfxr::library::required_exports;
use dotnet_hostfxr::nethost::HOST_API_BUFFER_TOO_SMALL;
use dotnet_hostfxr::nethost::MAX_PATH;
use dotnet_hostfxr::nethost::get_hostfxr;

#[test]
fn test_required_exports_are_fixed() {
    let names = required_exports();
    assert_eq!(names.len(), REQUIRED_EXPORT_COUNT);
    assert_eq!(names[0], "hostfxr_set_error_writer");
    assert_eq!(names[1], "hostfxr_initialize_for_dotnet_command_line");
    assert_eq!(names[2], "hostfxr_initialize_for_runtime_config");
    assert_eq!(names[3], "hostfxr_get_runtime_property_value");
    assert_eq!(names[4], "hostfxr_set_runtime_property_value");
    assert_eq!(names[5], "hostfxr_get_runtime_properties");
    assert_eq!(names[6], "hostfxr_run_app");
    assert_eq!(names[7], "hostfxr_get_runtime_delegate");
    assert_eq!(names[8], "hostfxr_close");
}

#[test]
fn test_symbol_table_construction() {
    let resolved: Vec<Option<u64>> = (1..=9).map(|t| Some(t as u64)).collect();
    let table = HostFxrLibrary::from_library(&resolved).unwrap();
    assert_eq!(table.set_error_writer, 1);
    assert_eq!(table.initialize_command_line, 2);
    assert_eq!(table.initialize_config, 3);
    assert_eq!(table.get_runtime_property, 4);
    assert_eq!(table.set_runtime_property, 5);
    assert_eq!(table.get_runtime_properties, 6);
    assert_eq!(table.run_app, 7);
    assert_eq!(table.get_runtime_delegate, 8);
    assert_eq!(table.close, 9);
}

#[test]
fn test_symbol_table_fail_fast() {
    // One missing export fails the whole construction, naming that export.
    let mut resolved: Vec<Option<u64>> = (1..=9).map(|t| Some(t as u64)).collect();
    resolved[4] = None;
    assert_eq!(
        HostFxrLibrary::from_library(&resolved),
        Err(HostFxrError::ImportNotFound(
            "hostfxr_set_runtime_property_value".to_string()
        ))
    );

    // With several missing, the first one is named.
    resolved[1] = None;
    resolved[8] = None;
    assert_eq!(
        HostFxrLibrary::from_library(&resolved),
        Err(HostFxrError::ImportNotFound(
            "hostfxr_initialize_for_dotnet_command_line".to_string()
        ))
    );
}

fn wide_with_terminator(s: &str) -> Vec<u16> {
    let mut v: Vec<u16> = s.encode_utf16().collect();
    v.push(0);
    v
}

#[test]
fn test_get_hostfxr_decodes_path() {
    let mut buf = wide_with_terminator("/usr/share/dotnet/host/fxr/5.0.0/libhostfxr.so");
    let written = buf.len() as u64;
    buf.resize(MAX_PATH, 0xEEEE);
    let path = get_hostfxr(0, buf.as_slice(), written).unwrap();
    assert_eq!(path, "/usr/share/dotnet/host/fxr/5.0.0/libhostfxr.so");
    assert!(path.ends_with("hostfxr.so"));
}

#[test]
fn test_get_hostfxr_buffer_too_small() {
    let buf = vec![0u16; 4];
    assert_eq!(
        get_hostfxr(HOST_API_BUFFER_TOO_SMALL, buf.as_slice(), 4096),
        Err(GetHostFxrError::InvalidBufferSize)
    );
}

#[test]
fn test_get_hostfxr_unexpected_status() {
    let buf = vec![0u16; 4];
    assert_eq!(
        get_hostfxr(-100, buf.as_slice(), 0),
        Err(GetHostFxrError::Unexpected(-100))
    );
    assert_eq!(
        get_hostfxr(3, buf.as_slice(), 0),
        Err(GetHostFxrError::Unexpected(3))
    );
}

#[test]
fn test_get_hostfxr_length_beyond_buffer() {
    let buf = vec![0u16; 4];
    assert_eq!(
        get_hostfxr(0, buf.as_slice(), 5),
        Err(GetHostFxrError::InvalidUtf16)
    );
}
