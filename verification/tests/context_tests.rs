use dotnet_hostfxr::context::DelegateType;
use dotnet_hostfxr::context::HostFxr;
use dotnet_hostfxr::context::HostFxrParameters;
use dotnet_hostfxr::context::PROPERTY_BUFFER_CAPACITY;
use dotnet_hostfxr::context::collect_properties;
use dotnet_hostfxr::context::delegate_outcome;
use dotnet_hostfxr::context::initialize_outcome;
use dotnet_hostfxr::context::property_value_outcome;
use dotnet_hostfxr::error::HostFxrError;
use dotnet_hostfxr::library::HostFxrLibrary;
use dotnet_hostfxr::string::into_c_bytes;

fn table() -> HostFxrLibrary {
    let resolved: Vec<Option<u64>> = (1..=9).map(|t| Some(t as u64)).collect();
    HostFxrLibrary::from_library(&resolved).unwrap()
}

fn live_context() -> HostFxr {
    HostFxr::new(0x1000, &table(), 0x2000).unwrap()
}

#[test]
fn test_initialize_outcome_rejects_null_handle() {
    // A simulated initializer reporting success while writing no handle.
    assert_eq!(initialize_outcome(0, 0), Err(HostFxrError::BadHandle));
    assert_eq!(initialize_outcome(1, 0), Err(HostFxrError::BadHandle));
    assert_eq!(HostFxr::new(0, &table(), 0x2000).err(), Some(HostFxrError::BadHandle));
}

#[test]
fn test_initialize_outcome_propagates_failure() {
    assert_eq!(initialize_outcome(-17, 0x30), Err(HostFxrError::Status(-17)));
    // A failure never yields a handle, even if one was written.
    assert_eq!(initialize_outcome(-1, 0), Err(HostFxrError::Status(-1)));
}

#[test]
fn test_initialize_outcome_success() {
    assert_eq!(initialize_outcome(0, 0x30), Ok(0x30));
    assert_eq!(initialize_outcome(2, 0x30), Ok(0x30));
}

#[test]
fn test_context_single_release() {
    let mut ctx = live_context();
    assert!(ctx.release(), "first release owes the native close");
    assert!(!ctx.release(), "second release must be a no-op");
    assert!(!ctx.release(), "later releases stay no-ops");
}

#[test]
fn test_operations_fail_after_close() {
    let mut ctx = live_context();
    ctx.release();
    assert!(matches!(
        ctx.get_runtime_property("RUNTIME_IDENTIFIER"),
        Err(HostFxrError::UseAfterClose)
    ));
    assert!(matches!(
        ctx.set_runtime_property_value("A", "B"),
        Err(HostFxrError::UseAfterClose)
    ));
    assert!(matches!(ctx.run_app(), Err(HostFxrError::UseAfterClose)));
    assert!(matches!(
        ctx.get_runtime_properties(),
        Err(HostFxrError::UseAfterClose)
    ));
    assert!(matches!(
        ctx.get_runtime_delegate(DelegateType::ComActivation),
        Err(HostFxrError::UseAfterClose)
    ));
}

#[test]
fn test_property_requests_encode_arguments() {
    let ctx = live_context();

    let write = ctx.set_runtime_property_value("NAME", "VALUE").unwrap();
    assert_eq!(write.handle, 0x1000);
    assert_eq!(write.symbol, table().set_runtime_property);
    assert_eq!(write.name, into_c_bytes("NAME"));
    assert_eq!(write.value, into_c_bytes("VALUE"));

    let read = ctx.get_runtime_property("NAME").unwrap();
    assert_eq!(read.handle, 0x1000);
    assert_eq!(read.symbol, table().get_runtime_property);
    assert_eq!(read.name, into_c_bytes("NAME"));

    assert!(matches!(
        ctx.set_runtime_property_value("NA\0ME", "V"),
        Err(HostFxrError::EmbeddedTerminator)
    ));
}

#[test]
fn test_property_value_outcome() {
    let value = into_c_bytes("win10-x64");
    assert_eq!(
        property_value_outcome(0, value.as_slice()),
        Ok("win10-x64".to_string())
    );
    assert_eq!(
        property_value_outcome(-3, value.as_slice()),
        Err(HostFxrError::Status(-3))
    );
}

#[test]
fn test_batch_properties_truncation() {
    // Fixed buffers sized for 2048 entries, while the native side reports 3.
    let mut keys: Vec<Vec<u8>> = Vec::new();
    let mut values: Vec<Vec<u8>> = Vec::new();
    keys.push(into_c_bytes("K0"));
    values.push(into_c_bytes("V0"));
    keys.push(into_c_bytes("K1"));
    values.push(into_c_bytes("V1"));
    keys.push(into_c_bytes("K2"));
    values.push(into_c_bytes("V2"));
    while keys.len() < PROPERTY_BUFFER_CAPACITY {
        keys.push(vec![0xEE, 0xEE, 0]);
        values.push(vec![0xEE, 0]);
    }

    let pairs = collect_properties(0, 3, &keys, &values).unwrap();
    assert_eq!(pairs.len(), 3);
    assert_eq!(pairs[0], ("K0".to_string(), "V0".to_string()));
    assert_eq!(pairs[1], ("K1".to_string(), "V1".to_string()));
    assert_eq!(pairs[2], ("K2".to_string(), "V2".to_string()));
}

#[test]
fn test_batch_properties_errors() {
    let keys = vec![into_c_bytes("K")];
    let values = vec![into_c_bytes("V")];
    assert!(matches!(
        collect_properties(-9, 1, &keys, &values),
        Err(HostFxrError::Status(-9))
    ));
    assert!(matches!(
        collect_properties(0, 2, &keys, &values),
        Err(HostFxrError::InvalidBufferSize)
    ));
    assert_eq!(collect_properties(0, 0, &keys, &values), Ok(vec![]));
}

#[test]
fn test_properties_request_uses_fixed_capacity() {
    let ctx = live_context();
    let req = ctx.get_runtime_properties().unwrap();
    assert_eq!(req.handle, 0x1000);
    assert_eq!(req.symbol, table().get_runtime_properties);
    assert_eq!(req.capacity, PROPERTY_BUFFER_CAPACITY);
    assert_eq!(req.capacity, 2048);
}

#[test]
fn test_delegate_kinds() {
    assert_eq!(DelegateType::ComActivation.as_native(), 0);
    assert_eq!(DelegateType::LoadInMemoryAssembly.as_native(), 1);
    assert_eq!(DelegateType::WinRTActivation.as_native(), 2);
    assert_eq!(DelegateType::ComRegister.as_native(), 3);
    assert_eq!(DelegateType::ComUnRegister.as_native(), 4);
    assert_eq!(
        DelegateType::LoadAssemblyAndGetFunctionPointer.as_native(),
        5
    );
}

#[test]
fn test_delegate_request_and_outcome() {
    let ctx = live_context();
    let req = ctx
        .get_runtime_delegate(DelegateType::LoadAssemblyAndGetFunctionPointer)
        .unwrap();
    assert_eq!(req.handle, 0x1000);
    assert_eq!(req.symbol, table().get_runtime_delegate);
    assert_eq!(req.kind, 5);

    assert_eq!(delegate_outcome(0, 0x77), Ok(0x77));
    assert_eq!(delegate_outcome(-2, 0x77), Err(HostFxrError::Status(-2)));
}

#[test]
fn test_run_app_request() {
    let ctx = live_context();
    let call = ctx.run_app().unwrap();
    assert_eq!(call.handle, 0x1000);
    assert_eq!(call.symbol, table().run_app);
}

#[test]
fn test_load_assembly_request() {
    let ctx = live_context();
    let req = ctx
        .load_assembly_and_get_delegate(
            "bridge/bin/Release/net5.0/bridge.dll",
            "Bridge, Bridge, Version=1.0.0.0, Culture=neutral, PublicKeyToken=null",
            "GetBridge",
            None,
        )
        .unwrap();
    assert_eq!(req.delegate, 0x2000);
    assert_eq!(
        req.assembly_path,
        into_c_bytes("bridge/bin/Release/net5.0/bridge.dll")
    );
    assert_eq!(req.method_name, into_c_bytes("GetBridge"));
    assert!(req.delegate_type_name.is_none());

    let req = ctx
        .load_assembly_and_get_delegate("a.dll", "T", "M", Some("D"))
        .unwrap();
    assert_eq!(req.delegate_type_name, Some(into_c_bytes("D")));

    assert!(matches!(
        ctx.load_assembly_and_get_delegate("a.dll", "T\0", "M", None),
        Err(HostFxrError::EmbeddedTerminator)
    ));
}

#[test]
fn test_initialize_command_line_request() {
    let lib = table();
    let args = vec!["app.dll".to_string(), "--flag".to_string(), "value".to_string()];
    let req = lib.initialize_command_line(&args, None).unwrap();
    assert_eq!(req.symbol, lib.initialize_command_line);
    assert_eq!(req.argc, 3);
    assert_eq!(req.args.len(), 3);
    assert_eq!(req.args[0], into_c_bytes("app.dll"));
    assert_eq!(req.args[1], into_c_bytes("--flag"));
    assert_eq!(req.args[2], into_c_bytes("value"));
    assert!(req.parameters.is_none());

    let bad = vec!["app.dll".to_string(), "ar\0g".to_string()];
    assert!(matches!(
        lib.initialize_command_line(&bad, None),
        Err(HostFxrError::EmbeddedTerminator)
    ));
}

#[test]
fn test_initialize_runtime_config_request() {
    let lib = table();
    let params = HostFxrParameters {
        host_path: "/usr/share/dotnet".to_string(),
        dotnet_root: "/usr/share/dotnet/root".to_string(),
    };
    let req = lib
        .initialize_runtime_config("bridge/bridge.runtimeconfig.json", Some(&params))
        .unwrap();
    assert_eq!(req.symbol, lib.initialize_config);
    assert_eq!(
        req.config_path,
        into_c_bytes("bridge/bridge.runtimeconfig.json")
    );
    let encoded = req.parameters.unwrap();
    assert_eq!(encoded.host_path, into_c_bytes("/usr/share/dotnet"));
    assert_eq!(encoded.dotnet_root, into_c_bytes("/usr/share/dotnet/root"));

    let bad = HostFxrParameters {
        host_path: "a\0b".to_string(),
        dotnet_root: "c".to_string(),
    };
    assert!(matches!(
        lib.initialize_runtime_config("cfg.json", Some(&bad)),
        Err(HostFxrError::EmbeddedTerminator)
    ));
}
