use dotnet_hostfxr::managed::Class;
use dotnet_hostfxr::managed::Exception;
use dotnet_hostfxr::managed::GcHandle;
use dotnet_hostfxr::managed::MemberKind;
use dotnet_hostfxr::managed::Type;
use dotnet_hostfxr::managed::TypeId;
use dotnet_hostfxr::marshal::Marshal;
use dotnet_hostfxr::marshal::MarshalFrom;
use dotnet_hostfxr::marshal::MarshalTo;
use dotnet_hostfxr::runtime::Bridge;
use dotnet_hostfxr::runtime::BridgeError;
use dotnet_hostfxr::runtime::BridgeImpl;
use dotnet_hostfxr::runtime::BridgeResult;
use dotnet_hostfxr::runtime::get_bridge_delegate_name;
use dotnet_hostfxr::runtime::get_bridge_method_name;
use dotnet_hostfxr::runtime::get_bridge_type_name;

fn imp() -> BridgeImpl {
    BridgeImpl { release: 0x10, get_method: 0x20, test: 7 }
}

#[test]
fn test_bridge_names() {
    assert_eq!(
        get_bridge_type_name(),
        "Bridge, Bridge, Version=1.0.0.0, Culture=neutral, PublicKeyToken=null"
    );
    assert_eq!(get_bridge_method_name(), "GetBridge");
    assert_eq!(
        get_bridge_delegate_name(),
        "GetBridgeDelegate, Bridge, Version=1.0.0.0, Culture=neutral, PublicKeyToken=null"
    );
}

#[test]
fn test_bridge_from_handle_rejects_null() {
    assert!(Bridge::from_handle(0, imp()).is_none());
    let bridge = Bridge::from_handle(0x99, imp()).unwrap();
    assert_eq!(bridge.imp, imp());
    assert_eq!(bridge.release(), 0x10);
}

#[test]
fn test_bridge_get_method_request() {
    let bridge = Bridge::from_handle(0x99, imp()).unwrap();
    let query = bridge.get_method(
        "Bridge.Add",
        vec![TypeId::Int32, TypeId::Int32, TypeId::Int32],
    );
    assert_eq!(query.symbol, 0x20);
    assert_eq!(query.path, b"Bridge.Add".to_vec());
    assert_eq!(
        query.types,
        vec![TypeId::Int32, TypeId::Int32, TypeId::Int32]
    );
}

#[test]
fn test_bridge_result_into_result() {
    assert_eq!(BridgeResult::Success(5u32).into_result(), Ok(5u32));
    assert_eq!(
        BridgeResult::<u32>::Failure(BridgeError::MethodNotFound).into_result(),
        Err(BridgeError::MethodNotFound)
    );
}

#[test]
fn test_gc_handle_rejects_null() {
    assert!(GcHandle::new(0).is_none());
    let handle = GcHandle::new(0x40).unwrap();
    assert_eq!(handle.raw(), 0x40);
}

#[test]
fn test_class_member_queries() {
    let class = Class::new(GcHandle::new(0x40).unwrap());

    let field = class.get_field("counter");
    assert_eq!(field.target, 0x40);
    assert_eq!(field.kind, MemberKind::Field);
    assert_eq!(field.member, "counter");

    let property = class.get_property("Length");
    assert_eq!(property.kind, MemberKind::Property);
    assert_eq!(property.member, "Length");

    let ty = class.get_type();
    assert_eq!(ty.kind, MemberKind::Method);
    assert_eq!(ty.member, "GetType");
}

#[test]
fn test_exception_message_query() {
    let exception = Exception(Class::new(GcHandle::new(0x41).unwrap()));
    let query = exception.message();
    assert_eq!(query.target, 0x41);
    assert_eq!(query.kind, MemberKind::Property);
    assert_eq!(query.member, "Message");
}

#[test]
fn test_type_queries() {
    let ty = Type(Class::new(GcHandle::new(0x42).unwrap()));
    let name = ty.get_name();
    assert_eq!(name.member, "Name");
    assert_eq!(name.kind, MemberKind::Property);
    let is_class = ty.is_class();
    assert_eq!(is_class.member, "IsClass");
    assert_eq!(is_class.target, 0x42);
}

#[test]
fn test_marshal_identities() {
    assert_eq!(<i32 as Marshal>::id(), TypeId::Int32);
    assert_eq!(<u8 as Marshal>::id(), TypeId::Byte);
    assert_eq!(<bool as Marshal>::id(), TypeId::Boolean);
    assert_eq!(<u64 as Marshal>::id(), TypeId::UInt64);
    assert_eq!(<String as Marshal>::id(), TypeId::String);
    assert!(<i32 as Marshal>::blittable());
    assert!(!<String as Marshal>::blittable());
}

#[test]
fn test_marshal_blittable_round_trip() {
    assert_eq!(7i32.marshal_to().unwrap(), 7);
    assert_eq!(<i32 as MarshalFrom>::marshal_from(7).unwrap(), 7);
    assert_eq!(true.marshal_to().unwrap(), true);
    assert_eq!(<u64 as MarshalFrom>::marshal_from(9).unwrap(), 9);
}
