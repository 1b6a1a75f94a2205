//! The execution context and its operations.
//!
//! A context is created by one of two mutually exclusive initialization
//! sequences and released exactly once.  Every operation on a live context
//! is described here as a pair: a request builder that validates the state
//! and encodes the arguments, and an outcome function that translates what
//! the native side reported.  The unverified driver carries each request to
//! the corresponding export and hands the outcome back.

use vstd::prelude::*;

use crate::error::HostFxrError;
use crate::error::HostFxrResult;
use crate::library::HostFxrLibrary;
use crate::string::c_string_units;
use crate::string::decode_c_string;
use crate::string::lossy_utf8;
use crate::string::prefix_before_zero;
use crate::string::to_c_string;

verus! {

/// The number of entries the fixed property-enumeration buffers hold.
pub const PROPERTY_BUFFER_CAPACITY: usize = 2048;

/// Optional initialization parameters: an explicit path to the loader
/// library and an explicit root directory for supporting files.  Absence
/// means "let the native side apply its defaults".
#[derive(Debug, Clone)]
pub struct HostFxrParameters {
    pub host_path: String,
    pub dotnet_root: String,
}

/// The encoded form of [`HostFxrParameters`]: both strings in their outgoing
/// 8-bit form.  An absent value crosses the boundary as a null pointer, not
/// as a zeroed structure.
#[derive(Debug, Clone)]
pub struct NativeParameters {
    pub host_path: Vec<u8>,
    pub dotnet_root: Vec<u8>,
}

/// The fixed set of runtime-provided delegate kinds.
#[derive(Debug, Clone, Copy, PartialEq, Eq, Structural)]
pub enum DelegateType {
    ComActivation,
    LoadInMemoryAssembly,
    WinRTActivation,
    ComRegister,
    ComUnRegister,
    LoadAssemblyAndGetFunctionPointer,
}

impl DelegateType {
    /// The numeric kind the native delegate getter expects.
    pub open spec fn spec_kind_code(self) -> u32 {
        match self {
            DelegateType::ComActivation => 0,
            DelegateType::LoadInMemoryAssembly => 1,
            DelegateType::WinRTActivation => 2,
            DelegateType::ComRegister => 3,
            DelegateType::ComUnRegister => 4,
            DelegateType::LoadAssemblyAndGetFunctionPointer => 5,
        }
    }

    /// Returns the numeric kind the native delegate getter expects.
    pub fn as_native(self) -> (r: u32)
        ensures
            r == self.spec_kind_code(),
    {
        match self {
            DelegateType::ComActivation => 0,
            DelegateType::LoadInMemoryAssembly => 1,
            DelegateType::WinRTActivation => 2,
            DelegateType::ComRegister => 3,
            DelegateType::ComUnRegister => 4,
            DelegateType::LoadAssemblyAndGetFunctionPointer => 5,
        }
    }
}

/// True when the optional parameters hold no embedded terminator.
pub open spec fn spec_params_clean(p: Option<&HostFxrParameters>) -> bool {
    match p {
        None => true,
        Some(q) => !q.host_path@.contains('\0') && !q.dotnet_root@.contains('\0'),
    }
}

/// True when `e` is exactly the encoded form of `p`: absent stays absent,
/// present parameters have both strings in their outgoing form.
pub open spec fn spec_params_encoded(p: Option<&HostFxrParameters>, e: Option<NativeParameters>) -> bool {
    match p {
        None => e is None,
        Some(q) => e matches Some(n) && n.host_path@ == c_string_units(q.host_path@)
            && n.dotnet_root@ == c_string_units(q.dotnet_root@),
    }
}

/// Encodes optional initialization parameters, refusing embedded
/// terminators.  Absence is preserved, never replaced by zeroed values.
pub fn encode_parameters(parameters: Option<&HostFxrParameters>) -> (r: HostFxrResult<
    Option<NativeParameters>,
>)
    ensures
        match r {
            Ok(e) => spec_params_clean(parameters) && spec_params_encoded(parameters, e),
            Err(e) => e == HostFxrError::EmbeddedTerminator && !spec_params_clean(parameters),
        },
{
    match parameters {
        None => Ok(None),
        Some(p) => {
            let host_path = to_c_string(p.host_path.as_str())?;
            let dotnet_root = to_c_string(p.dotnet_root.as_str())?;
            Ok(Some(NativeParameters { host_path, dotnet_root }))
        },
    }
}

/// True when `e` is the outgoing form of the argument `a`, which then holds
/// no embedded terminator.
pub open spec fn spec_arg_encoded(a: String, e: Vec<u8>) -> bool {
    !a@.contains('\0') && e@ == c_string_units(a@)
}

/// A prepared call of the command-line initializer: the symbol to invoke,
/// the argument count, the encoded arguments in their original order, and
/// the encoded parameters.
pub struct CommandLineInit {
    pub symbol: u64,
    pub argc: i32,
    pub args: Vec<Vec<u8>>,
    pub parameters: Option<NativeParameters>,
}

/// A prepared call of the configuration-file initializer.
pub struct ConfigInit {
    pub symbol: u64,
    pub config_path: Vec<u8>,
    pub parameters: Option<NativeParameters>,
}

impl HostFxrLibrary {
    /// Prepares the initialization of a context from command-line
    /// arguments.  The arguments are encoded in order and forwarded
    /// verbatim; the call fails when an argument or parameter holds an
    /// embedded terminator, or when the count exceeds the native 32-bit
    /// counter.
    pub fn initialize_command_line(
        &self,
        args: &Vec<String>,
        parameters: Option<&HostFxrParameters>,
    ) -> (r: HostFxrResult<CommandLineInit>)
        ensures
            match r {
                Ok(req) => {
                    &&& args@.len() <= i32::MAX as int
                    &&& spec_params_clean(parameters)
                    &&& req.symbol == self.initialize_command_line
                    &&& req.argc == args@.len() as i32
                    &&& req.args@.len() == args@.len()
                    &&& forall|i: int|
                        0 <= i < args@.len() ==> spec_arg_encoded(
                            args@[i],
                            #[trigger] req.args@[i],
                        )
                    &&& spec_params_encoded(parameters, req.parameters)
                },
                Err(e) => {
                    ||| (e == HostFxrError::TryFromIntError && args@.len() > i32::MAX as int)
                    ||| (e == HostFxrError::EmbeddedTerminator && ((exists|i: int|
                        0 <= i < args@.len() && args@[i]@.contains('\0')) || !spec_params_clean(
                        parameters,
                    )))
                },
            },
    {
        if args.len() > 0x7FFF_FFFFusize {
            return Err(HostFxrError::TryFromIntError);
        }
        let mut encoded: Vec<Vec<u8>> = Vec::new();
        let mut i: usize = 0;
        while i < args.len()
            invariant
                0 <= i <= args@.len(),
                encoded@.len() == i as int,
                forall|k: int| 0 <= k < i ==> spec_arg_encoded(args@[k], #[trigger] encoded@[k]),
            decreases args@.len() - i,
        {
            let ghost prev = encoded@;
            let units = match to_c_string(args[i].as_str()) {
                Ok(u) => u,
                Err(e) => {
                    proof {
                        assert(exists|j: int|
                            0 <= j < args@.len() && args@[j]@.contains('\0')) by {
                            assert(args@[i as int]@.contains('\0'));
                        }
                    }
                    return Err(e);
                },
            };
            encoded.push(units);
            proof {
                assert forall|k: int|
                    0 <= k < i + 1 implies spec_arg_encoded(args@[k], #[trigger] encoded@[k]) by {
                    if k < i {
                        assert(encoded@[k] == prev[k]);
                    } else {
                        assert(encoded@[k] == units);
                    }
                }
            }
            i += 1;
        }
        let parameters = encode_parameters(parameters)?;
        Ok(CommandLineInit {
            symbol: self.initialize_command_line,
            argc: args.len() as i32,
            args: encoded,
            parameters,
        })
    }

    /// Prepares the initialization of a context from a configuration-file
    /// path.  The content of the file is the native side's concern; only
    /// the path itself is encoded here.
    pub fn initialize_runtime_config(
        &self,
        runtime_config: &str,
        parameters: Option<&HostFxrParameters>,
    ) -> (r: HostFxrResult<ConfigInit>)
        ensures
            match r {
                Ok(req) => {
                    &&& !runtime_config@.contains('\0')
                    &&& spec_params_clean(parameters)
                    &&& req.symbol == self.initialize_config
                    &&& req.config_path@ == c_string_units(runtime_config@)
                    &&& spec_params_encoded(parameters, req.parameters)
                },
                Err(e) => e == HostFxrError::EmbeddedTerminator && (runtime_config@.contains('\0')
                    || !spec_params_clean(parameters)),
            },
    {
        let config_path = to_c_string(runtime_config)?;
        let parameters = encode_parameters(parameters)?;
        Ok(ConfigInit { symbol: self.initialize_config, config_path, parameters })
    }
}

/// Translates what an initializer reported: a negative status is that
/// failure, a success status with a null handle is `BadHandle`, and only a
/// success status with a nonzero handle yields the handle.  Success with a
/// null handle never becomes a usable context.
pub fn initialize_outcome(status: i32, handle: u64) -> (r: HostFxrResult<u64>)
    ensures
        status < 0 ==> r == HostFxrResult::<u64>::Err(HostFxrError::Status(status)),
        status >= 0 && handle == 0 ==> r == HostFxrResult::<u64>::Err(HostFxrError::BadHandle),
        status >= 0 && handle != 0 ==> r == HostFxrResult::<u64>::Ok(handle),
{
    HostFxrError::from_status(status)?;
    if handle == 0 {
        return Err(HostFxrError::BadHandle);
    }
    Ok(handle)
}

/// One initialized execution context.
///
/// The context pairs the opaque foreign handle with the symbol table it was
/// derived from, so every operation can name the export it needs while the
/// table stays reachable.  The handle is nonzero for the whole lifetime of
/// the value; the closed flag flips once, at release.
#[derive(Debug, Clone)]
pub struct HostFxr {
    handle: u64,
    closed: bool,
    table: HostFxrLibrary,
    load_assembly_delegate: u64,
}

/// A prepared property write: the setter export, the live handle, and both
/// strings in their outgoing form.
pub struct PropertyWrite {
    pub symbol: u64,
    pub handle: u64,
    pub name: Vec<u8>,
    pub value: Vec<u8>,
}

/// A prepared property read: the getter export, the live handle, and the
/// property name in its outgoing form.
pub struct PropertyRead {
    pub symbol: u64,
    pub handle: u64,
    pub name: Vec<u8>,
}

/// A prepared property enumeration: the export, the live handle, and the
/// fixed number of entries the caller's buffers must hold.
pub struct PropertiesRequest {
    pub symbol: u64,
    pub handle: u64,
    pub capacity: usize,
}

/// A prepared run of the hosted application.
pub struct RunAppCall {
    pub symbol: u64,
    pub handle: u64,
}

/// A prepared delegate resolution: the export, the live handle, and the
/// numeric delegate kind.
pub struct DelegateRequest {
    pub symbol: u64,
    pub handle: u64,
    pub kind: u32,
}

/// A prepared call of the load-and-get-function-pointer delegate: the
/// delegate itself and the four encoded names.  An absent signature name
/// crosses the boundary as a null pointer, selecting the native side's
/// single default signature.
pub struct LoadAssemblyRequest {
    pub delegate: u64,
    pub assembly_path: Vec<u8>,
    pub managed_type: Vec<u8>,
    pub method_name: Vec<u8>,
    pub delegate_type_name: Option<Vec<u8>>,
}

impl HostFxr {
    /// The foreign handle of this context.
    pub closed spec fn spec_handle(self) -> u64 {
        self.handle
    }

    /// True once the context was released.
    pub closed spec fn spec_closed(self) -> bool {
        self.closed
    }

    /// The symbol table this context was derived from.
    pub closed spec fn spec_table(self) -> HostFxrLibrary {
        self.table
    }

    /// The load-and-get-function-pointer delegate resolved at construction.
    pub closed spec fn spec_load_assembly_delegate(self) -> u64 {
        self.load_assembly_delegate
    }

    /// The context as it stands after a release: the same identity, closed.
    pub closed spec fn spec_released(self) -> HostFxr {
        HostFxr { closed: true, ..self }
    }

    /// Well-formedness: the foreign handle is nonzero for the whole lifetime
    /// of the value, released or not.
    pub open spec fn wf(self) -> bool {
        self.spec_handle() != 0
    }

    /// Wraps a produced native handle, keeping the symbol table and the
    /// load-assembly delegate reachable for later operations.  A null
    /// handle is rejected as `BadHandle` and never becomes a context.
    pub fn new(handle: u64, library: &HostFxrLibrary, load_assembly_delegate: u64) -> (r:
        HostFxrResult<HostFxr>)
        ensures
            handle == 0 ==> r == HostFxrResult::<HostFxr>::Err(HostFxrError::BadHandle),
            handle != 0 ==> (r matches Ok(c) && c.wf() && c.spec_handle() == handle
                && !c.spec_closed() && c.spec_table() == *library
                && c.spec_load_assembly_delegate() == load_assembly_delegate),
    {
        if handle == 0 {
            return Err(HostFxrError::BadHandle);
        }
        Ok(HostFxr { handle, closed: false, table: *library, load_assembly_delegate })
    }

    /// Marks the context closed and reports whether the native close call
    /// is owed: true on the first release, false on every later one.  The
    /// native side is never to be handed the handle again once this
    /// returned false.
    pub fn release(&mut self) -> (r: bool)
        ensures
            *final(self) == old(self).spec_released(),
            r == !old(self).spec_closed(),
            old(self).wf() ==> final(self).wf(),
    {
        let owed = !self.closed;
        self.closed = true;
        owed
    }

    /// Prepares a property write on this context.
    pub fn set_runtime_property_value(&self, name: &str, value: &str) -> (r: HostFxrResult<
        PropertyWrite,
    >)
        ensures
            match r {
                Ok(w) => {
                    &&& !self.spec_closed()
                    &&& !name@.contains('\0')
                    &&& !value@.contains('\0')
                    &&& w.symbol == self.spec_table().set_runtime_property
                    &&& w.handle == self.spec_handle()
                    &&& w.name@ == c_string_units(name@)
                    &&& w.value@ == c_string_units(value@)
                },
                Err(e) => {
                    ||| (e == HostFxrError::UseAfterClose && self.spec_closed())
                    ||| (e == HostFxrError::EmbeddedTerminator && (name@.contains('\0')
                        || value@.contains('\0')))
                },
            },
    {
        if self.closed {
            return Err(HostFxrError::UseAfterClose);
        }
        let name = to_c_string(name)?;
        let value = to_c_string(value)?;
        Ok(PropertyWrite {
            symbol: self.table.set_runtime_property,
            handle: self.handle,
            name,
            value,
        })
    }

    /// Prepares a property read on this context.
    pub fn get_runtime_property(&self, name: &str) -> (r: HostFxrResult<PropertyRead>)
        ensures
            match r {
                Ok(q) => {
                    &&& !self.spec_closed()
                    &&& !name@.contains('\0')
                    &&& q.symbol == self.spec_table().get_runtime_property
                    &&& q.handle == self.spec_handle()
                    &&& q.name@ == c_string_units(name@)
                },
                Err(e) => {
                    ||| (e == HostFxrError::UseAfterClose && self.spec_closed())
                    ||| (e == HostFxrError::EmbeddedTerminator && name@.contains('\0'))
                },
            },
    {
        if self.closed {
            return Err(HostFxrError::UseAfterClose);
        }
        let name = to_c_string(name)?;
        Ok(PropertyRead { symbol: self.table.get_runtime_property, handle: self.handle, name })
    }

    /// Prepares the enumeration of all properties of this context.
    pub fn get_runtime_properties(&self) -> (r: HostFxrResult<PropertiesRequest>)
        ensures
            match r {
                Ok(q) => {
                    &&& !self.spec_closed()
                    &&& q.symbol == self.spec_table().get_runtime_properties
                    &&& q.handle == self.spec_handle()
                    &&& q.capacity == PROPERTY_BUFFER_CAPACITY
                },
                Err(e) => e == HostFxrError::UseAfterClose && self.spec_closed(),
            },
    {
        if self.closed {
            return Err(HostFxrError::UseAfterClose);
        }
        Ok(PropertiesRequest {
            symbol: self.table.get_runtime_properties,
            handle: self.handle,
            capacity: PROPERTY_BUFFER_CAPACITY,
        })
    }

    /// Prepares the blocking run of the hosted application.
    pub fn run_app(&self) -> (r: HostFxrResult<RunAppCall>)
        ensures
            match r {
                Ok(q) => {
                    &&& !self.spec_closed()
                    &&& q.symbol == self.spec_table().run_app
                    &&& q.handle == self.spec_handle()
                },
                Err(e) => e == HostFxrError::UseAfterClose && self.spec_closed(),
            },
    {
        if self.closed {
            return Err(HostFxrError::UseAfterClose);
        }
        Ok(RunAppCall { symbol: self.table.run_app, handle: self.handle })
    }

    /// Prepares the resolution of a runtime delegate of the given kind.
    pub fn get_runtime_delegate(&self, kind: DelegateType) -> (r: HostFxrResult<DelegateRequest>)
        ensures
            match r {
                Ok(q) => {
                    &&& !self.spec_closed()
                    &&& q.symbol == self.spec_table().get_runtime_delegate
                    &&& q.handle == self.spec_handle()
                    &&& q.kind == kind.spec_kind_code()
                },
                Err(e) => e == HostFxrError::UseAfterClose && self.spec_closed(),
            },
    {
        if self.closed {
            return Err(HostFxrError::UseAfterClose);
        }
        Ok(DelegateRequest {
            symbol: self.table.get_runtime_delegate,
            handle: self.handle,
            kind: kind.as_native(),
        })
    }

    /// Prepares the resolution of a named static entry point inside a unit
    /// of loaded code, through the load-and-get-function-pointer delegate
    /// resolved at construction.  An absent signature name stays absent and
    /// selects the native default signature.
    pub fn load_assembly_and_get_delegate(
        &self,
        assembly_path: &str,
        managed_type: &str,
        method_name: &str,
        delegate_type_name: Option<&str>,
    ) -> (r: HostFxrResult<LoadAssemblyRequest>)
        ensures
            match r {
                Ok(q) => {
                    &&& !self.spec_closed()
                    &&& !assembly_path@.contains('\0')
                    &&& !managed_type@.contains('\0')
                    &&& !method_name@.contains('\0')
                    &&& q.delegate == self.spec_load_assembly_delegate()
                    &&& q.assembly_path@ == c_string_units(assembly_path@)
                    &&& q.managed_type@ == c_string_units(managed_type@)
                    &&& q.method_name@ == c_string_units(method_name@)
                    &&& match delegate_type_name {
                        None => q.delegate_type_name is None,
                        Some(d) => !d@.contains('\0') && (q.delegate_type_name matches Some(u)
                            && u@ == c_string_units(d@)),
                    }
                },
                Err(e) => {
                    ||| (e == HostFxrError::UseAfterClose && self.spec_closed())
                    ||| (e == HostFxrError::EmbeddedTerminator && (assembly_path@.contains('\0')
                        || managed_type@.contains('\0') || method_name@.contains('\0')
                        || (delegate_type_name matches Some(d) && d@.contains('\0'))))
                },
            },
    {
        if self.closed {
            return Err(HostFxrError::UseAfterClose);
        }
        let assembly_path = to_c_string(assembly_path)?;
        let managed_type = to_c_string(managed_type)?;
        let method_name = to_c_string(method_name)?;
        let delegate_type_name = match delegate_type_name {
            None => None,
            Some(d) => Some(to_c_string(d)?),
        };
        Ok(LoadAssemblyRequest {
            delegate: self.load_assembly_delegate,
            assembly_path,
            managed_type,
            method_name,
            delegate_type_name,
        })
    }
}

/// Translates the outcome of a property read: a failure status is that
/// error, a success status yields the terminated value buffer decoded up to
/// its first terminator unit.
pub fn property_value_outcome(status: i32, value: &[u8]) -> (r: HostFxrResult<String>)
    ensures
        match r {
            Ok(v) => status >= 0 && v@ == lossy_utf8(prefix_before_zero(value@)),
            Err(e) => status < 0 && e == HostFxrError::Status(status),
        },
{
    HostFxrError::from_status(status)?;
    Ok(decode_c_string(value))
}

/// Translates the outcome of a delegate resolution: a failure status is
/// that error, a success status yields the untyped delegate verbatim.  The
/// delegate's calling signature is asserted by the caller, not checked
/// here.
pub fn delegate_outcome(status: i32, delegate: u64) -> (r: HostFxrResult<u64>)
    ensures
        status < 0 ==> r == HostFxrResult::<u64>::Err(HostFxrError::Status(status)),
        status >= 0 ==> r == HostFxrResult::<u64>::Ok(delegate),
{
    HostFxrError::from_status(status)?;
    Ok(delegate)
}

/// True when the pair holds the decoded forms of the two terminated
/// buffers, each decoded up to its first terminator unit.
pub open spec fn spec_pair_decoded(p: (String, String), key: Seq<u8>, value: Seq<u8>) -> bool {
    p.0@ == lossy_utf8(prefix_before_zero(key)) && p.1@ == lossy_utf8(prefix_before_zero(value))
}

/// Translates the outcome of a property enumeration over fixed buffers of
/// terminated entries.  A failure status is that error; a reported count
/// beyond the buffers is a buffer-too-small failure, never a silent
/// truncation; otherwise exactly the first `count` entries are decoded, and
/// nothing from the unused remainder.
pub fn collect_properties(
    status: i32,
    count: usize,
    keys: &Vec<Vec<u8>>,
    values: &Vec<Vec<u8>>,
) -> (r: HostFxrResult<Vec<(String, String)>>)
    requires
        keys@.len() == values@.len(),
    ensures
        match r {
            Ok(pairs) => {
                &&& status >= 0
                &&& count <= keys@.len()
                &&& pairs@.len() == count
                &&& forall|i: int|
                    0 <= i < count ==> spec_pair_decoded(
                        #[trigger] pairs@[i],
                        keys@[i]@,
                        values@[i]@,
                    )
            },
            Err(e) => {
                ||| (e == HostFxrError::Status(status) && status < 0)
                ||| (e == HostFxrError::InvalidBufferSize && status >= 0 && count > keys@.len())
            },
        },
{
    HostFxrError::from_status(status)?;
    if count > keys.len() {
        return Err(HostFxrError::InvalidBufferSize);
    }
    let mut pairs: Vec<(String, String)> = Vec::new();
    let mut i: usize = 0;
    while i < count
        invariant
            0 <= i <= count,
            count <= keys@.len(),
            keys@.len() == values@.len(),
            pairs@.len() == i as int,
            forall|k: int|
                0 <= k < i ==> spec_pair_decoded(#[trigger] pairs@[k], keys@[k]@, values@[k]@),
        decreases count - i,
    {
        let ghost prev = pairs@;
        let key = decode_c_string(keys[i].as_slice());
        let value = decode_c_string(values[i].as_slice());
        let ghost pushed = (key, value);
        pairs.push((key, value));
        proof {
            assert forall|k: int|
                0 <= k < i + 1 implies spec_pair_decoded(
                #[trigger] pairs@[k],
                keys@[k]@,
                values@[k]@,
            ) by {
                if k < i {
                    assert(pairs@[k] == prev[k]);
                } else {
                    assert(pairs@[k] == pushed);
                }
            }
        }
        i += 1;
    }
    Ok(pairs)
}

/// A release is final: releasing an already released context changes
/// nothing, and the signal that a native close is owed is never raised a
/// second time.
pub proof fn lemma_single_release(c: HostFxr)
    ensures
        c.spec_released().spec_released() == c.spec_released(),
        c.spec_released().spec_closed(),
{
}

} // verus!
