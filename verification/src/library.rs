//! The symbol table of the loader library.
//!
//! The loader library exposes a fixed, statically known set of exports.  All
//! of them are resolved once, eagerly, when the table is built; the first
//! missing export fails the whole construction, so a partial table never
//! exists.  Resolved symbols are carried as opaque nonzero tokens handed in
//! by the unverified loader; the table is immutable once built.

use vstd::prelude::*;
use vstd::string::StringExecFns;

use crate::error::HostFxrError;
use crate::error::HostFxrResult;

verus! {

/// The number of exports the loader library must provide.
pub const REQUIRED_EXPORT_COUNT: usize = 9;

/// The names of the required exports, in the order their resolution outcomes
/// are handed to [`HostFxrLibrary::from_library`].
pub open spec fn required_export_names() -> Seq<Seq<char>> {
    seq![
        "hostfxr_set_error_writer"@,
        "hostfxr_initialize_for_dotnet_command_line"@,
        "hostfxr_initialize_for_runtime_config"@,
        "hostfxr_get_runtime_property_value"@,
        "hostfxr_set_runtime_property_value"@,
        "hostfxr_get_runtime_properties"@,
        "hostfxr_run_app"@,
        "hostfxr_get_runtime_delegate"@,
        "hostfxr_close"@,
    ]
}

/// The required export names as strings, in resolution order.
pub fn required_exports() -> (r: Vec<String>)
    ensures
        r.deep_view() == required_export_names(),
{
    let mut v: Vec<String> = Vec::new();
    v.push(String::from_str("hostfxr_set_error_writer"));
    v.push(String::from_str("hostfxr_initialize_for_dotnet_command_line"));
    v.push(String::from_str("hostfxr_initialize_for_runtime_config"));
    v.push(String::from_str("hostfxr_get_runtime_property_value"));
    v.push(String::from_str("hostfxr_set_runtime_property_value"));
    v.push(String::from_str("hostfxr_get_runtime_properties"));
    v.push(String::from_str("hostfxr_run_app"));
    v.push(String::from_str("hostfxr_get_runtime_delegate"));
    v.push(String::from_str("hostfxr_close"));
    proof {
        assert(v.deep_view() =~= required_export_names());
    }
    v
}

/// The position of the first export that failed to resolve, or the length of
/// the outcome list when every export resolved.
pub open spec fn first_unresolved(resolved: Seq<Option<u64>>) -> int
    decreases resolved.len(),
{
    if resolved.len() == 0 {
        0
    } else if resolved[0] is None {
        0
    } else {
        1 + first_unresolved(resolved.drop_first())
    }
}

/// Any position with only resolved exports before it that either sits at an
/// unresolved export or at the end of the list is `first_unresolved`.
pub proof fn lemma_first_unresolved_is(resolved: Seq<Option<u64>>, i: int)
    requires
        0 <= i <= resolved.len(),
        forall|k: int| 0 <= k < i ==> resolved[k] is Some,
        i < resolved.len() ==> resolved[i] is None,
    ensures
        first_unresolved(resolved) == i,
    decreases resolved.len(),
{
    if resolved.len() == 0 {
    } else if resolved[0] is None {
        assert(i == 0);
    } else {
        assert(i >= 1);
        lemma_first_unresolved_is(resolved.drop_first(), i - 1);
    }
}

/// The resolved exports of the loader library, one opaque symbol token per
/// required export.  A value of this type only exists when every required
/// export resolved.
#[derive(Debug, Clone, Copy, PartialEq, Eq, Structural)]
pub struct HostFxrLibrary {
    pub set_error_writer: u64,
    pub initialize_command_line: u64,
    pub initialize_config: u64,
    pub get_runtime_property: u64,
    pub set_runtime_property: u64,
    pub get_runtime_properties: u64,
    pub run_app: u64,
    pub get_runtime_delegate: u64,
    pub close: u64,
}

impl HostFxrLibrary {
    /// Builds the table from the loader's resolution outcomes, one per
    /// required export in the order of [`required_export_names`].  The
    /// first missing export fails the construction with `ImportNotFound`
    /// naming that export; no partial table is ever returned.
    pub fn from_library(resolved: &Vec<Option<u64>>) -> (r: HostFxrResult<HostFxrLibrary>)
        requires
            resolved@.len() == required_export_names().len(),
        ensures
            match r {
                Ok(table) => {
                    &&& forall|k: int| 0 <= k < resolved@.len() ==> resolved@[k] is Some
                    &&& table.set_error_writer == resolved@[0]->Some_0
                    &&& table.initialize_command_line == resolved@[1]->Some_0
                    &&& table.initialize_config == resolved@[2]->Some_0
                    &&& table.get_runtime_property == resolved@[3]->Some_0
                    &&& table.set_runtime_property == resolved@[4]->Some_0
                    &&& table.get_runtime_properties == resolved@[5]->Some_0
                    &&& table.run_app == resolved@[6]->Some_0
                    &&& table.get_runtime_delegate == resolved@[7]->Some_0
                    &&& table.close == resolved@[8]->Some_0
                },
                Err(e) => {
                    &&& first_unresolved(resolved@) < resolved@.len()
                    &&& e matches HostFxrError::ImportNotFound(name) && name@
                        == required_export_names()[first_unresolved(resolved@)]
                },
            },
    {
        let names = required_exports();
        let mut i: usize = 0;
        while i < REQUIRED_EXPORT_COUNT
            invariant
                0 <= i <= REQUIRED_EXPORT_COUNT,
                resolved@.len() == REQUIRED_EXPORT_COUNT as int,
                names.deep_view() == required_export_names(),
                names@.len() == REQUIRED_EXPORT_COUNT as int,
                forall|k: int| 0 <= k < i ==> resolved@[k] is Some,
            decreases REQUIRED_EXPORT_COUNT - i,
        {
            if resolved[i].is_none() {
                proof {
                    lemma_first_unresolved_is(resolved@, i as int);
                    assert(names.deep_view()[i as int] == names@[i as int]@);
                }
                return Err(HostFxrError::ImportNotFound(names[i].clone()));
            }
            i += 1;
        }
        Ok(HostFxrLibrary {
            set_error_writer: resolved[0].unwrap(),
            initialize_command_line: resolved[1].unwrap(),
            initialize_config: resolved[2].unwrap(),
            get_runtime_property: resolved[3].unwrap(),
            set_runtime_property: resolved[4].unwrap(),
            get_runtime_properties: resolved[5].unwrap(),
            run_app: resolved[6].unwrap(),
            get_runtime_delegate: resolved[7].unwrap(),
            close: resolved[8].unwrap(),
        })
    }
}

} // verus!
