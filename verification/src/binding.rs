//! All-or-nothing construction of a library binding from individually
//! resolved entry points, and the fixed tables of required symbol
//! names.
//!
//! A binding holds one resolved entry point per required symbol, with a
//! caller-chosen representation for each. Construction takes the
//! outcome of resolving every required symbol and succeeds only when
//! every one of them resolved: a library that exposes any proper
//! subset of the required set yields no binding at all, so a partially
//! populated binding is never observable.

use vstd::prelude::*;

verus! {

/// The resolved entry points of the driver library, one field per
/// required symbol, in the order of [`driver_symbol_names`].
pub struct DriverBinding<A, B, C, D, E> {
    pub get_version: A,
    pub get_error_name: B,
    pub get_error_string: C,
    pub init: D,
    pub get_device_count: E,
}

/// The resolved entry points of the runtime library, one field per
/// required symbol, in the order of [`runtime_symbol_names`].
pub struct RuntimeBinding<A, B, C> {
    pub driver_get_version: A,
    pub runtime_get_version: B,
    pub get_error_string: C,
}

/// The resolved entry points of the primitives library, one field per
/// required symbol, in the order of [`primitives_symbol_names`].
pub struct PrimitivesBinding<A, B> {
    pub get_version: A,
    pub get_required_runtime_version: B,
}

/// Builds the driver binding from the outcome of resolving each of its
/// required symbols: a binding exists exactly when every symbol
/// resolved, and it holds exactly what resolution produced.
pub fn bind_driver<A, B, C, D, E>(
    get_version: Option<A>,
    get_error_name: Option<B>,
    get_error_string: Option<C>,
    init: Option<D>,
    get_device_count: Option<E>,
) -> (r: Option<DriverBinding<A, B, C, D, E>>)
    ensures
        r is Some <==> {
            &&& get_version is Some
            &&& get_error_name is Some
            &&& get_error_string is Some
            &&& init is Some
            &&& get_device_count is Some
        },
        r matches Some(b) ==> {
            &&& get_version == Some(b.get_version)
            &&& get_error_name == Some(b.get_error_name)
            &&& get_error_string == Some(b.get_error_string)
            &&& init == Some(b.init)
            &&& get_device_count == Some(b.get_device_count)
        },
{
    match (get_version, get_error_name, get_error_string, init, get_device_count) {
        (Some(v), Some(n), Some(s), Some(i), Some(c)) => Some(
            DriverBinding {
                get_version: v,
                get_error_name: n,
                get_error_string: s,
                init: i,
                get_device_count: c,
            },
        ),
        _ => None,
    }
}

/// Builds the runtime binding from the outcome of resolving each of
/// its required symbols; all-or-nothing, as for the driver.
pub fn bind_runtime<A, B, C>(
    driver_get_version: Option<A>,
    runtime_get_version: Option<B>,
    get_error_string: Option<C>,
) -> (r: Option<RuntimeBinding<A, B, C>>)
    ensures
        r is Some <==> {
            &&& driver_get_version is Some
            &&& runtime_get_version is Some
            &&& get_error_string is Some
        },
        r matches Some(b) ==> {
            &&& driver_get_version == Some(b.driver_get_version)
            &&& runtime_get_version == Some(b.runtime_get_version)
            &&& get_error_string == Some(b.get_error_string)
        },
{
    match (driver_get_version, runtime_get_version, get_error_string) {
        (Some(d), Some(r_), Some(s)) => Some(
            RuntimeBinding {
                driver_get_version: d,
                runtime_get_version: r_,
                get_error_string: s,
            },
        ),
        _ => None,
    }
}

/// Builds the primitives binding from the outcome of resolving each of
/// its required symbols; all-or-nothing, as for the driver.
pub fn bind_primitives<A, B>(
    get_version: Option<A>,
    get_required_runtime_version: Option<B>,
) -> (r: Option<PrimitivesBinding<A, B>>)
    ensures
        r is Some <==> get_version is Some && get_required_runtime_version is Some,
        r matches Some(b) ==> {
            &&& get_version == Some(b.get_version)
            &&& get_required_runtime_version == Some(b.get_required_runtime_version)
        },
{
    match (get_version, get_required_runtime_version) {
        (Some(v), Some(q)) => Some(
            PrimitivesBinding { get_version: v, get_required_runtime_version: q },
        ),
        _ => None,
    }
}

/// The required symbol names of the driver library, in the field order
/// of [`DriverBinding`]. This table is the binary contract with the
/// native library: resolution must find every name in it.
pub fn driver_symbol_names() -> (names: Vec<&'static str>)
    ensures
        names@.len() == 5,
        names@[0]@ == "cuDriverGetVersion"@,
        names@[1]@ == "cuGetErrorName"@,
        names@[2]@ == "cuGetErrorString"@,
        names@[3]@ == "cuInit"@,
        names@[4]@ == "cuDeviceGetCount"@,
{
    let mut names: Vec<&'static str> = Vec::new();
    names.push("cuDriverGetVersion");
    names.push("cuGetErrorName");
    names.push("cuGetErrorString");
    names.push("cuInit");
    names.push("cuDeviceGetCount");
    names
}

/// The required symbol names of the runtime library, in the field
/// order of [`RuntimeBinding`].
pub fn runtime_symbol_names() -> (names: Vec<&'static str>)
    ensures
        names@.len() == 3,
        names@[0]@ == "cudaDriverGetVersion"@,
        names@[1]@ == "cudaRuntimeGetVersion"@,
        names@[2]@ == "cudaGetErrorString"@,
{
    let mut names: Vec<&'static str> = Vec::new();
    names.push("cudaDriverGetVersion");
    names.push("cudaRuntimeGetVersion");
    names.push("cudaGetErrorString");
    names
}

/// The required symbol names of the primitives library, in the field
/// order of [`PrimitivesBinding`].
pub fn primitives_symbol_names() -> (names: Vec<&'static str>)
    ensures
        names@.len() == 2,
        names@[0]@ == "cudnnGetVersion"@,
        names@[1]@ == "cudnnGetCudartVersion"@,
{
    let mut names: Vec<&'static str> = Vec::new();
    names.push("cudnnGetVersion");
    names.push("cudnnGetCudartVersion");
    names
}

} // verus!
