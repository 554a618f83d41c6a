use accelver::binding::{
    bind_driver, bind_primitives, bind_runtime, driver_symbol_names, primitives_symbol_names,
    runtime_symbol_names,
};

#[test]
fn driver_binding_is_all_or_nothing() {
    // Every subset of the five required symbols, by bitmask: only the
    // full set yields a binding; every proper subset — the empty set
    // included — yields none.
    for mask in 0u32..32 {
        let a = if mask & 1 != 0 { Some(10u8) } else { None };
        let b = if mask & 2 != 0 { Some(11u8) } else { None };
        let c = if mask & 4 != 0 { Some(12u8) } else { None };
        let d = if mask & 8 != 0 { Some(13u8) } else { None };
        let e = if mask & 16 != 0 { Some(14u8) } else { None };
        let r = bind_driver(a, b, c, d, e);
        if mask == 31 {
            let binding = r.expect("full symbol set must bind");
            assert_eq!(binding.get_version, 10);
            assert_eq!(binding.get_error_name, 11);
            assert_eq!(binding.get_error_string, 12);
            assert_eq!(binding.init, 13);
            assert_eq!(binding.get_device_count, 14);
        } else {
            assert!(r.is_none());
        }
    }
}

#[test]
fn runtime_binding_is_all_or_nothing() {
    for mask in 0u32..8 {
        let a = if mask & 1 != 0 { Some(20u8) } else { None };
        let b = if mask & 2 != 0 { Some(21u8) } else { None };
        let c = if mask & 4 != 0 { Some(22u8) } else { None };
        let r = bind_runtime(a, b, c);
        if mask == 7 {
            let binding = r.expect("full symbol set must bind");
            assert_eq!(binding.driver_get_version, 20);
            assert_eq!(binding.runtime_get_version, 21);
            assert_eq!(binding.get_error_string, 22);
        } else {
            assert!(r.is_none());
        }
    }
}

#[test]
fn primitives_binding_is_all_or_nothing() {
    for mask in 0u32..4 {
        let a = if mask & 1 != 0 { Some(30u8) } else { None };
        let b = if mask & 2 != 0 { Some(31u8) } else { None };
        let r = bind_primitives(a, b);
        if mask == 3 {
            let binding = r.expect("full symbol set must bind");
            assert_eq!(binding.get_version, 30);
            assert_eq!(binding.get_required_runtime_version, 31);
        } else {
            assert!(r.is_none());
        }
    }
}

#[test]
fn required_symbol_tables() {
    assert_eq!(
        driver_symbol_names(),
        vec!["cuDriverGetVersion", "cuGetErrorName", "cuGetErrorString", "cuInit",
            "cuDeviceGetCount"]
    );
    assert_eq!(
        runtime_symbol_names(),
        vec!["cudaDriverGetVersion", "cudaRuntimeGetVersion", "cudaGetErrorString"]
    );
    assert_eq!(
        primitives_symbol_names(),
        vec!["cudnnGetVersion", "cudnnGetCudartVersion"]
    );
}
