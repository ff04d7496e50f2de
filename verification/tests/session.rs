use cublas::api::API;
use cublas::context::ContextKind;
use cublas::error::Error;
use cublas::mode::PointerMode;
use cublas::native::{
    POINTER_MODE_DEVICE, POINTER_MODE_HOST, STATUS_NOT_INITIALIZED, STATUS_SUCCESS,
};
use cublas::registry::HandleRegistry;

#[test]
fn manual_context_creation() {
    let mut registry = HandleRegistry::<ContextKind>::new();
    let mut context = API::create(&mut registry, STATUS_SUCCESS, 1).unwrap();
    API::destroy(&mut registry, &mut context, STATUS_SUCCESS).unwrap();
}

#[test]
fn default_pointer_mode_is_host() {
    let mut registry = HandleRegistry::<ContextKind>::new();
    let context = API::create(&mut registry, STATUS_SUCCESS, 1).unwrap();
    let mode = API::get_pointer_mode(&registry, &context, STATUS_SUCCESS, POINTER_MODE_HOST)
        .unwrap();
    assert_eq!(PointerMode::Host, mode);
}

#[test]
fn can_set_pointer_mode() {
    let mut registry = HandleRegistry::<ContextKind>::new();
    let mut context = API::create(&mut registry, STATUS_SUCCESS, 1).unwrap();
    API::set_pointer_mode(&registry, &mut context, PointerMode::Device, STATUS_SUCCESS).unwrap();
    let mode = API::get_pointer_mode(
        &registry,
        &context,
        STATUS_SUCCESS,
        PointerMode::Device.as_c(),
    )
    .unwrap();
    assert_eq!(PointerMode::Device, mode);
    API::set_pointer_mode(&registry, &mut context, PointerMode::Host, STATUS_SUCCESS).unwrap();
    let mode2 = API::get_pointer_mode(
        &registry,
        &context,
        STATUS_SUCCESS,
        PointerMode::Host.as_c(),
    )
    .unwrap();
    assert_eq!(PointerMode::Host, mode2);
}

#[test]
fn set_then_get_round_trips_both_modes() {
    let mut registry = HandleRegistry::<ContextKind>::new();
    let mut context = API::create(&mut registry, STATUS_SUCCESS, 4).unwrap();
    for mode in [PointerMode::Host, PointerMode::Device] {
        API::set_pointer_mode(&registry, &mut context, mode, STATUS_SUCCESS).unwrap();
        let got = API::get_pointer_mode(&registry, &context, STATUS_SUCCESS, mode.as_c())
            .unwrap();
        assert_eq!(mode, got);
    }
}

#[test]
fn session_scenario() {
    let mut registry = HandleRegistry::<ContextKind>::new();
    let mut a = API::create(&mut registry, STATUS_SUCCESS, 10).unwrap();
    let handle = a.id_c();

    a.set_pointer_mode(&registry, PointerMode::Device, STATUS_SUCCESS).unwrap();
    let mode = a
        .pointer_mode(&registry, STATUS_SUCCESS, POINTER_MODE_DEVICE)
        .unwrap();
    assert_eq!(PointerMode::Device, mode);

    a.set_pointer_mode(&registry, PointerMode::Host, STATUS_SUCCESS).unwrap();
    let mode = a
        .pointer_mode(&registry, STATUS_SUCCESS, POINTER_MODE_HOST)
        .unwrap();
    assert_eq!(PointerMode::Host, mode);

    a.close(&mut registry, STATUS_SUCCESS).unwrap();
    // Any further operation against A's handle must fail the liveness
    // guards that every operation is predicated on.
    assert!(!a.is_live());
    assert!(!registry.is_live(handle));
}

#[test]
fn two_live_sessions_are_isolated() {
    let mut registry = HandleRegistry::<ContextKind>::new();
    let a = API::create(&mut registry, STATUS_SUCCESS, 21).unwrap();
    let mut b = API::create(&mut registry, STATUS_SUCCESS, 22).unwrap();

    // The native library holds one mode per handle; emulate its two cells.
    let stored_a = POINTER_MODE_HOST;
    let stored_b;

    API::set_pointer_mode(&registry, &mut b, PointerMode::Device, STATUS_SUCCESS).unwrap();
    stored_b = PointerMode::Device.as_c();

    let mode_a = API::get_pointer_mode(&registry, &a, STATUS_SUCCESS, stored_a).unwrap();
    let mode_b = API::get_pointer_mode(&registry, &b, STATUS_SUCCESS, stored_b).unwrap();
    assert_eq!(PointerMode::Host, mode_a);
    assert_eq!(PointerMode::Device, mode_b);

    // Destroying one session leaves the other's handle live.
    API::destroy(&mut registry, &mut b, STATUS_SUCCESS).unwrap();
    assert!(registry.is_live(a.id_c()));
    assert!(!registry.is_live(22));
}

#[test]
fn failed_destroy_still_untracks() {
    let mut registry = HandleRegistry::<ContextKind>::new();
    let mut context = API::create(&mut registry, STATUS_SUCCESS, 30).unwrap();
    let handle = context.id_c();
    let r = API::destroy(&mut registry, &mut context, STATUS_NOT_INITIALIZED);
    assert!(matches!(r, Err(Error::NotInitialized)));
    // Fail-safe toward "already gone": the handle is no longer live and the
    // context is permanently unusable even though the native destroy failed.
    assert!(!registry.is_live(handle));
    assert!(!context.is_live());
}
