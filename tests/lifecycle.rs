use xr_hal::{
    encode_application_info, encode_name, holds_null, prepare_instance_creation,
    session_create_info, to_native_names, validate_graphics_extensions, find_missing_extension,
    GraphicsInstance, Instance, InstanceExtXr, Session, Swapchain, System, XrEnvironmentBlendMode,
    XrFormFactor, XrInstance, XrInstanceCreationError, XrSessionError, XrSystemCreationError,
    XrViewConfigurationType, Backend, SUCCESS, TIMEOUT_EXPIRED, views_valid,
};

fn names(list: &[&str]) -> Vec<String> {
    list.iter().map(|s| s.to_string()).collect()
}

fn live_instance(host: &[&str]) -> Instance {
    let graphics = GraphicsInstance::new(names(host));
    let (inst, cleanup) = graphics.finish_xr_instance(SUCCESS, 42, true);
    assert_eq!(cleanup, None);
    inst.unwrap()
}

#[test]
fn application_name_is_encoded_and_terminated() {
    for len in 1..=127usize {
        let name = "n".repeat(len);
        let info = encode_application_info(&name, 1, None, None).unwrap();
        assert_eq!(info.application_name.len(), 128);
        assert_eq!(&info.application_name[..len], name.as_bytes());
        assert!(info.application_name[len..].iter().all(|b| *b == 0));
        assert!(info.engine_name.iter().all(|b| *b == 0));
        assert_eq!(info.engine_version, 0);
        assert_eq!(info.api_version, 0x0001_0001_0000_003a);
    }
}

#[test]
fn oversized_or_empty_names_are_rejected() {
    let long = "a".repeat(128);
    assert_eq!(
        encode_application_info(&long, 1, None, None).unwrap_err(),
        XrInstanceCreationError::InvalidApplicationName
    );
    assert_eq!(
        encode_application_info("", 1, None, None).unwrap_err(),
        XrInstanceCreationError::InvalidApplicationName
    );
    assert_eq!(
        encode_application_info("app", 1, Some(&long), Some(2)).unwrap_err(),
        XrInstanceCreationError::InvalidEngineName
    );
    assert_eq!(
        encode_application_info("", 1, Some(&long), Some(2)).unwrap_err(),
        XrInstanceCreationError::InvalidEngineName
    );
}

#[test]
fn engine_name_has_its_own_field() {
    let info = encode_application_info("ILD_APPLICATION", 5, Some("AWESOME_XR_ENGINE"), Some(2)).unwrap();
    assert_eq!(&info.application_name[..16], b"ILD_APPLICATION\0");
    assert_eq!(&info.engine_name[..18], b"AWESOME_XR_ENGINE\0");
    assert_eq!(info.application_version, 5);
    assert_eq!(info.engine_version, 2);
}

#[test]
fn encode_name_pads_with_zeros() {
    assert_eq!(encode_name(b"ab", 4), vec![b'a', b'b', 0, 0]);
}

#[test]
fn names_with_null_bytes_are_dropped() {
    assert!(holds_null(b"a\0b"));
    assert!(!holds_null(b"ab"));
    let out = to_native_names(&["XR_a", "bad\0name", "XR_b"]);
    assert_eq!(out, vec![b"XR_a\0".to_vec(), b"XR_b\0".to_vec()]);
}

#[test]
fn instance_request_holds_everything() {
    let graphics = GraphicsInstance::new(names(&["VK_KHR_surface"]));
    let req = graphics
        .create_xr_instance("TestApp", 1, None, None, &["XR_layer"], &["VK_KHR_ext_a"])
        .unwrap();
    assert_eq!(&req.application_info.application_name[..8], b"TestApp\0");
    assert_eq!(req.enabled_api_layer_names, vec![b"XR_layer\0".to_vec()]);
    assert_eq!(req.enabled_extension_names, vec![b"VK_KHR_ext_a\0".to_vec()]);
    let req = prepare_instance_creation("TestApp", 1, None, None, &[], &[]).unwrap();
    assert!(req.enabled_api_layer_names.is_empty());
    assert!(prepare_instance_creation("", 1, None, None, &[], &[]).is_err());
}

#[test]
fn native_failure_creates_nothing() {
    let (inst, cleanup) = Instance::from_native(-6, 0, true, vec![]);
    assert_eq!(inst.unwrap_err(), XrInstanceCreationError::InternalError(-6));
    assert_eq!(cleanup, None);
}

#[test]
fn dispatch_failure_releases_the_handle() {
    let (inst, cleanup) = Instance::from_native(SUCCESS, 9, false, vec![]);
    assert_eq!(inst.unwrap_err(), XrInstanceCreationError::Unsupported);
    assert_eq!(cleanup, Some(9));
}

#[test]
fn instance_is_destroyed_once() {
    let mut inst = live_instance(&[]);
    assert!(inst.is_live());
    assert_eq!(inst.handle(), 42);
    assert_eq!(inst.destroy(), Some(42));
    assert!(!inst.is_live());
    assert_eq!(inst.destroy(), None);
    assert_eq!(inst.destroy(), None);
}

#[test]
fn error_messages() {
    assert_eq!(XrInstanceCreationError::Unsupported.message(), "OpenXR is unsupported");
    assert_eq!(
        XrInstanceCreationError::InternalError(-1).message(),
        "an internal error occured within OpenXR"
    );
}

#[test]
fn system_created_when_extensions_enabled() {
    let mut inst = live_instance(&["VK_KHR_ext_a", "VK_KHR_ext_b"]);
    let system = inst
        .get_system(XrFormFactor::HeadMountedDisplay, SUCCESS, 7, vec![XrEnvironmentBlendMode::Opaque], "VK_KHR_ext_a")
        .unwrap();
    assert_eq!(system.id(), 7);
    assert_eq!(system.instance(), 42);
    assert_eq!(system.default_blend_mode(), Some(XrEnvironmentBlendMode::Opaque));
}

#[test]
fn system_refused_when_extension_missing() {
    let mut inst = live_instance(&["VK_KHR_ext_b"]);
    let err = System::negotiate(&mut inst, XrFormFactor::HeadMountedDisplay, SUCCESS, 7, vec![], "VK_KHR_ext_a")
        .unwrap_err();
    assert_eq!(err, XrSystemCreationError::ConfigurationMismatch("VK_KHR_ext_a".to_string()));
}

#[test]
fn system_query_failure_is_unsupported() {
    let mut inst = live_instance(&[]);
    let err = System::negotiate(&mut inst, XrFormFactor::HandheldDisplay, -1, 0, vec![], "").unwrap_err();
    assert_eq!(err, XrSystemCreationError::Unsupported);
    let mut dead = live_instance(&[]);
    dead.destroy();
    let err = System::negotiate(&mut dead, XrFormFactor::HandheldDisplay, SUCCESS, 0, vec![], "").unwrap_err();
    assert_eq!(err, XrSystemCreationError::Unsupported);
}

#[test]
fn negotiation_ignores_order_and_duplicates() {
    let required = names(&["b", "a", "a"]);
    assert!(validate_graphics_extensions(&required, &names(&["a", "b"])).is_ok());
    assert!(validate_graphics_extensions(&required, &names(&["b", "b", "a", "c"])).is_ok());
    assert!(validate_graphics_extensions(&names(&[]), &names(&[])).is_ok());
    assert_eq!(
        validate_graphics_extensions(&required, &names(&["b"])).unwrap_err(),
        XrSystemCreationError::ConfigurationMismatch("a".to_string())
    );
    assert_eq!(find_missing_extension(&names(&["x", "A", "a"]), &names(&["x", "a"])), Some(1));
}

#[test]
fn blend_modes_through_instance() {
    let mut inst = live_instance(&[]);
    let system = inst.get_system(XrFormFactor::HeadMountedDisplay, SUCCESS, 1, vec![], "").unwrap();
    assert_eq!(system.default_blend_mode(), None);
    let modes = inst
        .enumerate_environment_blend_modes(&system, XrViewConfigurationType::PrimaryStereo, SUCCESS, vec![2, 1, 0], 2)
        .unwrap();
    assert_eq!(modes, vec![XrEnvironmentBlendMode::Additive, XrEnvironmentBlendMode::Opaque]);
}

#[test]
fn session_binds_first_queue() {
    let mut inst = live_instance(&[]);
    let system = inst.get_system(XrFormFactor::HeadMountedDisplay, SUCCESS, 3, vec![], "").unwrap();
    let info = session_create_info(&inst, &system, 10, 11, 12);
    assert_eq!(info.instance, 42);
    assert_eq!(info.system_id, 3);
    assert_eq!((info.graphics_instance, info.physical_device, info.device), (10, 11, 12));
    assert_eq!((info.queue_family_index, info.queue_index), (0, 0));
    assert_eq!(Session::from_native(-2, 0).unwrap_err(), XrSessionError::InternalError(-2));
}

#[test]
fn frames_must_alternate() {
    let mut session = Session::from_native(SUCCESS, 5).unwrap();
    assert_eq!(session.raw_handle(), 5);
    assert_eq!(session.end_frame_stream(), Err(XrSessionError::FrameNotBegun));
    assert_eq!(session.begin_frame_stream(), Ok(()));
    assert!(session.is_in_frame());
    assert_eq!(session.begin_frame_stream(), Err(XrSessionError::FrameAlreadyBegun));
    assert_eq!(session.end_frame_stream(), Ok(()));
    assert_eq!(session.end_frame_stream(), Err(XrSessionError::FrameNotBegun));
    assert_eq!(session.begin_frame_stream(), Ok(()));
}

#[test]
fn wait_with_zero_timeout_reports_timeout() {
    let mut swapchain = Swapchain::from_native(1, SUCCESS, vec![100, 101, 102], 3).unwrap();
    assert_eq!(swapchain.enumerate_images(), &vec![100, 101, 102]);
    assert_eq!(swapchain.wait_image(SUCCESS), Err(XrSessionError::ImageNotAcquired));
    assert_eq!(swapchain.acquire_image(SUCCESS, 1), Ok(1));
    // a runtime that never signals readiness answers a zero timeout at once
    assert_eq!(swapchain.wait_image(TIMEOUT_EXPIRED), Err(XrSessionError::Timeout));
    assert_eq!(swapchain.wait_image(SUCCESS), Ok(()));
    assert_eq!(swapchain.release_image(), Ok(1));
    assert_eq!(swapchain.release_image(), Err(XrSessionError::ImageNotAcquired));
}

#[test]
fn swapchain_rejects_bad_acquire() {
    let mut swapchain = Swapchain::from_native(1, SUCCESS, vec![100, 101], 1).unwrap();
    assert_eq!(swapchain.enumerate_images(), &vec![100]);
    assert_eq!(swapchain.acquire_image(SUCCESS, 1), Err(XrSessionError::InternalError(0)));
    assert_eq!(swapchain.acquire_image(-8, 0), Err(XrSessionError::InternalError(-8)));
    assert_eq!(swapchain.acquire_image(SUCCESS, 0), Ok(0));
    assert_eq!(swapchain.wait_image(-1), Err(XrSessionError::InternalError(-1)));
    assert!(Swapchain::from_native(1, -1, vec![], 0).is_err());
    let _ = Backend::Vulkan;
}

#[test]
fn located_views_need_both_valid_bits() {
    assert!(views_valid(0x3));
    assert!(views_valid(0xF));
    assert!(!views_valid(0x1));
    assert!(!views_valid(0x2));
    assert!(!views_valid(0xC));
}

#[test]
fn handle_outlives_instance_while_a_system_holds_it() {
    let mut inst = live_instance(&["VK_KHR_ext_a"]);
    let first = System::negotiate(&mut inst, XrFormFactor::HeadMountedDisplay, SUCCESS, 7, vec![], "VK_KHR_ext_a")
        .unwrap();
    let second = inst.get_system(XrFormFactor::HeadMountedDisplay, SUCCESS, 7, vec![], "").unwrap();
    assert_eq!(inst.system_count(), 2);
    // the systems still hold the handle: destroying the instance releases nothing
    assert_eq!(inst.destroy(), None);
    assert!(!inst.is_live());
    assert_eq!(inst.destroy(), None);
    // no new system can be derived from a destroyed instance
    assert_eq!(
        System::negotiate(&mut inst, XrFormFactor::HeadMountedDisplay, SUCCESS, 7, vec![], "").unwrap_err(),
        XrSystemCreationError::Unsupported
    );
    assert_eq!(first.release(&mut inst), None);
    // the last holder releases the handle, once
    assert_eq!(second.release(&mut inst), Some(42));
    assert_eq!(inst.system_count(), 0);
    assert_eq!(inst.destroy(), None);
}

#[test]
fn system_released_before_instance() {
    let mut inst = live_instance(&[]);
    let system = inst.get_system(XrFormFactor::HandheldDisplay, SUCCESS, 1, vec![], "").unwrap();
    assert_eq!(system.release(&mut inst), None);
    assert_eq!(inst.destroy(), Some(42));
}

#[test]
fn failed_negotiation_adds_no_holder() {
    let mut inst = live_instance(&["VK_KHR_ext_b"]);
    assert!(System::negotiate(&mut inst, XrFormFactor::HeadMountedDisplay, SUCCESS, 7, vec![], "VK_KHR_ext_a").is_err());
    assert_eq!(inst.system_count(), 0);
    assert_eq!(inst.destroy(), Some(42));
}

#[test]
fn system_of_another_instance_changes_nothing() {
    let mut a = live_instance(&[]);
    let graphics = GraphicsInstance::new(vec![]);
    let mut b = graphics.finish_xr_instance(SUCCESS, 43, true).0.unwrap();
    let system = b.get_system(XrFormFactor::HandheldDisplay, SUCCESS, 1, vec![], "").unwrap();
    a.destroy();
    assert_eq!(system.release(&mut a), None);
    assert_eq!(b.system_count(), 1);
}
