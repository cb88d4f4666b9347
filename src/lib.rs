//! Extended-reality support for a graphics hardware-abstraction layer.
//!
//! The library holds the decisions of an OpenXR integration: the two-call
//! enumeration protocol, the encoding of application identification, the
//! negotiation of companion graphics extensions, the instance lifecycle and
//! the frame state machine. The native calls themselves are made by the
//! embedding program, which hands their results to these functions.

mod backend;
mod enumerate;
mod instance;
mod native;
mod session;
mod system;
mod text;
mod types;

pub use backend::{Backend, GraphicsInstance, InstanceExtXr, XrBackend, XrInstance};
pub use enumerate::{
    decode_blend_modes, decode_extension, decode_extension_properties, decode_layer,
    decode_layers, lemma_written_records_kept, required_capacity, retain_written,
    RawApiLayerProperties, RawExtensionProperty,
};
pub use instance::{
    encode_application_info, encode_name, holds_null, lemma_encoded_name_terminated,
    lemma_handle_released_once, lemma_name_rules,
    prepare_instance_creation, to_native_names, ApplicationInfo, Instance,
    InstanceCreateRequest, SUCCESS,
};
pub use session::{
    lemma_frames_alternate, session_create_info, views_valid, Session, SessionCreateInfo,
    Swapchain, XrSessionError, ORIENTATION_VALID, POSITION_VALID, TIMEOUT_EXPIRED,
};
pub use system::{
    find_missing_extension, is_enabled, lemma_negotiation_is_containment,
    validate_graphics_extensions, System, XrSystemCreationError,
};
pub use text::{decode_fixed_text, split_names, terminator_position};
pub use types::{
    UnsupportedBackend, XrApiLayerProperties, XrEnvironmentBlendMode, XrExtensionProperty,
    XrFormFactor, XrInstanceCreationError, XrViewConfigurationType,
};
