//! The capability traits that let XR code run over any graphics backend, and
//! their implementation for the Vulkan backend.
use vstd::prelude::*;
use vstd::string::StringSliceAdditionalSpecFns;

use crate::enumerate::{
    decode_blend_modes, decode_extension_properties, decode_layers, extension_decodes,
    extension_well_formed, failed, known_blend_modes, layer_decodes, layer_well_formed,
    written_prefix, RawApiLayerProperties, RawExtensionProperty,
};
use crate::instance::{
    encoded_name, name_error, names_bytes, native_names, optional_bytes,
    prepare_instance_creation, Instance, InstanceCreateRequest,
};
use crate::system::{all_enabled, is_first_missing, mismatch_names, System, XrSystemCreationError};
use crate::text::words;
use crate::types::{
    UnsupportedBackend, XrApiLayerProperties, XrEnvironmentBlendMode, XrExtensionProperty,
    XrFormFactor, XrInstanceCreationError, XrViewConfigurationType,
};

verus! {

/// A graphics backend with XR support: names its XR counterpart types and
/// decodes the runtime's answers to the global enumeration queries.
pub trait XrBackend: Sized {
    /// The backend's XR instance.
    type Instance;

    /// The backend's XR system.
    type System;

    /// Decodes the records that the runtime wrote in answer to the query of
    /// instance extensions.
    fn enumerate_extension_properties(
        fill_status: i32,
        buffer: Vec<RawExtensionProperty>,
        written_count: u32,
    ) -> (r: Result<Vec<XrExtensionProperty>, UnsupportedBackend>)
        ensures
            r is Ok <==> !failed(fill_status) && forall|i: int|
                0 <= i < written_prefix(buffer@, written_count).len() ==> extension_well_formed(
                    #[trigger] written_prefix(buffer@, written_count)[i],
                ),
            r is Ok ==> {
                let w = written_prefix(buffer@, written_count);
                &&& r->Ok_0@.len() == w.len()
                &&& forall|i: int|
                    0 <= i < w.len() ==> extension_decodes(w[i], #[trigger] r->Ok_0@[i])
            },
    ;

    /// Decodes the records that the runtime wrote in answer to the query of
    /// API layers.
    fn enumerate_layers(
        fill_status: i32,
        buffer: Vec<RawApiLayerProperties>,
        written_count: u32,
    ) -> (r: Result<Vec<XrApiLayerProperties>, UnsupportedBackend>)
        ensures
            r is Ok <==> !failed(fill_status) && forall|i: int|
                0 <= i < written_prefix(buffer@, written_count).len() ==> layer_well_formed(
                    #[trigger] written_prefix(buffer@, written_count)[i],
                ),
            r is Ok ==> {
                let w = written_prefix(buffer@, written_count);
                &&& r->Ok_0@.len() == w.len()
                &&& forall|i: int| 0 <= i < w.len() ==> layer_decodes(w[i], #[trigger] r->Ok_0@[i])
            },
    ;
}

/// An XR instance of some backend.
pub trait XrInstance<X: XrBackend>: Sized {
    /// Whether the instance has not been destroyed.
    spec fn live(&self) -> bool;

    /// The extensions that the host graphics instance enabled.
    spec fn host_extensions(&self) -> Seq<Seq<char>>;

    /// How many systems derived from the instance still hold its handle.
    spec fn holders(&self) -> nat;

    /// Returns a system for the given form factor from the native results of
    /// the system query, checking that the host graphics instance enabled
    /// the extensions the runtime requires. The system becomes a holder of
    /// the instance's handle.
    fn get_system(
        &mut self,
        form_factor: XrFormFactor,
        system_status: i32,
        system_id: u64,
        blend_modes: Vec<XrEnvironmentBlendMode>,
        required_graphics_extensions: &str,
    ) -> (r: Result<X::System, XrSystemCreationError>)
        ensures
            !old(self).live() || failed(system_status) ==> r is Err && r->Err_0
                == XrSystemCreationError::Unsupported,
            old(self).live() && !failed(system_status) && !all_enabled(
                words(required_graphics_extensions@),
                old(self).host_extensions(),
            ) ==> r is Err && exists|k: int|
                is_first_missing(
                    words(required_graphics_extensions@),
                    old(self).host_extensions(),
                    k,
                ) && mismatch_names(r->Err_0, words(required_graphics_extensions@)[k]),
            old(self).live() && !failed(system_status) && all_enabled(
                words(required_graphics_extensions@),
                old(self).host_extensions(),
            ) ==> if old(self).holders() < u64::MAX {
                r is Ok
            } else {
                r is Err && r->Err_0 == XrSystemCreationError::Unsupported
            },
            final(self).live() == old(self).live(),
            final(self).host_extensions() == old(self).host_extensions(),
            r is Ok ==> final(self).holders() == old(self).holders() + 1,
            r is Err ==> final(self).holders() == old(self).holders(),
    ;

    /// Decodes the blend modes the runtime reported for the given view
    /// configuration, most preferred first.
    ///
    /// Enumerated blend modes are typically in the order from highest to
    /// lowest preference, however the order is determined by the current
    /// OpenXR runtime.
    fn enumerate_environment_blend_modes(
        &self,
        system: &X::System,
        view_configuration: XrViewConfigurationType,
        fill_status: i32,
        buffer: Vec<i32>,
        written_count: u32,
    ) -> (r: Result<Vec<XrEnvironmentBlendMode>, UnsupportedBackend>)
        ensures
            r is Err <==> failed(fill_status),
            r is Ok ==> r->Ok_0@ == known_blend_modes(written_prefix(buffer@, written_count)),
    ;
}

/// Extends a graphics instance with the creation of XR instances.
pub trait InstanceExtXr<X: XrBackend>: Sized {
    /// Validates the names and prepares everything the native instance
    /// creation call needs, from the application name and version, an
    /// optional engine name and version, and the layers and extensions to
    /// enable. Names that hold a null byte are left out of the lists.
    ///
    /// The OpenXR standard comments on the purpose and use of
    /// `engine_name` and `engine_version`: when implementing a reusable engine
    /// that will be used by many applications, `engine_name` should be set to
    /// a unique string that identifies the engine, and `engine_version` should
    /// encode a representation of the engine's version.
    fn create_xr_instance(
        &self,
        application_name: &str,
        application_version: u32,
        engine_name: Option<&str>,
        engine_version: Option<u32>,
        required_layers: &[&str],
        required_extensions: &[&str],
    ) -> (r: Result<InstanceCreateRequest, XrInstanceCreationError>)
        ensures
            r is Err <==> name_error(application_name.spec_bytes(), optional_bytes(engine_name)) is Some,
            r is Err ==> Some(r->Err_0) == name_error(
                application_name.spec_bytes(),
                optional_bytes(engine_name),
            ),
            r is Ok ==> {
                let req = r->Ok_0;
                &&& req.application_info.application_name@ == encoded_name(
                    application_name.spec_bytes(),
                    128,
                )
                &&& req.application_info.engine_name@ == match engine_name {
                    Some(e) => encoded_name(e.spec_bytes(), 128),
                    None => encoded_name(Seq::empty(), 128),
                }
                &&& req.application_info.application_version == application_version
                &&& req.application_info.engine_version == match engine_version {
                    Some(v) => v,
                    None => 0,
                }
                &&& req.application_info.api_version == 0x0001_0001_0000_003a
                &&& req.enabled_api_layer_names.deep_view() == native_names(
                    names_bytes(required_layers@),
                )
                &&& req.enabled_extension_names.deep_view() == native_names(
                    names_bytes(required_extensions@),
                )
            },
    ;
}

/// The Vulkan backend, a marker that selects the Vulkan types of each role.
#[derive(Debug, Clone, Copy, PartialEq, Eq, Structural)]
pub enum Backend {
    /// The one value of the marker.
    Vulkan,
}

impl XrBackend for Backend {
    type Instance = Instance;

    type System = System;

    fn enumerate_extension_properties(
        fill_status: i32,
        buffer: Vec<RawExtensionProperty>,
        written_count: u32,
    ) -> (r: Result<Vec<XrExtensionProperty>, UnsupportedBackend>) {
        decode_extension_properties(fill_status, buffer, written_count)
    }

    fn enumerate_layers(
        fill_status: i32,
        buffer: Vec<RawApiLayerProperties>,
        written_count: u32,
    ) -> (r: Result<Vec<XrApiLayerProperties>, UnsupportedBackend>) {
        decode_layers(fill_status, buffer, written_count)
    }
}

impl XrInstance<Backend> for Instance {
    open spec fn live(&self) -> bool {
        self@.live
    }

    open spec fn host_extensions(&self) -> Seq<Seq<char>> {
        self@.graphics_extensions
    }

    open spec fn holders(&self) -> nat {
        self@.systems
    }

    fn get_system(
        &mut self,
        form_factor: XrFormFactor,
        system_status: i32,
        system_id: u64,
        blend_modes: Vec<XrEnvironmentBlendMode>,
        required_graphics_extensions: &str,
    ) -> (r: Result<System, XrSystemCreationError>) {
        System::negotiate(
            self,
            form_factor,
            system_status,
            system_id,
            blend_modes,
            required_graphics_extensions,
        )
    }

    fn enumerate_environment_blend_modes(
        &self,
        system: &System,
        view_configuration: XrViewConfigurationType,
        fill_status: i32,
        buffer: Vec<i32>,
        written_count: u32,
    ) -> (r: Result<Vec<XrEnvironmentBlendMode>, UnsupportedBackend>) {
        decode_blend_modes(fill_status, buffer, written_count)
    }
}

/// The host graphics instance, as far as XR needs it: the instance
/// extensions it was created with.
#[derive(Debug)]
pub struct GraphicsInstance {
    enabled_extensions: Vec<String>,
}

/// A copy of a list of names.
fn copy_names(names: &Vec<String>) -> (r: Vec<String>)
    ensures
        r.deep_view() == names.deep_view(),
{
    let mut out: Vec<String> = Vec::new();
    let mut i: usize = 0;
    while i < names.len()
        invariant
            i <= names@.len(),
            out.deep_view() == names.deep_view().take(i as int),
        decreases names@.len() - i,
    {
        let ghost prev = out.deep_view();
        out.push(names[i].clone());
        assert(out.deep_view() =~= prev.push(names@[i as int]@));
        assert(names.deep_view().take(i as int + 1) =~= names.deep_view().take(i as int).push(
            names@[i as int]@,
        ));
        i = i + 1;
    }
    assert(names.deep_view().take(names@.len() as int) =~= names.deep_view());
    out
}

impl GraphicsInstance {
    /// A graphics instance created with the given instance extensions.
    pub fn new(enabled_extensions: Vec<String>) -> (r: GraphicsInstance)
        ensures
            r.enabled_extensions() == enabled_extensions.deep_view(),
    {
        GraphicsInstance { enabled_extensions }
    }

    /// The instance extensions the graphics instance was created with.
    pub closed spec fn enabled_extensions(&self) -> Seq<Seq<char>> {
        self.enabled_extensions.deep_view()
    }

    /// The instance extensions the graphics instance was created with.
    pub fn extensions(&self) -> (r: &Vec<String>)
        ensures
            r.deep_view() == self.enabled_extensions(),
    {
        &self.enabled_extensions
    }

    /// Finishes XR instance creation from the native results, keeping a copy
    /// of this instance's extensions for the later negotiation. Returns the
    /// instance or the error, and the handle to release at once, if any.
    pub fn finish_xr_instance(&self, create_status: i32, handle: u64, dispatch_loaded: bool) -> (r: (
        Result<Instance, XrInstanceCreationError>,
        Option<u64>,
    ))
        ensures
            ({
                let (want, cleanup) = crate::instance::creation_step(
                    create_status,
                    handle,
                    dispatch_loaded,
                    self.enabled_extensions(),
                );
                &&& r.1 == cleanup
                &&& match (r.0, want) {
                    (Ok(i), Ok(v)) => i@ == v,
                    (Err(e), Err(f)) => e == f,
                    _ => false,
                }
            }),
    {
        Instance::from_native(
            create_status,
            handle,
            dispatch_loaded,
            copy_names(&self.enabled_extensions),
        )
    }
}

impl InstanceExtXr<Backend> for GraphicsInstance {
    fn create_xr_instance(
        &self,
        application_name: &str,
        application_version: u32,
        engine_name: Option<&str>,
        engine_version: Option<u32>,
        required_layers: &[&str],
        required_extensions: &[&str],
    ) -> (r: Result<InstanceCreateRequest, XrInstanceCreationError>) {
        prepare_instance_creation(
            application_name,
            application_version,
            engine_name,
            engine_version,
            required_layers,
            required_extensions,
        )
    }
}

} // verus!
