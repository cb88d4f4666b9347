//! Creation and destruction of XR instances.
use vstd::prelude::*;
use vstd::slice::slice_to_vec;
use vstd::string::StringSliceAdditionalSpecFns;

use crate::native::{current_api_version, max_application_name_size, max_engine_name_size};
use crate::types::XrInstanceCreationError;

verus! {

/// The longest application name, in bytes: the native field also holds the
/// terminating null byte.
pub open spec fn application_name_limit() -> nat {
    127
}

/// The longest engine name, in bytes: the native field also holds the
/// terminating null byte.
pub open spec fn engine_name_limit() -> nat {
    127
}

/// `bytes` written into a zeroed field of `size` bytes.
pub open spec fn encoded_name(bytes: Seq<u8>, size: nat) -> Seq<u8> {
    bytes + Seq::new((size - bytes.len()) as nat, |_i: int| 0u8)
}

/// A name of one to 127 bytes, once encoded, fills the 128-byte field: its
/// bytes come first, unchanged, and a null byte ends them at exactly their
/// length.
pub proof fn lemma_encoded_name_terminated(bytes: Seq<u8>)
    requires
        0 < bytes.len() <= application_name_limit(),
    ensures
        encoded_name(bytes, 128).len() == 128,
        encoded_name(bytes, 128).take(bytes.len() as int) == bytes,
        encoded_name(bytes, 128)[bytes.len() as int] == 0,
        forall|i: int| bytes.len() <= i < 128 ==> #[trigger] encoded_name(bytes, 128)[i] == 0,
{
    assert(encoded_name(bytes, 128).take(bytes.len() as int) =~= bytes);
}

/// Identification of the application as the native application info record
/// holds it.
#[derive(Debug, Clone)]
pub struct ApplicationInfo {
    /// The application name, null-terminated in a zeroed 128-byte field.
    pub application_name: Vec<u8>,
    /// The application version.
    pub application_version: u32,
    /// The engine name, null-terminated in a zeroed 128-byte field.
    pub engine_name: Vec<u8>,
    /// The engine version, 0 when none was given.
    pub engine_version: u32,
    /// The packed OpenXR API version requested.
    pub api_version: u64,
}

/// Writes the bytes of a name into a zeroed field of `size` bytes.
pub fn encode_name(bytes: &[u8], size: usize) -> (r: Vec<u8>)
    requires
        bytes@.len() < size,
    ensures
        r@ == encoded_name(bytes@, size as nat),
        r@.len() == size,
        r@[bytes@.len() as int] == 0,
{
    let mut out: Vec<u8> = Vec::new();
    let mut i: usize = 0;
    while i < bytes.len()
        invariant
            i <= bytes@.len(),
            out@ == bytes@.take(i as int),
        decreases bytes@.len() - i,
    {
        out.push(bytes[i]);
        i = i + 1;
        assert(out@ =~= bytes@.take(i as int));
    }
    while out.len() < size
        invariant
            bytes@.len() <= out@.len() <= size,
            out@ =~= bytes@ + Seq::new((out@.len() - bytes@.len()) as nat, |_i: int| 0u8),
        decreases size - out@.len(),
    {
        out.push(0);
    }
    assert(out@ =~= encoded_name(bytes@, size as nat));
    out
}

/// The error that validating the names gives, if any: the engine name is
/// checked first.
pub open spec fn name_error(
    application_name: Seq<u8>,
    engine_name: Option<Seq<u8>>,
) -> Option<XrInstanceCreationError> {
    if engine_name is Some && engine_name->Some_0.len() > engine_name_limit() {
        Some(XrInstanceCreationError::InvalidEngineName)
    } else if application_name.len() == 0 || application_name.len() > application_name_limit() {
        Some(XrInstanceCreationError::InvalidApplicationName)
    } else {
        None
    }
}

/// An application name that is empty or longer than 127 bytes is rejected
/// whatever the engine name: with `InvalidApplicationName` when the engine
/// name is absent or fits its field, and with `InvalidEngineName`, which is
/// reported first, when it does not. A name of 1 to 127 bytes beside a
/// fitting engine name is accepted.
pub proof fn lemma_name_rules(application_name: Seq<u8>, engine_name: Option<Seq<u8>>)
    ensures
        application_name.len() == 0 || application_name.len() > application_name_limit()
            ==> name_error(application_name, engine_name) is Some,
        (application_name.len() == 0 || application_name.len() > application_name_limit()) && (
        engine_name is None || engine_name->Some_0.len() <= engine_name_limit()) ==> name_error(
            application_name,
            engine_name,
        ) == Some(XrInstanceCreationError::InvalidApplicationName),
        0 < application_name.len() <= application_name_limit() && (engine_name is None
            || engine_name->Some_0.len() <= engine_name_limit()) ==> name_error(
            application_name,
            engine_name,
        ) is None,
{
}

/// The bytes of an optional name.
pub open spec fn optional_bytes(name: Option<&str>) -> Option<Seq<u8>> {
    match name {
        Some(s) => Some(s.spec_bytes()),
        None => None,
    }
}

/// Validates the application and engine names and encodes the application
/// info record. Names are rejected, never truncated.
pub fn encode_application_info(
    application_name: &str,
    application_version: u32,
    engine_name: Option<&str>,
    engine_version: Option<u32>,
) -> (r: Result<ApplicationInfo, XrInstanceCreationError>)
    ensures
        r is Err <==> name_error(application_name.spec_bytes(), optional_bytes(engine_name)) is Some,
        r is Err ==> Some(r->Err_0) == name_error(
            application_name.spec_bytes(),
            optional_bytes(engine_name),
        ),
        r is Ok ==> {
            let info = r->Ok_0;
            &&& info.application_name@ == encoded_name(application_name.spec_bytes(), 128)
            &&& info.engine_name@ == match engine_name {
                Some(e) => encoded_name(e.spec_bytes(), 128),
                None => encoded_name(Seq::empty(), 128),
            }
            &&& info.application_version == application_version
            &&& info.engine_version == match engine_version {
                Some(v) => v,
                None => 0,
            }
            &&& info.api_version == 0x0001_0001_0000_003a
        },
{
    let app_size = max_application_name_size();
    let engine_size = max_engine_name_size();
    if let Some(e) = engine_name {
        if e.as_bytes().len() >= engine_size {
            return Err(XrInstanceCreationError::InvalidEngineName);
        }
    }
    let app_bytes = application_name.as_bytes();
    let app_len = app_bytes.len();
    if app_len == 0 || app_len >= app_size {
        return Err(XrInstanceCreationError::InvalidApplicationName);
    }
    let encoded_app = encode_name(app_bytes, app_size);
    let no_name: Vec<u8> = Vec::new();
    let encoded_engine = match engine_name {
        Some(e) => encode_name(e.as_bytes(), engine_size),
        None => encode_name(no_name.as_slice(), engine_size),
    };
    Ok(
        ApplicationInfo {
            application_name: encoded_app,
            application_version,
            engine_name: encoded_engine,
            engine_version: match engine_version {
                Some(v) => v,
                None => 0,
            },
            api_version: current_api_version(),
        },
    )
}

/// The native form of a list of names: each name that holds no null byte,
/// followed by a null byte, in order; a name that holds one is left out.
pub open spec fn native_names(names: Seq<Seq<u8>>) -> Seq<Seq<u8>>
    decreases names.len(),
{
    if names.len() == 0 {
        Seq::empty()
    } else {
        let rest = native_names(names.drop_last());
        if names.last().contains(0u8) {
            rest
        } else {
            rest.push(names.last().push(0u8))
        }
    }
}

/// The bytes of each name of a list.
pub open spec fn names_bytes(names: Seq<&str>) -> Seq<Seq<u8>> {
    names.map_values(|s: &str| s.spec_bytes())
}

/// Whether `bytes` holds a null byte.
pub fn holds_null(bytes: &[u8]) -> (r: bool)
    ensures
        r == bytes@.contains(0u8),
{
    let mut i: usize = 0;
    while i < bytes.len()
        invariant
            i <= bytes@.len(),
            forall|j: int| 0 <= j < i ==> bytes@[j] != 0u8,
        decreases bytes@.len() - i,
    {
        if bytes[i] == 0 {
            return true;
        }
        i = i + 1;
    }
    false
}

/// Turns names into null-terminated native strings. A name that holds a null
/// byte cannot be passed on and is left out of the request.
pub fn to_native_names(names: &[&str]) -> (r: Vec<Vec<u8>>)
    ensures
        r.deep_view() == native_names(names_bytes(names@)),
{
    let mut out: Vec<Vec<u8>> = Vec::new();
    let mut i: usize = 0;
    while i < names.len()
        invariant
            i <= names@.len(),
            out.deep_view() == native_names(names_bytes(names@.take(i as int))),
        decreases names@.len() - i,
    {
        let bytes = names[i].as_bytes();
        assert(names_bytes(names@.take(i as int + 1)).drop_last() =~= names_bytes(
            names@.take(i as int),
        ));
        assert(names_bytes(names@.take(i as int + 1)).last() == bytes@);
        if !holds_null(bytes) {
            let mut name = slice_to_vec(bytes);
            name.push(0);
            let ghost prev = out.deep_view();
            assert(name.deep_view() =~= name@);
            assert(name@ =~= bytes@.push(0u8));
            out.push(name);
            assert(out.deep_view() =~= prev.push(bytes@.push(0u8)));
        }
        i = i + 1;
    }
    assert(names@.take(names@.len() as int) =~= names@);
    out
}

/// Everything the native instance creation call is handed.
#[derive(Debug, Clone)]
pub struct InstanceCreateRequest {
    /// The encoded application identification.
    pub application_info: ApplicationInfo,
    /// The API layers to enable, as null-terminated strings.
    pub enabled_api_layer_names: Vec<Vec<u8>>,
    /// The extensions to enable, as null-terminated strings.
    pub enabled_extension_names: Vec<Vec<u8>>,
}

/// Validates and encodes everything that the native instance creation call
/// needs. Nothing is handed to the runtime when a name is rejected.
pub fn prepare_instance_creation(
    application_name: &str,
    application_version: u32,
    engine_name: Option<&str>,
    engine_version: Option<u32>,
    required_layers: &[&str],
    required_extensions: &[&str],
) -> (r: Result<InstanceCreateRequest, XrInstanceCreationError>)
    ensures
        r is Err <==> name_error(application_name.spec_bytes(), optional_bytes(engine_name)) is Some,
        r is Err ==> Some(r->Err_0) == name_error(
            application_name.spec_bytes(),
            optional_bytes(engine_name),
        ),
        r is Ok ==> {
            let req = r->Ok_0;
            &&& req.application_info.application_name@ == encoded_name(
                application_name.spec_bytes(),
                128,
            )
            &&& req.application_info.engine_name@ == match engine_name {
                Some(e) => encoded_name(e.spec_bytes(), 128),
                None => encoded_name(Seq::empty(), 128),
            }
            &&& req.application_info.application_version == application_version
            &&& req.application_info.engine_version == match engine_version {
                Some(v) => v,
                None => 0,
            }
            &&& req.application_info.api_version == 0x0001_0001_0000_003a
            &&& req.enabled_api_layer_names.deep_view() == native_names(
                names_bytes(required_layers@),
            )
            &&& req.enabled_extension_names.deep_view() == native_names(
                names_bytes(required_extensions@),
            )
        },
{
    let application_info = encode_application_info(
        application_name,
        application_version,
        engine_name,
        engine_version,
    )?;
    Ok(
        InstanceCreateRequest {
            application_info,
            enabled_api_layer_names: to_native_names(required_layers),
            enabled_extension_names: to_native_names(required_extensions),
        },
    )
}

/// The native status code of a call that succeeded.
pub const SUCCESS: i32 = 0;

/// What an [`Instance`] is: the native handle, whether the instance itself
/// is still alive, how many systems derived from it still share the handle,
/// and the extensions that the host graphics instance enabled.
///
/// The handle is shared by the instance and its systems; it is released by
/// the last of them, at the moment the instance is dead and no system holds
/// it any more.
pub ghost struct InstanceView {
    pub handle: u64,
    pub live: bool,
    pub systems: nat,
    pub graphics_extensions: Seq<Seq<char>>,
}

/// An XR instance: co-owns one native instance handle with the systems
/// derived from it. The handle is released exactly once, by the last holder.
#[derive(Debug)]
pub struct Instance {
    handle: u64,
    live: bool,
    systems: u64,
    graphics_extensions: Vec<String>,
}

impl View for Instance {
    type V = InstanceView;

    closed spec fn view(&self) -> InstanceView {
        InstanceView {
            handle: self.handle,
            live: self.live,
            systems: self.systems as nat,
            graphics_extensions: self.graphics_extensions.deep_view(),
        }
    }
}

/// No holder of the handle remains.
pub open spec fn unheld(v: InstanceView) -> bool {
    !v.live && v.systems == 0
}

/// A request to destroy the instance: the instance after it, and the handle
/// to release natively, if any. The handle is released only when no system
/// still holds it.
pub open spec fn destroy_step(v: InstanceView) -> (InstanceView, Option<u64>) {
    if v.live {
        let w = InstanceView { live: false, ..v };
        (w, if unheld(w) { Some(v.handle) } else { None })
    } else {
        (v, None)
    }
}

/// A system is derived from a live instance and becomes a holder of its
/// handle.
pub open spec fn derive_step(v: InstanceView) -> InstanceView {
    if v.live {
        InstanceView { systems: v.systems + 1, ..v }
    } else {
        v
    }
}

/// A system derived from the instance is released: the instance after it,
/// and the handle to release natively when that system was its last holder.
pub open spec fn release_step(v: InstanceView) -> (InstanceView, Option<u64>) {
    if v.systems > 0 {
        let w = InstanceView { systems: (v.systems - 1) as nat, ..v };
        (w, if unheld(w) { Some(v.handle) } else { None })
    } else {
        (v, None)
    }
}

/// One event in the life of an instance's handle.
pub ghost enum HandleEvent {
    /// The instance is destroyed.
    Destroy,
    /// A system is derived from the instance.
    DeriveSystem,
    /// A system derived from the instance is released.
    ReleaseSystem,
}

/// One event applied to the instance: the instance after it, and whether the
/// handle was released by it.
pub open spec fn event_step(v: InstanceView, e: HandleEvent) -> (InstanceView, bool) {
    match e {
        HandleEvent::Destroy => (destroy_step(v).0, destroy_step(v).1 is Some),
        HandleEvent::DeriveSystem => (derive_step(v), false),
        HandleEvent::ReleaseSystem => (release_step(v).0, release_step(v).1 is Some),
    }
}

/// The instance after a sequence of events, and how many times its handle
/// was released over them.
pub open spec fn run_events(v: InstanceView, events: Seq<HandleEvent>) -> (InstanceView, nat)
    decreases events.len(),
{
    if events.len() == 0 {
        (v, 0)
    } else {
        let (w, k) = run_events(v, events.drop_last());
        let (x, released) = event_step(w, events.last());
        (x, k + if released { 1nat } else { 0nat })
    }
}

/// The outcome of the native half of instance creation: the instance, and
/// the handle to release at once, if any. A failed native call creates
/// nothing; a dispatch table that fails to load leaves a created handle that
/// must be released before the error is reported.
pub open spec fn creation_step(
    create_status: i32,
    handle: u64,
    dispatch_loaded: bool,
    graphics_extensions: Seq<Seq<char>>,
) -> (Result<InstanceView, XrInstanceCreationError>, Option<u64>) {
    if create_status != SUCCESS {
        (Err(XrInstanceCreationError::InternalError(create_status)), None)
    } else if !dispatch_loaded {
        (Err(XrInstanceCreationError::Unsupported), Some(handle))
    } else {
        (Ok(InstanceView { handle, live: true, systems: 0, graphics_extensions }), None)
    }
}

impl Instance {
    /// Finishes instance creation from the native results: the status of the
    /// creation call, the handle it produced, and whether the per-instance
    /// dispatch table loaded. Returns the instance or the error, and the
    /// handle that must be released at once, if any.
    pub fn from_native(
        create_status: i32,
        handle: u64,
        dispatch_loaded: bool,
        graphics_extensions: Vec<String>,
    ) -> (r: (Result<Instance, XrInstanceCreationError>, Option<u64>))
        ensures
            ({
                let (want, cleanup) = creation_step(
                    create_status,
                    handle,
                    dispatch_loaded,
                    graphics_extensions.deep_view(),
                );
                &&& r.1 == cleanup
                &&& match (r.0, want) {
                    (Ok(i), Ok(v)) => i@ == v,
                    (Err(e), Err(f)) => e == f,
                    _ => false,
                }
            }),
    {
        if create_status != SUCCESS {
            (Err(XrInstanceCreationError::InternalError(create_status)), None)
        } else if !dispatch_loaded {
            (Err(XrInstanceCreationError::Unsupported), Some(handle))
        } else {
            (Ok(Instance { handle, live: true, systems: 0, graphics_extensions }), None)
        }
    }

    /// The native instance handle.
    pub fn handle(&self) -> (r: u64)
        ensures
            r == self@.handle,
    {
        self.handle
    }

    /// Whether the instance has not been destroyed yet.
    pub fn is_live(&self) -> (r: bool)
        ensures
            r == self@.live,
    {
        self.live
    }

    /// How many systems derived from the instance still hold its handle.
    pub fn system_count(&self) -> (r: u64)
        ensures
            r == self@.systems,
    {
        self.systems
    }

    /// The extensions that the host graphics instance enabled.
    pub fn graphics_extensions(&self) -> (r: &Vec<String>)
        ensures
            r.deep_view() == self@.graphics_extensions,
    {
        &self.graphics_extensions
    }

    /// Destroys the instance. Returns the handle to release natively when no
    /// system derived from the instance still holds it; otherwise the last
    /// system to be released returns it. A later call returns nothing.
    pub fn destroy(&mut self) -> (r: Option<u64>)
        ensures
            (final(self)@, r) == destroy_step(old(self)@),
    {
        if self.live {
            self.live = false;
            if self.systems == 0 {
                Some(self.handle)
            } else {
                None
            }
        } else {
            None
        }
    }

    /// Records one more system holding the handle. Refused, with the
    /// instance unchanged, when the instance is dead or the count is full.
    pub(crate) fn add_system(&mut self) -> (r: bool)
        ensures
            r == (old(self)@.live && old(self)@.systems < u64::MAX),
            r ==> final(self)@ == derive_step(old(self)@),
            !r ==> final(self)@ == old(self)@,
    {
        if self.live && self.systems < u64::MAX {
            self.systems = self.systems + 1;
            true
        } else {
            false
        }
    }

    /// Records that a system holding the handle was released. Returns the
    /// handle to release natively when that system was its last holder.
    pub(crate) fn remove_system(&mut self) -> (r: Option<u64>)
        ensures
            (final(self)@, r) == release_step(old(self)@),
    {
        if self.systems > 0 {
            self.systems = self.systems - 1;
            if !self.live && self.systems == 0 {
                Some(self.handle)
            } else {
                None
            }
        } else {
            None
        }
    }
}

/// Whatever path instance creation takes, and whatever sequence of destroy
/// requests, system derivations and system releases follows, the native
/// handle is released at most once: exactly once when the runtime created it
/// and either the dispatch table failed to load or, by the end, the instance
/// is destroyed and no system holds the handle. While the instance lives or a
/// system holds the handle, it has not been released.
pub proof fn lemma_handle_released_once(
    create_status: i32,
    handle: u64,
    dispatch_loaded: bool,
    graphics_extensions: Seq<Seq<char>>,
    events: Seq<HandleEvent>,
)
    ensures
        ({
            let (inst, cleanup) = creation_step(
                create_status,
                handle,
                dispatch_loaded,
                graphics_extensions,
            );
            let at_creation: nat = if cleanup is Some { 1 } else { 0 };
            let later: nat = match inst {
                Ok(v) => run_events(v, events).1,
                Err(_) => 0,
            };
            &&& cleanup is Some ==> cleanup == Some(handle)
            &&& at_creation + later <= 1
            &&& at_creation + later == 1 <==> create_status == SUCCESS && (!dispatch_loaded
                || unheld(run_events(inst->Ok_0, events).0))
        }),
{
    let (inst, cleanup) = creation_step(create_status, handle, dispatch_loaded, graphics_extensions);
    if let Ok(v) = inst {
        lemma_run_events(v, events);
    }
}

/// Over any events from a fresh instance, the handle has been released once
/// exactly when no holder remains, and never otherwise.
proof fn lemma_run_events(v: InstanceView, events: Seq<HandleEvent>)
    requires
        v.live,
        v.systems == 0,
    ensures
        run_events(v, events).1 == if unheld(run_events(v, events).0) { 1nat } else { 0nat },
        run_events(v, events).0.handle == v.handle,
    decreases events.len(),
{
    if events.len() > 0 {
        lemma_run_events(v, events.drop_last());
    }
}

} // verus!
