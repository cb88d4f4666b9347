//! Resolution of a system and negotiation of the companion graphics
//! extensions that the runtime needs.
use vstd::prelude::*;

use crate::enumerate::failed;
use crate::instance::{derive_step, release_step, Instance};
use crate::text::{split_names, words};
use crate::types::{XrEnvironmentBlendMode, XrFormFactor};

verus! {

/// Why a system could not be set up.
#[derive(Debug, Clone, PartialEq, Eq)]
pub enum XrSystemCreationError {
    /// The runtime offers no system of the requested form factor.
    Unsupported,
    /// The host graphics instance lacks an extension that the runtime needs;
    /// it carries the name of the first such extension.
    ConfigurationMismatch(String),
}

/// `e` reports that the extension `name` is missing.
pub open spec fn mismatch_names(e: XrSystemCreationError, name: Seq<char>) -> bool {
    match e {
        XrSystemCreationError::ConfigurationMismatch(n) => n@ == name,
        _ => false,
    }
}

/// Every name of `required` is among `enabled`.
pub open spec fn all_enabled(required: Seq<Seq<char>>, enabled: Seq<Seq<char>>) -> bool {
    forall|i: int| 0 <= i < required.len() ==> enabled.contains(#[trigger] required[i])
}

/// `k` is the position of the first name of `required` missing from
/// `enabled`.
pub open spec fn is_first_missing(
    required: Seq<Seq<char>>,
    enabled: Seq<Seq<char>>,
    k: int,
) -> bool {
    &&& 0 <= k < required.len()
    &&& !enabled.contains(required[k])
    &&& forall|j: int| 0 <= j < k ==> enabled.contains(#[trigger] required[j])
}

/// Whether `enabled` holds `name` (exact, case-sensitive).
pub fn is_enabled(name: &String, enabled: &Vec<String>) -> (r: bool)
    ensures
        r == enabled.deep_view().contains(name@),
{
    let mut i: usize = 0;
    while i < enabled.len()
        invariant
            i <= enabled@.len(),
            forall|j: int| 0 <= j < i ==> enabled.deep_view()[j] != name@,
        decreases enabled@.len() - i,
    {
        if *name == enabled[i] {
            assert(enabled.deep_view()[i as int] == name@);
            return true;
        }
        i = i + 1;
    }
    false
}

/// Finds the first name of `required` that `enabled` lacks.
pub fn find_missing_extension(required: &Vec<String>, enabled: &Vec<String>) -> (r: Option<usize>)
    ensures
        r is None <==> all_enabled(required.deep_view(), enabled.deep_view()),
        r is Some ==> is_first_missing(required.deep_view(), enabled.deep_view(), r->Some_0 as int),
{
    let mut i: usize = 0;
    while i < required.len()
        invariant
            i <= required@.len(),
            forall|j: int|
                0 <= j < i ==> enabled.deep_view().contains(#[trigger] required.deep_view()[j]),
        decreases required@.len() - i,
    {
        assert(required.deep_view()[i as int] == required@[i as int]@);
        if !is_enabled(&required[i], enabled) {
            assert(!all_enabled(required.deep_view(), enabled.deep_view()));
            return Some(i);
        }
        i = i + 1;
    }
    None
}

/// Checks that the host graphics instance enabled every extension the
/// runtime requires.
pub fn validate_graphics_extensions(required: &Vec<String>, enabled: &Vec<String>) -> (r: Result<
    (),
    XrSystemCreationError,
>)
    ensures
        r is Ok <==> all_enabled(required.deep_view(), enabled.deep_view()),
        r is Err ==> exists|k: int|
            is_first_missing(required.deep_view(), enabled.deep_view(), k) && mismatch_names(
                r->Err_0,
                required.deep_view()[k],
            ),
{
    match find_missing_extension(required, enabled) {
        None => Ok(()),
        Some(k) => Err(XrSystemCreationError::ConfigurationMismatch(required[k].clone())),
    }
}

/// Whether the negotiation succeeds does not depend on the order of either
/// list nor on duplicates in them: it succeeds exactly when the required
/// names form a subset of the enabled ones.
pub proof fn lemma_negotiation_is_containment(
    required: Seq<Seq<char>>,
    enabled: Seq<Seq<char>>,
    other_required: Seq<Seq<char>>,
    other_enabled: Seq<Seq<char>>,
)
    requires
        required.to_set() == other_required.to_set(),
        enabled.to_set() == other_enabled.to_set(),
    ensures
        all_enabled(required, enabled) <==> required.to_set().subset_of(enabled.to_set()),
        all_enabled(required, enabled) <==> all_enabled(other_required, other_enabled),
{
    lemma_all_enabled_subset(required, enabled);
    lemma_all_enabled_subset(other_required, other_enabled);
}

/// `all_enabled` is set containment.
proof fn lemma_all_enabled_subset(required: Seq<Seq<char>>, enabled: Seq<Seq<char>>)
    ensures
        all_enabled(required, enabled) <==> required.to_set().subset_of(enabled.to_set()),
{
    if all_enabled(required, enabled) {
        assert forall|x: Seq<char>| required.to_set().contains(x) implies enabled.to_set().contains(
            x,
        ) by {
            let i = choose|i: int| 0 <= i < required.len() && required[i] == x;
            assert(enabled.contains(required[i]));
        }
    }
    if required.to_set().subset_of(enabled.to_set()) {
        assert forall|i: int| 0 <= i < required.len() implies enabled.contains(
            #[trigger] required[i],
        ) by {
            assert(required.to_set().contains(required[i]));
        }
    }
}

/// A system of the runtime, resolved for one form factor of one instance.
#[derive(Debug)]
pub struct System {
    instance: u64,
    system_id: u64,
    form_factor: XrFormFactor,
    blend_modes: Vec<XrEnvironmentBlendMode>,
}

impl System {
    /// Sets up a system from the native results: the status of the system
    /// query and the identifier it gave, the blend modes the runtime offers
    /// in its order of preference, and the space-separated list of graphics
    /// extensions the runtime requires. Fails with `Unsupported` when the
    /// instance was destroyed or the query failed, and with
    /// `ConfigurationMismatch` when the host graphics instance lacks a
    /// required extension. The system becomes a holder of the instance's
    /// handle: the handle is not released before the system is.
    pub fn negotiate(
        instance: &mut Instance,
        form_factor: XrFormFactor,
        system_status: i32,
        system_id: u64,
        blend_modes: Vec<XrEnvironmentBlendMode>,
        required_graphics_extensions: &str,
    ) -> (r: Result<System, XrSystemCreationError>)
        ensures
            !old(instance)@.live || failed(system_status) ==> r == Err::<System, _>(
                XrSystemCreationError::Unsupported,
            ),
            old(instance)@.live && !failed(system_status) ==> (!all_enabled(
                words(required_graphics_extensions@),
                old(instance)@.graphics_extensions,
            ) ==> r is Err && exists|k: int|
                is_first_missing(
                    words(required_graphics_extensions@),
                    old(instance)@.graphics_extensions,
                    k,
                ) && mismatch_names(r->Err_0, words(required_graphics_extensions@)[k])),
            old(instance)@.live && !failed(system_status) && all_enabled(
                words(required_graphics_extensions@),
                old(instance)@.graphics_extensions,
            ) ==> if old(instance)@.systems < u64::MAX {
                r is Ok
            } else {
                r == Err::<System, _>(XrSystemCreationError::Unsupported)
            },
            r is Ok ==> final(instance)@ == derive_step(old(instance)@),
            r is Err ==> final(instance)@ == old(instance)@,
            r is Ok ==> {
                let s = r->Ok_0;
                &&& s.instance_handle() == old(instance)@.handle
                &&& s.system_id() == system_id
                &&& s.form_factor() == form_factor
                &&& s.blend_modes()@ == blend_modes@
            },
    {
        if !instance.is_live() || system_status < 0 {
            return Err(XrSystemCreationError::Unsupported);
        }
        let required = split_names(required_graphics_extensions);
        match validate_graphics_extensions(&required, instance.graphics_extensions()) {
            Ok(()) => {},
            Err(e) => {
                return Err(e);
            },
        }
        if !instance.add_system() {
            return Err(XrSystemCreationError::Unsupported);
        }
        Ok(System { instance: instance.handle(), system_id, form_factor, blend_modes })
    }

    /// Releases the system, which stops holding its instance's handle.
    /// Returns the handle to release natively when the instance was already
    /// destroyed and this system was the last holder. A system handed an
    /// instance it was not derived from changes nothing.
    pub fn release(self, instance: &mut Instance) -> (r: Option<u64>)
        ensures
            self.instance_handle() == old(instance)@.handle ==> (final(instance)@, r)
                == release_step(old(instance)@),
            self.instance_handle() != old(instance)@.handle ==> final(instance)@ == old(
                instance,
            )@ && r is None,
    {
        if self.instance == instance.handle() {
            instance.remove_system()
        } else {
            None
        }
    }

    /// The handle of the instance the system belongs to.
    pub closed spec fn instance_handle(&self) -> u64 {
        self.instance
    }

    /// The native system identifier.
    pub closed spec fn system_id(&self) -> u64 {
        self.system_id
    }

    /// The form factor the system was resolved for.
    pub closed spec fn form_factor(&self) -> XrFormFactor {
        self.form_factor
    }

    /// The blend modes the runtime offers, most preferred first.
    pub closed spec fn blend_modes(&self) -> Vec<XrEnvironmentBlendMode> {
        self.blend_modes
    }

    /// The native system identifier.
    pub fn id(&self) -> (r: u64)
        ensures
            r == self.system_id(),
    {
        self.system_id
    }

    /// The handle of the instance the system belongs to.
    pub fn instance(&self) -> (r: u64)
        ensures
            r == self.instance_handle(),
    {
        self.instance
    }

    /// The blend modes the runtime offers, most preferred first.
    pub fn environment_blend_modes(&self) -> (r: &Vec<XrEnvironmentBlendMode>)
        ensures
            r@ == self.blend_modes()@,
    {
        &self.blend_modes
    }

    /// The runtime's preferred blend mode, if it offers any.
    pub fn default_blend_mode(&self) -> (r: Option<XrEnvironmentBlendMode>)
        ensures
            self.blend_modes()@.len() == 0 ==> r is None,
            self.blend_modes()@.len() > 0 ==> r == Some(self.blend_modes()@[0]),
    {
        if self.blend_modes.len() == 0 {
            None
        } else {
            Some(self.blend_modes[0])
        }
    }
}

} // verus!
