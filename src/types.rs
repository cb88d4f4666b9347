//! Value records and enumerations shared by every backend.
use vstd::prelude::*;

verus! {

/// An instance extension offered by the runtime.
#[derive(Debug, Clone)]
pub struct XrExtensionProperty {
    /// Name of the extension.
    pub name: String,
    /// Version of the extension.
    pub version: u32,
}

/// An API layer offered by the runtime.
#[derive(Debug, Clone)]
pub struct XrApiLayerProperties {
    /// Name of the layer.
    pub layer_name: String,
    /// OpenXR version the layer was written against, as `major.minor.patch`.
    pub spec_version: String,
    /// Version of the layer itself.
    pub layer_version: u32,
    /// Human readable description of the layer.
    pub description: String,
}

/// No XR runtime could be reached, or it could not answer a query.
#[derive(Debug, Clone, Copy, PartialEq, Eq, Structural)]
pub struct UnsupportedBackend;

/// The class of device that displays the rendered images.
#[derive(Debug, Clone, Copy, PartialEq, Eq, Structural)]
pub enum XrFormFactor {
    /// The tracked display is attached to the user's head. The user cannot
    /// touch the display itself.
    ///
    /// For example: A VR headset.
    HeadMountedDisplay,
    /// The tracked display is held in the user's hand, independent from the
    /// user's head. The user may be able to touch the display, allowing for
    /// screen-space UI.
    ///
    /// For example: A mobile phone running an AR experience using pass-through
    /// video.
    HandheldDisplay,
}

impl XrFormFactor {
    /// The native value of the form factor.
    pub open spec fn raw(self) -> i32 {
        match self {
            XrFormFactor::HeadMountedDisplay => 1,
            XrFormFactor::HandheldDisplay => 2,
        }
    }

    /// Returns the native value of the form factor.
    pub fn into_raw(self) -> (r: i32)
        ensures
            r == self.raw(),
    {
        match self {
            XrFormFactor::HeadMountedDisplay => 1,
            XrFormFactor::HandheldDisplay => 2,
        }
    }
}

/// The arrangement of views that a form factor presents.
#[derive(Debug, Clone, Copy, PartialEq, Eq, Structural)]
pub enum XrViewConfigurationType {
    /// One view representing the form factor's one primary display.
    ///
    /// For example: an AR phone's screen.
    /// This configuration requires one element in XrViewConfigurationProperties
    /// and one projection in each XrCompositionLayerProjection layer.
    PrimaryMono,
    /// Two views representing the form factor's two primary displays, which
    /// map to a left-eye and right-eye view.
    ///
    /// This configuration requires two views in XrViewConfigurationProperties
    /// and two views in each XrCompositionLayerProjection layer.
    /// View index 0 must represent the left eye and view index 1 must
    /// represent the right eye.
    PrimaryStereo,
    /// Four views: two wide views and two inset views of higher resolution
    /// (Varjo headsets).
    PrimaryQuadVarjo,
    /// One secondary view seen by a first person observer camera
    /// (Microsoft extension).
    SecondaryMonoFirstPersonObserverMSFT,
}

impl XrViewConfigurationType {
    /// The native value of the view configuration.
    pub open spec fn raw(self) -> i32 {
        match self {
            XrViewConfigurationType::PrimaryMono => 1,
            XrViewConfigurationType::PrimaryStereo => 2,
            XrViewConfigurationType::PrimaryQuadVarjo => 1000037000,
            XrViewConfigurationType::SecondaryMonoFirstPersonObserverMSFT => 1000054000,
        }
    }

    /// Returns the native value of the view configuration.
    pub fn into_raw(self) -> (r: i32)
        ensures
            r == self.raw(),
    {
        match self {
            XrViewConfigurationType::PrimaryMono => 1,
            XrViewConfigurationType::PrimaryStereo => 2,
            XrViewConfigurationType::PrimaryQuadVarjo => 1000037000,
            XrViewConfigurationType::SecondaryMonoFirstPersonObserverMSFT => 1000054000,
        }
    }
}

/// Why an XR instance could not be created.
#[derive(Debug, Clone, PartialEq, Eq, Structural)]
pub enum XrInstanceCreationError {
    /// The application name is too large or empty.
    InvalidApplicationName,
    /// The engine name is too large.
    InvalidEngineName,
    /// OpenXR is unsupported.
    Unsupported,
    /// The runtime failed the creation with the carried native status code.
    ///
    /// Most OpenXR errors indicate a failure that would be challenging to
    /// recover from; it is recommended to treat an `InternalError` as fatal.
    InternalError(i32),
}

impl XrInstanceCreationError {
    /// A one-line description of the error.
    pub fn message(&self) -> (r: String)
        ensures
            r@ == match self {
                XrInstanceCreationError::InvalidApplicationName =>
                    "application name is invalid, it may be too large if it isn't empty"@,
                XrInstanceCreationError::InvalidEngineName =>
                    "engine name is invalid, it is too large"@,
                XrInstanceCreationError::Unsupported => "OpenXR is unsupported"@,
                XrInstanceCreationError::InternalError(_) =>
                    "an internal error occured within OpenXR"@,
            },
    {
        match self {
            XrInstanceCreationError::InvalidApplicationName => String::from_str(
                "application name is invalid, it may be too large if it isn't empty",
            ),
            XrInstanceCreationError::InvalidEngineName => String::from_str(
                "engine name is invalid, it is too large",
            ),
            XrInstanceCreationError::Unsupported => String::from_str("OpenXR is unsupported"),
            XrInstanceCreationError::InternalError(_) => String::from_str(
                "an internal error occured within OpenXR",
            ),
        }
    }
}

/// How rendered content is composited with the real world.
#[derive(Debug, Clone, Copy, PartialEq, Eq, Structural)]
pub enum XrEnvironmentBlendMode {
    /// The rendered content replaces the view of the real world.
    Opaque,
    /// The rendered content is added to the view of the real world.
    Additive,
    /// The rendered content is blended with the real world by its alpha.
    AlphaBlend,
}

impl XrEnvironmentBlendMode {
    /// The native value of the blend mode.
    pub open spec fn raw(self) -> i32 {
        match self {
            XrEnvironmentBlendMode::Opaque => 1,
            XrEnvironmentBlendMode::Additive => 2,
            XrEnvironmentBlendMode::AlphaBlend => 3,
        }
    }

    /// The blend mode whose native value is `value`, if there is one.
    pub open spec fn from_raw_spec(value: i32) -> Result<XrEnvironmentBlendMode, ()> {
        if value == 1 {
            Ok(XrEnvironmentBlendMode::Opaque)
        } else if value == 2 {
            Ok(XrEnvironmentBlendMode::Additive)
        } else if value == 3 {
            Ok(XrEnvironmentBlendMode::AlphaBlend)
        } else {
            Err(())
        }
    }

    /// Returns the native value of the blend mode.
    pub fn into_raw(self) -> (r: i32)
        ensures
            r == self.raw(),
            Self::from_raw_spec(r) == Ok::<XrEnvironmentBlendMode, ()>(self),
    {
        match self {
            XrEnvironmentBlendMode::Opaque => 1,
            XrEnvironmentBlendMode::Additive => 2,
            XrEnvironmentBlendMode::AlphaBlend => 3,
        }
    }
}

impl std::convert::TryFrom<i32> for XrEnvironmentBlendMode {
    type Error = ();

    fn try_from(value: i32) -> (r: Result<Self, Self::Error>) {
        if value == 1 {
            Ok(XrEnvironmentBlendMode::Opaque)
        } else if value == 2 {
            Ok(XrEnvironmentBlendMode::Additive)
        } else if value == 3 {
            Ok(XrEnvironmentBlendMode::AlphaBlend)
        } else {
            Err(())
        }
    }
}

impl vstd::std_specs::convert::TryFromSpecImpl<i32> for XrEnvironmentBlendMode {
    open spec fn obeys_try_from_spec() -> bool {
        true
    }

    open spec fn try_from_spec(v: i32) -> Result<Self, Self::Error> {
        Self::from_raw_spec(v)
    }
}

} // verus!
