//! The two-call enumeration protocol of variable-length native queries.
//!
//! A query is first made with no buffer to learn how many records the runtime
//! holds, then again with a buffer of that capacity. The runtime reports how
//! many records it wrote; only those are ever decoded.
use vstd::prelude::*;

use crate::native::{format_version, version_text};
use crate::text::{decode_fixed_text, fixed_text, is_terminated};
use crate::types::{
    UnsupportedBackend, XrApiLayerProperties, XrEnvironmentBlendMode, XrExtensionProperty,
};

verus! {

/// An extension record as the runtime writes it: the name sits in a
/// fixed-size null-terminated buffer.
#[derive(Debug, Clone)]
pub struct RawExtensionProperty {
    /// The fixed-size name buffer.
    pub extension_name: Vec<u8>,
    /// Version of the extension.
    pub extension_version: u32,
}

/// An API layer record as the runtime writes it.
#[derive(Debug, Clone)]
pub struct RawApiLayerProperties {
    /// The fixed-size name buffer.
    pub layer_name: Vec<u8>,
    /// Packed OpenXR version the layer was written against.
    pub spec_version: u64,
    /// Version of the layer itself.
    pub layer_version: u32,
    /// The fixed-size description buffer.
    pub description: Vec<u8>,
}

/// A native status code that reports failure.
pub open spec fn failed(status: i32) -> bool {
    status < 0
}

/// The records of `buffer` that the runtime wrote: the first `written_count`,
/// or all of them if it claims to have written more than the buffer holds.
pub open spec fn written_prefix<T>(buffer: Seq<T>, written_count: u32) -> Seq<T> {
    if written_count as int <= buffer.len() {
        buffer.take(written_count as int)
    } else {
        buffer
    }
}

/// When the runtime writes no more records than the capacity it asked for,
/// exactly `written_count` records are kept: the first ones of the buffer,
/// and nothing past them.
pub proof fn lemma_written_records_kept<T>(buffer: Seq<T>, required_count: u32, written_count: u32)
    requires
        buffer.len() == required_count,
        written_count <= required_count,
    ensures
        written_prefix(buffer, written_count).len() == written_count,
        forall|i: int|
            0 <= i < written_count ==> #[trigger] written_prefix(buffer, written_count)[i]
                == buffer[i],
{
}

/// Decides the capacity of the buffer for the second call from the answer to
/// the first one.
pub fn required_capacity(count_status: i32, required_count: u32) -> (r: Result<
    usize,
    UnsupportedBackend,
>)
    ensures
        r is Err <==> failed(count_status),
        r is Ok ==> r->Ok_0 == required_count,
{
    if count_status < 0 {
        Err(UnsupportedBackend)
    } else {
        Ok(required_count as usize)
    }
}

/// Keeps the records that the second call wrote and drops the rest of the
/// buffer unread.
pub fn retain_written<T>(fill_status: i32, buffer: Vec<T>, written_count: u32) -> (r: Result<
    Vec<T>,
    UnsupportedBackend,
>)
    ensures
        r is Err <==> failed(fill_status),
        r is Ok ==> r->Ok_0@ == written_prefix(buffer@, written_count),
{
    if fill_status < 0 {
        return Err(UnsupportedBackend);
    }
    let mut buffer = buffer;
    buffer.truncate(written_count as usize);
    Ok(buffer)
}

/// `p` is what `raw` decodes to.
pub open spec fn extension_decodes(raw: RawExtensionProperty, p: XrExtensionProperty) -> bool {
    &&& fixed_text(raw.extension_name@) == Some(p.name@)
    &&& p.version == raw.extension_version
}

/// `raw`'s name buffer is null-terminated.
pub open spec fn extension_well_formed(raw: RawExtensionProperty) -> bool {
    is_terminated(raw.extension_name@)
}

/// `p` is what `raw` decodes to.
pub open spec fn layer_decodes(raw: RawApiLayerProperties, p: XrApiLayerProperties) -> bool {
    &&& fixed_text(raw.layer_name@) == Some(p.layer_name@)
    &&& p.spec_version@ == version_text(raw.spec_version)
    &&& p.layer_version == raw.layer_version
    &&& fixed_text(raw.description@) == Some(p.description@)
}

/// `raw`'s name and description buffers are null-terminated.
pub open spec fn layer_well_formed(raw: RawApiLayerProperties) -> bool {
    &&& is_terminated(raw.layer_name@)
    &&& is_terminated(raw.description@)
}

/// Decodes one extension record; `None` when its name is not terminated.
pub fn decode_extension(raw: &RawExtensionProperty) -> (r: Option<XrExtensionProperty>)
    ensures
        r is Some <==> extension_well_formed(*raw),
        r is Some ==> extension_decodes(*raw, r->Some_0),
{
    match decode_fixed_text(raw.extension_name.as_slice()) {
        Some(name) => Some(XrExtensionProperty { name, version: raw.extension_version }),
        None => None,
    }
}

/// Decodes one API layer record; `None` when its name or description is not
/// terminated.
pub fn decode_layer(raw: &RawApiLayerProperties) -> (r: Option<XrApiLayerProperties>)
    ensures
        r is Some <==> layer_well_formed(*raw),
        r is Some ==> layer_decodes(*raw, r->Some_0),
{
    let layer_name = match decode_fixed_text(raw.layer_name.as_slice()) {
        Some(s) => s,
        None => return None,
    };
    let description = match decode_fixed_text(raw.description.as_slice()) {
        Some(s) => s,
        None => return None,
    };
    Some(
        XrApiLayerProperties {
            layer_name,
            spec_version: format_version(raw.spec_version),
            layer_version: raw.layer_version,
            description,
        },
    )
}

/// A record as the runtime writes it, which decodes into a value record.
pub trait RawRecord: Sized {
    /// The value record it decodes into.
    type Decoded;

    /// The record's fixed-size text buffers are all null-terminated.
    spec fn well_formed(&self) -> bool;

    /// `p` is what the record decodes to.
    spec fn decodes_to(&self, p: Self::Decoded) -> bool;

    /// Decodes the record; `None` when a text buffer is not terminated.
    fn decode(&self) -> (r: Option<Self::Decoded>)
        ensures
            r is Some <==> self.well_formed(),
            r is Some ==> self.decodes_to(r->Some_0),
    ;
}

impl RawRecord for RawExtensionProperty {
    type Decoded = XrExtensionProperty;

    open spec fn well_formed(&self) -> bool {
        extension_well_formed(*self)
    }

    open spec fn decodes_to(&self, p: XrExtensionProperty) -> bool {
        extension_decodes(*self, p)
    }

    fn decode(&self) -> (r: Option<XrExtensionProperty>) {
        decode_extension(self)
    }
}

impl RawRecord for RawApiLayerProperties {
    type Decoded = XrApiLayerProperties;

    open spec fn well_formed(&self) -> bool {
        layer_well_formed(*self)
    }

    open spec fn decodes_to(&self, p: XrApiLayerProperties) -> bool {
        layer_decodes(*self, p)
    }

    fn decode(&self) -> (r: Option<XrApiLayerProperties>) {
        decode_layer(self)
    }
}

/// The decoding half of the protocol, for any kind of record: keeps the
/// records the runtime wrote and decodes each of them, in order.
fn decode_written<R: RawRecord>(fill_status: i32, buffer: Vec<R>, written_count: u32) -> (r: Result<
    Vec<R::Decoded>,
    UnsupportedBackend,
>)
    ensures
        r is Ok <==> !failed(fill_status) && forall|i: int|
            0 <= i < written_prefix(buffer@, written_count).len() ==> (#[trigger] written_prefix(
                buffer@,
                written_count,
            )[i]).well_formed(),
        r is Ok ==> {
            let w = written_prefix(buffer@, written_count);
            &&& r->Ok_0@.len() == w.len()
            &&& forall|i: int| 0 <= i < w.len() ==> w[i].decodes_to(#[trigger] r->Ok_0@[i])
        },
{
    let written = retain_written(fill_status, buffer, written_count)?;
    let ghost w = written_prefix(buffer@, written_count);
    let mut out: Vec<R::Decoded> = Vec::new();
    let mut i: usize = 0;
    while i < written.len()
        invariant
            written@ == w,
            w == written_prefix(buffer@, written_count),
            i <= w.len(),
            out@.len() == i,
            forall|k: int| 0 <= k < i ==> (#[trigger] w[k]).well_formed(),
            forall|k: int| 0 <= k < i ==> w[k].decodes_to(#[trigger] out@[k]),
        decreases w.len() - i,
    {
        match written[i].decode() {
            Some(p) => out.push(p),
            None => {
                assert(!written_prefix(buffer@, written_count)[i as int].well_formed());
                return Err(UnsupportedBackend);
            },
        }
        i = i + 1;
    }
    Ok(out)
}

/// Runs the decoding half of the protocol for instance extensions: keeps the
/// records the runtime wrote and decodes each of them, in order.
pub fn decode_extension_properties(
    fill_status: i32,
    buffer: Vec<RawExtensionProperty>,
    written_count: u32,
) -> (r: Result<Vec<XrExtensionProperty>, UnsupportedBackend>)
    ensures
        r is Ok <==> !failed(fill_status) && forall|i: int|
            0 <= i < written_prefix(buffer@, written_count).len() ==> extension_well_formed(
                #[trigger] written_prefix(buffer@, written_count)[i],
            ),
        r is Ok ==> {
            let w = written_prefix(buffer@, written_count);
            &&& r->Ok_0@.len() == w.len()
            &&& forall|i: int| 0 <= i < w.len() ==> extension_decodes(w[i], #[trigger] r->Ok_0@[i])
        },
{
    decode_written(fill_status, buffer, written_count)
}

/// Runs the decoding half of the protocol for API layers: keeps the records
/// the runtime wrote and decodes each of them, in order.
pub fn decode_layers(
    fill_status: i32,
    buffer: Vec<RawApiLayerProperties>,
    written_count: u32,
) -> (r: Result<Vec<XrApiLayerProperties>, UnsupportedBackend>)
    ensures
        r is Ok <==> !failed(fill_status) && forall|i: int|
            0 <= i < written_prefix(buffer@, written_count).len() ==> layer_well_formed(
                #[trigger] written_prefix(buffer@, written_count)[i],
            ),
        r is Ok ==> {
            let w = written_prefix(buffer@, written_count);
            &&& r->Ok_0@.len() == w.len()
            &&& forall|i: int| 0 <= i < w.len() ==> layer_decodes(w[i], #[trigger] r->Ok_0@[i])
        },
{
    decode_written(fill_status, buffer, written_count)
}

/// The blend modes named by native values, in order, leaving out the values
/// that name none.
pub open spec fn known_blend_modes(values: Seq<i32>) -> Seq<XrEnvironmentBlendMode>
    decreases values.len(),
{
    if values.len() == 0 {
        Seq::empty()
    } else {
        let rest = known_blend_modes(values.drop_last());
        match XrEnvironmentBlendMode::from_raw_spec(values.last()) {
            Ok(m) => rest.push(m),
            Err(_) => rest,
        }
    }
}

/// Runs the decoding half of the protocol for environment blend modes: keeps
/// the values the runtime wrote, in the runtime's order of preference, and
/// leaves out values that this library does not know.
pub fn decode_blend_modes(fill_status: i32, buffer: Vec<i32>, written_count: u32) -> (r: Result<
    Vec<XrEnvironmentBlendMode>,
    UnsupportedBackend,
>)
    ensures
        r is Err <==> failed(fill_status),
        r is Ok ==> r->Ok_0@ == known_blend_modes(written_prefix(buffer@, written_count)),
{
    let written = retain_written(fill_status, buffer, written_count)?;
    let mut out: Vec<XrEnvironmentBlendMode> = Vec::new();
    let mut i: usize = 0;
    while i < written.len()
        invariant
            i <= written@.len(),
            out@ == known_blend_modes(written@.take(i as int)),
        decreases written@.len() - i,
    {
        assert(written@.take(i as int + 1).drop_last() =~= written@.take(i as int));
        match XrEnvironmentBlendMode::try_from(written[i]) {
            Ok(m) => out.push(m),
            Err(_) => {},
        }
        i = i + 1;
    }
    assert(written@.take(written@.len() as int) =~= written@);
    Ok(out)
}

} // verus!
