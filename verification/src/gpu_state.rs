//! Small pieces of GPU bookkeeping: the mip chain of a texture, when the
//! multisample target must be rebuilt, and asynchronous buffer mapping.

use vstd::prelude::*;
use vstd::string::StringExecFns;
use std::collections::HashMap;
use crate::gfx_map::TextureFormat;

verus! {

broadcast use vstd::std_specs::hash::group_hash_axioms;

/// One halving step of a mip chain, never below one texel.
pub open spec fn halve(x: u32) -> u32 {
    if x / 2 == 0 { 1 } else { (x / 2) as u32 }
}

/// How many levels below the base a full mip chain has: halve until both
/// sides are one texel.
pub open spec fn mip_steps(w: u32, h: u32) -> nat
    decreases (if w > h { w } else { h }),
{
    if w <= 1 && h <= 1 {
        0
    } else {
        1 + mip_steps(halve(w), halve(h))
    }
}

/// The size of every generated level, in order from level 1: each level
/// is rendered from the one before it.
pub open spec fn mip_sizes(w: u32, h: u32) -> Seq<(u32, u32)>
    decreases (if w > h { w } else { h }),
{
    if w <= 1 && h <= 1 {
        seq![]
    } else {
        seq![(halve(w), halve(h))] + mip_sizes(halve(w), halve(h))
    }
}

/// The sizes of the levels generated below a base level of `width` x `height`.
pub fn mip_chain(width: u32, height: u32) -> (r: Vec<(u32, u32)>)
    ensures
        r@ == mip_sizes(width, height),
{
    let mut out: Vec<(u32, u32)> = Vec::new();
    let mut w = width;
    let mut h = height;
    assert(out@ + mip_sizes(w, h) =~= mip_sizes(width, height));
    while w > 1 || h > 1
        invariant
            out@ + mip_sizes(w, h) == mip_sizes(width, height),
        decreases (if w > h { w } else { h }),
    {
        let nw: u32 = if w / 2 == 0 { 1 } else { w / 2 };
        let nh: u32 = if h / 2 == 0 { 1 } else { h / 2 };
        let ghost prev = out@;
        out.push((nw, nh));
        assert(prev + mip_sizes(w, h) =~= out@ + mip_sizes(nw, nh));
        w = nw;
        h = nh;
    }
    assert(out@ + mip_sizes(w, h) =~= out@);
    out
}

/// A mip chain has one generated level per halving.
pub proof fn lemma_mip_chain_length(w: u32, h: u32)
    ensures
        mip_sizes(w, h).len() == mip_steps(w, h),
    decreases (if w > h { w } else { h }),
{
    if !(w <= 1 && h <= 1) {
        lemma_mip_chain_length(halve(w), halve(h));
    }
}

/// The multisample target is rebuilt when there is none or its size differs.
pub fn msaa_needs_rebuild(current: Option<(u32, u32)>, width: u32, height: u32) -> (r: bool)
    ensures
        r == (match current {
            Some(s) => s.0 != width || s.1 != height,
            None => true,
        }),
{
    match current {
        Some((w, h)) => w != width || h != height,
        None => true,
    }
}

/// How a buffer is mapped.
#[derive(Clone, Copy, Debug, PartialEq, Eq, Structural)]
pub enum MapMode {
    Read,
    Write,
}

/// Mode 1 reads; every other mode writes.
pub fn map_mode(mode: u32) -> (r: MapMode)
    ensures
        r == (if mode == 1 { MapMode::Read } else { MapMode::Write }),
{
    if mode == 1 { MapMode::Read } else { MapMode::Write }
}

/// The byte range a map covers.
pub fn map_range(offset: u64, size: u64) -> (r: (u64, u64))
    requires
        offset + size <= u64::MAX,
    ensures
        r == (offset, (offset + size) as u64),
{
    (offset, offset + size)
}

/// A requested map: whether the GPU has answered, and whether it succeeded.
#[derive(Clone, Copy, Debug, PartialEq, Eq, Structural)]
pub struct PendingMap {
    pub ready: bool,
    pub outcome: Option<bool>,
}

/// Pending buffer maps by buffer id.
pub struct PendingMaps {
    maps: HashMap<u32, PendingMap>,
}

/// Polling a map: failed maps are errors, finished ones true, others false.
#[derive(Clone, Copy, Debug, PartialEq, Eq, Structural)]
pub enum MapError {
    MapFailed,
}

impl MapError {
    /// The text a failed map is reported with.
    pub fn message(&self) -> (r: String)
        ensures
            r@ == "Buffer map failed"@,
    {
        String::from_str("Buffer map failed")
    }
}

pub open spec fn poll_spec(m: Map<u32, PendingMap>, rid: u32) -> Result<bool, MapError> {
    if m.contains_key(rid) && m[rid].ready {
        if m[rid].outcome == Some(false) { Err(MapError::MapFailed) } else { Ok(true) }
    } else {
        Ok(false)
    }
}

impl PendingMaps {
    pub closed spec fn maps(&self) -> Map<u32, PendingMap> {
        self.maps@
    }

    /// No pending maps.
    pub fn new() -> (s: Self)
        ensures
            s.maps() == Map::<u32, PendingMap>::empty(),
    {
        PendingMaps { maps: HashMap::new() }
    }

    /// Records a new map request for a buffer, replacing any earlier one.
    pub fn start(&mut self, rid: u32)
        ensures
            final(self).maps() == old(self).maps().insert(rid, PendingMap { ready: false, outcome: None }),
    {
        self.maps.insert(rid, PendingMap { ready: false, outcome: None });
    }

    /// The GPU answers a map request: the outcome is stored, then the map is ready.
    pub fn complete(&mut self, rid: u32, ok: bool)
        ensures
            old(self).maps().contains_key(rid) ==>
                final(self).maps() == old(self).maps().insert(rid, PendingMap { ready: true, outcome: Some(ok) }),
            !old(self).maps().contains_key(rid) ==> final(self).maps() == old(self).maps(),
    {
        if self.maps.contains_key(&rid) {
            self.maps.insert(rid, PendingMap { ready: true, outcome: Some(ok) });
        }
    }

    /// Whether a buffer's map has finished: an error if it failed.
    pub fn poll(&self, rid: u32) -> (r: Result<bool, MapError>)
        ensures
            r == poll_spec(self.maps(), rid),
    {
        match self.maps.get(&rid) {
            Some(p) => {
                if p.ready {
                    match p.outcome {
                        Some(false) => Err(MapError::MapFailed),
                        _ => Ok(true),
                    }
                } else {
                    Ok(false)
                }
            },
            None => Ok(false),
        }
    }

    /// Whether waiting for a map must block on the GPU: only for a known
    /// map that has not finished.
    pub fn must_block(&self, rid: u32) -> (r: bool)
        ensures
            r == (self.maps().contains_key(rid) && !self.maps()[rid].ready),
    {
        match self.maps.get(&rid) {
            Some(p) => !p.ready,
            None => false,
        }
    }

    /// The result of waiting, once the GPU has been drained: an error only
    /// for a known map whose answer was a failure.
    pub fn wait_result(&self, rid: u32) -> (r: Result<(), MapError>)
        ensures
            r is Err <==> (self.maps().contains_key(rid) && self.maps()[rid].outcome == Some(false)),
            r is Err ==> r == Err::<(), MapError>(MapError::MapFailed),
    {
        match self.maps.get(&rid) {
            Some(p) => match p.outcome {
                Some(false) => Err(MapError::MapFailed),
                _ => Ok(()),
            },
            None => Ok(()),
        }
    }

    /// Forgets a buffer's map once the script has read it.
    pub fn finish(&mut self, rid: u32)
        ensures
            final(self).maps() == old(self).maps().remove(rid),
    {
        let _ = self.maps.remove(&rid);
    }
}

/// A started map polls as pending until the GPU answers; afterwards it
/// polls as finished, or as an error when the map failed.
pub proof fn lemma_map_lifecycle(m: Map<u32, PendingMap>, rid: u32, ok: bool)
    ensures
        poll_spec(m.insert(rid, PendingMap { ready: false, outcome: None }), rid) == Ok::<bool, MapError>(false),
        poll_spec(m.insert(rid, PendingMap { ready: true, outcome: Some(ok) }), rid)
            == (if ok { Ok::<bool, MapError>(true) } else { Err::<bool, MapError>(MapError::MapFailed) }),
        poll_spec(m.remove(rid), rid) == Ok::<bool, MapError>(false),
{
}

/// Optional GPU features the host asks for.
#[derive(Clone, Copy, Debug, PartialEq, Eq, Structural)]
pub struct DeviceFeatures {
    pub timestamp_query: bool,
    pub timestamp_query_inside_encoders: bool,
    pub texture_compression_bc: bool,
    pub texture_compression_astc: bool,
}

/// The features requested from a device: each of the four the adapter offers.
pub fn choose_features(adapter: DeviceFeatures) -> (r: DeviceFeatures)
    ensures
        r == adapter,
{
    DeviceFeatures {
        timestamp_query: adapter.timestamp_query,
        timestamp_query_inside_encoders: adapter.timestamp_query_inside_encoders,
        texture_compression_bc: adapter.texture_compression_bc,
        texture_compression_astc: adapter.texture_compression_astc,
    }
}

/// The surface format: BGRA8 when the surface supports it, else its first format.
pub fn choose_surface_format(formats: &Vec<TextureFormat>) -> (r: TextureFormat)
    requires
        formats@.len() > 0,
    ensures
        formats@.contains(TextureFormat::Bgra8Unorm) ==> r == TextureFormat::Bgra8Unorm,
        !formats@.contains(TextureFormat::Bgra8Unorm) ==> r == formats@[0],
{
    let mut i: usize = 0;
    while i < formats.len()
        invariant
            i <= formats.len(),
            forall|k: int| 0 <= k < i ==> formats@[k] != TextureFormat::Bgra8Unorm,
        decreases formats.len() - i,
    {
        if formats[i] == TextureFormat::Bgra8Unorm {
            return TextureFormat::Bgra8Unorm;
        }
        i = i + 1;
    }
    formats[0]
}

/// A surface is never configured smaller than one texel on a side.
pub fn surface_extent(width: u32, height: u32) -> (r: (u32, u32))
    ensures
        r.0 == (if width == 0 { 1 } else { width }),
        r.1 == (if height == 0 { 1 } else { height }),
{
    (if width == 0 { 1 } else { width }, if height == 0 { 1 } else { height })
}

/// Command buffers recorded by ops and not yet submitted, oldest first.
pub struct CommandQueue<T> {
    pending: Vec<T>,
}

impl<T> CommandQueue<T> {
    pub closed spec fn pending(&self) -> Seq<T> {
        self.pending@
    }

    /// Nothing pending.
    pub fn new() -> (q: Self)
        ensures
            q.pending() == Seq::<T>::empty(),
    {
        CommandQueue { pending: Vec::new() }
    }

    /// Defers a recorded command buffer to the next flush.
    pub fn queue_command_buffer(&mut self, cmd: T)
        ensures
            final(self).pending() == old(self).pending().push(cmd),
    {
        self.pending.push(cmd);
    }

    /// Takes everything pending, in recording order, to be submitted
    /// together; nothing is submitted when nothing is pending.
    pub fn flush_pending_commands(&mut self) -> (r: Option<Vec<T>>)
        ensures
            final(self).pending().len() == 0,
            old(self).pending().len() == 0 ==> r is None,
            old(self).pending().len() > 0 ==> (r matches Some(v) && v@ == old(self).pending()),
    {
        if self.pending.len() == 0 {
            None
        } else {
            let mut taken: Vec<T> = Vec::new();
            std::mem::swap(&mut taken, &mut self.pending);
            Some(taken)
        }
    }

    /// Takes everything pending, in recording order, followed by a last
    /// command buffer, to be submitted together; nothing stays pending.
    pub fn take_with(&mut self, last: T) -> (r: Vec<T>)
        ensures
            r@ == old(self).pending().push(last),
            final(self).pending().len() == 0,
    {
        let mut taken: Vec<T> = Vec::new();
        std::mem::swap(&mut taken, &mut self.pending);
        taken.push(last);
        taken
    }
}

/// The graphics context has not been set up yet.
#[derive(Clone, Copy, Debug, PartialEq, Eq, Structural)]
pub enum GfxContextError {
    NotInitialized,
}

impl GfxContextError {
    /// The text a missing graphics context is reported with.
    pub fn message(&self) -> (r: String)
        ensures
            r@ == "Graphics context not initialized"@,
    {
        String::from_str("Graphics context not initialized")
    }
}

/// Flushes the pending command buffers, which needs a graphics context.
pub fn flush_pending_command_buffers<T>(initialized: bool, q: &mut CommandQueue<T>)
    -> (r: Result<Option<Vec<T>>, GfxContextError>)
    ensures
        !initialized ==> r == Err::<Option<Vec<T>>, GfxContextError>(GfxContextError::NotInitialized)
            && final(q).pending() == old(q).pending(),
        initialized ==> final(q).pending().len() == 0 && (match r {
            Ok(Some(v)) => old(q).pending().len() > 0 && v@ == old(q).pending(),
            Ok(None) => old(q).pending().len() == 0,
            Err(_) => false,
        }),
{
    if !initialized {
        return Err(GfxContextError::NotInitialized);
    }
    Ok(q.flush_pending_commands())
}

} // verus!
