//! Captured frames, the primitive the shader widget draws, and the decisions
//! about the one persistent texture the frame is uploaded into.
use std::collections::hash_map::DefaultHasher;
use std::hash::Hasher;
use std::sync::Arc;
use vstd::prelude::*;
use vstd::bytes::{spec_u64_to_le_bytes, u64_to_le_bytes};
use vstd::std_specs::hash::DefaultHasherAdditionalSpecFns;

verus! {

/// A decoded RGBA8 frame (straight alpha, tightly packed `width * 4` rows).
pub struct FrameData {
    pub width: u32,
    pub height: u32,
    pub data: Vec<u8>,
}

/// The content hash of a frame's pixel bytes: the value a fresh
/// `DefaultHasher` finishes with after hashing the byte slice the way `Hash`
/// does for `[u8]` — its length as a length prefix, then the bytes. The prefix
/// is the length's 8 little-endian bytes, which is what `Hash` writes on
/// 64-bit little-endian targets.
pub open spec fn content_hash_of(data: Seq<u8>) -> u64 {
    DefaultHasher::spec_finish(seq![spec_u64_to_le_bytes(data.len() as u64), data])
}

/// Another handle to the same shared value.
///
/// Trusted: `Arc::clone` makes a new pointer to the same allocation, so the
/// value seen through the result is the value seen through the argument.
#[verifier::external_body]
pub(crate) fn share<T>(a: &Arc<T>) -> (r: Arc<T>)
    ensures
        r == *a,
{
    a.clone()
}

/// Hash the pixel bytes of a frame.
pub fn content_hash(data: &[u8]) -> (h: u64)
    ensures
        h == content_hash_of(data@),
        h == DefaultHasher::spec_finish(seq![spec_u64_to_le_bytes(data@.len() as u64), data@]),
{
    let mut hasher = DefaultHasher::new();
    let prefix = u64_to_le_bytes(data.len() as u64);
    hasher.write(prefix.as_slice());
    hasher.write(data);
    assert(hasher@ =~= seq![spec_u64_to_le_bytes(data@.len() as u64), data@]);
    hasher.finish()
}

/// Handed to the shader widget each `view()`: a frame and its version.
pub struct FrameProgram {
    pub version: u64,
    pub frame: Arc<FrameData>,
}

/// What the shader widget draws: the frame (if one was captured yet) and its
/// version, a content hash, so identical frames don't trigger an upload.
pub struct FramePrimitive {
    version: u64,
    frame: Option<Arc<FrameData>>,
}

impl FramePrimitive {
    /// The version (content hash) of the frame.
    pub closed spec fn spec_version(&self) -> u64 {
        self.version
    }

    /// The frame to draw, if any.
    pub closed spec fn spec_frame(&self) -> Option<Arc<FrameData>> {
        self.frame
    }

    pub fn new(version: u64, frame: Option<Arc<FrameData>>) -> (p: Self)
        ensures
            p.spec_version() == version,
            p.spec_frame() == frame,
    {
        FramePrimitive { version, frame }
    }

    pub fn version(&self) -> (v: u64)
        ensures
            v == self.spec_version(),
    {
        self.version
    }

    pub fn frame(&self) -> (f: &Option<Arc<FrameData>>)
        ensures
            *f == self.spec_frame(),
    {
        &self.frame
    }

    /// Decide what preparing this primitive does to the persistent texture:
    /// nothing without a frame, otherwise as `prepare_target` says.
    pub fn plan(&self, target: &mut Option<Target>) -> (plan: PreparePlan)
        ensures
            match self.spec_frame() {
                None => plan == (PreparePlan { recreate: false, upload: false })
                    && *final(target) == *old(target),
                Some(f) => (*final(target), plan) == prepared(
                    *old(target),
                    f.width,
                    f.height,
                    self.spec_version(),
                ),
            },
    {
        match &self.frame {
            None => PreparePlan { recreate: false, upload: false },
            Some(f) => prepare_target(target, f.width, f.height, self.version),
        }
    }
}

impl FrameProgram {
    /// The primitive to draw this frame.
    pub fn draw(&self) -> (p: FramePrimitive)
        ensures
            p.spec_version() == self.version,
            p.spec_frame() == Some(self.frame),
    {
        FramePrimitive::new(self.version, Some(share(&self.frame)))
    }
}

/// The plain state of the persistent texture: its size and the version of the
/// frame last written into it.
#[derive(Clone, Copy, Debug, PartialEq, Eq, Structural)]
pub struct Target {
    pub width: u32,
    pub height: u32,
    pub version: u64,
}

/// What one `prepare` has to do on the GPU.
#[derive(Clone, Copy, Debug, PartialEq, Eq, Structural)]
pub struct PreparePlan {
    /// Create a new texture (with bind group and uniform) of the frame's size.
    pub recreate: bool,
    /// Write the frame's pixels into the texture.
    pub upload: bool,
}

/// The texture state after preparing a `width` x `height` frame of version
/// `version`, and the plan that gets there: a texture is (re)created when
/// there is none or its size differs; the frame is written into a new texture
/// always, and into a kept one when its version differs from the texture's.
pub open spec fn prepared(target: Option<Target>, width: u32, height: u32, version: u64) -> (
    Option<Target>,
    PreparePlan,
) {
    let recreate = match target {
        Some(t) => t.width != width || t.height != height,
        None => true,
    };
    let upload = recreate || target.unwrap().version != version;
    (
        Some(Target { width, height, version }),
        PreparePlan { recreate, upload },
    )
}

/// The content hash covers every byte: it is what a fresh `DefaultHasher`
/// finishes with after the length prefix (8 little-endian bytes) and then all
/// of the pixel bytes were written into it.
pub proof fn lemma_content_hash_covers_all_bytes(data: Seq<u8>)
    ensures
        content_hash_of(data) == DefaultHasher::spec_finish(
            seq![spec_u64_to_le_bytes(data.len() as u64), data],
        ),
{
}

/// After preparing, the texture has the frame's size and is marked with the
/// frame's version; a texture is recreated exactly when there was none or the
/// size changed.
pub proof fn lemma_prepare_tracks_frame(target: Option<Target>, width: u32, height: u32, version: u64)
    ensures
        prepared(target, width, height, version).0 == Some(
            Target { width, height, version },
        ),
        prepared(target, width, height, version).1.recreate <==> (target is None || target->0.width
            != width || target->0.height != height),
        !prepared(target, width, height, version).1.recreate ==> (prepared(
            target,
            width,
            height,
            version,
        ).1.upload <==> target->0.version != version),
{
}

/// A freshly created texture is always filled with the frame.
pub proof fn lemma_fresh_texture_is_filled(target: Option<Target>, width: u32, height: u32, version: u64)
    ensures
        prepared(target, width, height, version).1.recreate ==> prepared(
            target,
            width,
            height,
            version,
        ).1.upload,
{
}

/// Uploading only on change: preparing a frame whose pixels are identical to
/// the last prepared one (same size, same bytes, hence same content hash)
/// neither recreates the texture nor uploads again.
pub proof fn lemma_identical_frame_not_uploaded(
    target: Option<Target>,
    width: u32,
    height: u32,
    first: Seq<u8>,
    second: Seq<u8>,
)
    requires
        first == second,
    ensures
        prepared(
            prepared(target, width, height, content_hash_of(first)).0,
            width,
            height,
            content_hash_of(second),
        ).1 == (PreparePlan { recreate: false, upload: false }),
{
}

/// Decide how the persistent texture follows a frame, and record the result.
pub fn prepare_target(target: &mut Option<Target>, width: u32, height: u32, version: u64) -> (plan:
    PreparePlan)
    ensures
        (*final(target), plan) == prepared(*old(target), width, height, version),
{
    let needs_texture = match target {
        Some(t) => t.width != width || t.height != height,
        None => true,
    };
    let upload = needs_texture || target.unwrap().version != version;
    *target = Some(Target { width, height, version });
    PreparePlan { recreate: needs_texture, upload }
}

} // verus!
