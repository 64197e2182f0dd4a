//! Pixel-converter management: when the native conversion context must be
//! rebuilt, and how the reusable destination buffer grows.
//!
//! The conversion itself — remapping a decoded frame's native pixel layout
//! into packed RGBA — is the native scaler's work and happens outside this
//! crate. What is decided and verified here is the context's lifecycle
//! (one context per exact (width, height, source format) triple, destroyed
//! and rebuilt whenever the triple changes, and only then) and the
//! destination buffer's size contract (always at least `width * height * 4`
//! bytes before a conversion, grown but never shrunk).

use vstd::prelude::*;

verus! {

/// The triple a conversion context is built for: source dimensions and the
/// native pixel-format identifier of the decoded frames.
#[derive(Clone, Copy, Debug, PartialEq, Eq, Structural)]
pub struct FrameGeometry {
    pub width: i32,
    pub height: i32,
    pub pixel_format: i32,
}

/// What the embedding program must do with the native context before the
/// next conversion.
#[derive(Clone, Copy, Debug, PartialEq, Eq, Structural)]
pub enum ContextAction {
    /// The cached context already matches the frame: convert with it.
    Reuse,
    /// Destroy the cached context, if any, and build one for the new
    /// geometry before converting.
    Recreate,
}

/// The context must be rebuilt exactly when no context is cached or the
/// cached one was built for a different geometry.
pub open spec fn needs_recreate(current: Option<FrameGeometry>, g: FrameGeometry) -> bool {
    current != Some(g)
}

/// Tracks which geometry the native conversion context, if any, was built
/// for.
pub struct PixelConverter {
    pub current: Option<FrameGeometry>,
}

impl PixelConverter {
    /// A converter with no context built yet.
    pub fn new() -> (r: Self)
        ensures
            r.current is None,
    {
        PixelConverter { current: None }
    }

    /// Decides, for the next frame's geometry, whether the cached context
    /// can be reused or must be rebuilt, and records the geometry the
    /// context will have been built for once the caller has acted.
    pub fn prepare(&mut self, g: FrameGeometry) -> (r: ContextAction)
        ensures
            final(self).current == Some(g),
            r is Recreate <==> needs_recreate(old(self).current, g),
            r is Reuse <==> old(self).current == Some(g),
    {
        let action = match &self.current {
            Some(c) => if c.width == g.width && c.height == g.height && c.pixel_format
                == g.pixel_format {
                ContextAction::Reuse
            } else {
                ContextAction::Recreate
            },
            None => ContextAction::Recreate,
        };
        self.current = Some(g);
        action
    }
}

/// Preparing a geometry is idempotent in its effect on the context: once a
/// context for `g` is cached — as it is after any `prepare(g)` — a second
/// `prepare(g)` never asks for a rebuild.
pub proof fn lemma_prepare_idempotent(g: FrameGeometry)
    ensures
        !needs_recreate(Some(g), g),
{
}

/// Bytes a packed RGBA destination needs: four per pixel, rows tightly
/// packed.
pub open spec fn required_bytes(width: int, height: int) -> int {
    width * height * 4
}

/// The reusable destination buffer the converted frame is written into.
/// It grows to fit the largest frame seen and never shrinks.
pub struct ConvertedBuffer {
    pub data: Vec<u8>,
}

impl ConvertedBuffer {
    /// An empty buffer; it grows before the first conversion.
    pub fn new() -> (r: Self)
        ensures
            r.data@.len() == 0,
    {
        ConvertedBuffer { data: Vec::new() }
    }

    /// Grows the buffer, zero-filling, until it holds a packed RGBA frame
    /// of the given dimensions; never shrinks it, and keeps every byte
    /// already stored.
    pub fn ensure_capacity(&mut self, width: i32, height: i32)
        requires
            width > 0,
            height > 0,
            required_bytes(width as int, height as int) <= usize::MAX,
        ensures
            final(self).data@.len() >= required_bytes(width as int, height as int),
            final(self).data@.len() >= old(self).data@.len(),
            final(self).data@.len() == vstd::math::max(
                old(self).data@.len() as int,
                required_bytes(width as int, height as int),
            ),
            old(self).data@.is_prefix_of(final(self).data@),
    {
        proof {
            assert((width as int) * (height as int) * 4 >= 1 && (width as int) * (height as int)
                <= (width as int) * (height as int) * 4) by (nonlinear_arith)
                requires
                    width as int >= 1,
                    height as int >= 1,
            {}
        }
        let needed: usize = (width as usize) * (height as usize) * 4;
        let ghost orig = self.data@;
        while self.data.len() < needed
            invariant
                orig.is_prefix_of(self.data@),
                self.data@.len() <= vstd::math::max(orig.len() as int, needed as int),
            decreases needed - self.data@.len(),
        {
            self.data.push(0u8);
        }
    }
}

} // verus!
