//! Offscreen surfaces that can be drawn to and drawn from.
//!
//! The surface itself belongs to the renderer of the host program. The engine
//! knows it by a number and remembers its size and format.

use vstd::prelude::*;
use vstd::slice::slice_to_vec;
use crate::color::{Color, Scalar};
use crate::draw::{Draw, DrawCommand, DrawOp, Flipped};
use crate::error::{PixError, PixResult};
use crate::image::{Image, PixelFormat};
use crate::shape::rect::{Pos, Rect};
use crate::state::settings::DrawMode;
use crate::state::PixState;

verus! {

/// The number by which the renderer knows a texture.
pub type TextureId = usize;

/// A texture of the renderer.
#[derive(Clone, Copy, Debug, PartialEq, Eq, Structural, Hash)]
pub struct Texture {
    /// The number by which the renderer knows the texture.
    pub inner: TextureId,
    /// Width in pixels.
    pub width: u32,
    /// Height in pixels.
    pub height: u32,
    /// Format of the pixels, if the renderer was told one.
    pub format: Option<PixelFormat>,
}

impl Texture {
    /// The record of the texture that the renderer knows as `inner`.
    pub fn new(inner: TextureId, width: u32, height: u32, format: Option<PixelFormat>) -> (t: Self)
        ensures
            t == (Texture { inner, width, height, format }),
    {
        Texture { inner, width, height, format }
    }

    /// Width in pixels.
    pub fn width(&self) -> (w: u32)
        ensures
            w == self.width,
    {
        self.width
    }

    /// Height in pixels.
    pub fn height(&self) -> (h: u32)
        ensures
            h == self.height,
    {
        self.height
    }

    /// Width and height in pixels.
    pub fn dimensions(&self) -> (d: (u32, u32))
        ensures
            d == (self.width, self.height),
    {
        (self.width, self.height)
    }

    /// The pixel in the middle of the texture. A side too long for an `i32`
    /// counts as the longest that fits.
    pub open spec fn spec_center(self) -> Pos {
        Pos { x: (side(self.width) / 2) as i32, y: (side(self.height) / 2) as i32 }
    }

    /// The pixel in the middle of the texture.
    pub fn center(&self) -> (p: Pos)
        ensures
            p == self.spec_center(),
    {
        Pos { x: to_side(self.width) / 2, y: to_side(self.height) / 2 }
    }

    /// Format of the pixels, if the renderer was told one.
    pub fn format(&self) -> (f: Option<PixelFormat>)
        ensures
            f == self.format,
    {
        self.format
    }

    /// The number by which the renderer knows the texture.
    pub fn inner(&self) -> (id: TextureId)
        ensures
            id == self.inner,
    {
        self.inner
    }

    /// The place where the renderer's number of the texture is kept.
    pub fn inner_mut(&mut self) -> (id: &mut TextureId)
        ensures
            *id == old(self).inner,
            *final(self) == (Texture { inner: *final(id), ..*old(self) }),
    {
        &mut self.inner
    }
}

/// The length `v` as a signed coordinate: `v` itself, or the largest `i32` if
/// `v` is larger than that.
pub open spec fn side(v: u32) -> i32 {
    if v > i32::MAX {
        i32::MAX
    } else {
        v as i32
    }
}

/// The length `v` as a signed coordinate.
pub fn to_side(v: u32) -> (s: i32)
    ensures
        s == side(v),
        s >= 0,
{
    if v > i32::MAX as u32 {
        i32::MAX
    } else {
        v as i32
    }
}

/// The number of bytes of one row of pixels; the largest `usize` if it cannot
/// hold their number.
pub open spec fn pitch_of(width: u32, format: PixelFormat) -> usize {
    if format.spec_channels() * width > usize::MAX {
        usize::MAX
    } else {
        (format.spec_channels() * width) as usize
    }
}

/// The number of bytes of one row of pixels.
pub fn row_bytes(width: u32, format: PixelFormat) -> (pitch: usize)
    ensures
        pitch == pitch_of(width, format),
{
    let c = format.channels() as u64;
    assert(c * width as u64 <= 4 * 0xffff_ffff) by (nonlinear_arith)
        requires
            c <= 4,
            width <= 0xffff_ffff,
    ;
    let bytes = c * width as u64;
    if bytes > usize::MAX as u64 {
        usize::MAX
    } else {
        bytes as usize
    }
}

/// The commands after the texture of an image was brought up to date behind
/// `ops`. An image without a texture gets one, under the number `next`, with a
/// copy of its pixels. One whose pixels have changed since its texture was
/// made has them copied again. One that is up to date needs nothing.
pub open spec fn image_synced(ops: Seq<DrawOp>, img: &Image, next: TextureId) -> Seq<DrawOp> {
    let copy = |id: TextureId|
        DrawOp::UpdateTexture {
            id,
            part: None,
            pixels: img.data@,
            pitch: pitch_of(img.width, img.format),
        };
    match img.texture_cache {
        None => ops.push(
            DrawOp::CreateTexture {
                id: next,
                width: img.width,
                height: img.height,
                format: Some(img.format),
            },
        ).push(copy(next)),
        Some((id, true)) => ops.push(copy(id)),
        Some((_, false)) => ops,
    }
}

/// The number of the texture that holds the pixels of an image once it is
/// brought up to date.
pub open spec fn image_texture(img: &Image, next: TextureId) -> TextureId {
    match img.texture_cache {
        None => next,
        Some((id, _)) => id,
    }
}

impl PixState {
    /// Whether `after` is `before` with its settings put aside and `texture`
    /// as what is drawn to.
    pub open spec fn target_entered(before: &PixState, texture: &Texture, after: &PixState) -> bool {
        &&& after.ops() == before.ops().push(DrawOp::Target(Some(texture.inner)))
        &&& after.target == Some(texture.inner)
        &&& after.saved@ == before.saved@.push(before.settings)
        &&& after.settings == before.settings
        &&& after.ui == before.ui
        &&& after.same_surroundings_but_target(before)
    }

    /// Whether `after` is `before` with `outer` as what is drawn to again, and
    /// with the settings that were put aside last, if any were.
    pub open spec fn target_left(before: &PixState, outer: Option<TextureId>, after: &PixState) -> bool {
        &&& after.ops() == before.ops().push(DrawOp::Target(outer))
        &&& after.target == outer
        &&& before.saved@.len() > 0 ==> {
            &&& after.settings == before.saved@.last()
            &&& after.saved@ == before.saved@.drop_last()
        }
        &&& before.saved@.len() == 0 ==> {
            &&& after.settings == before.settings
            &&& after.saved@ == before.saved@
        }
        &&& after.ui == before.ui
        &&& after.same_surroundings_but_target(before)
    }

    /// Whether `self` and `other` agree in the title, the theme, the keys, the
    /// offscreen targets, the number of the next texture, and the state of
    /// window and loop.
    pub open spec fn same_surroundings_but_target(&self, other: &PixState) -> bool {
        &&& self.title == other.title
        &&& self.theme == other.theme
        &&& self.keys == other.keys
        &&& self.targets == other.targets
        &&& self.next_texture == other.next_texture
        &&& self.fullscreen == other.fullscreen
        &&& self.frame_rate == other.frame_rate
        &&& self.update_count == other.update_count
    }

    /// Draws `texture`, or the part `src` of it, into `dst`; all of it if there
    /// is no `src`, over the whole target if there is no `dst`.
    pub fn texture(&mut self, texture: &Texture, src: Option<Rect>, dst: Option<Rect>)
        ensures
            final(self).ops() == old(self).ops().push(
                DrawOp::Texture {
                    id: texture.inner,
                    src,
                    dst,
                    angle: 0,
                    center: None,
                    flipped: None,
                    tint: None,
                },
            ),
            final(self).ui == old(self).ui,
            final(self).same_setup(old(self)),
    {
        self.emit(
            DrawCommand::Texture {
                id: texture.inner,
                src,
                dst,
                angle: 0,
                center: None,
                flipped: None,
                tint: None,
            },
        );
    }

    /// Makes a texture of the given size. Fails with
    /// [`PixError::TextureLimit`], and changes nothing, exactly if no number is
    /// left for it.
    pub fn create_texture(&mut self, width: u32, height: u32, format: Option<PixelFormat>) -> (r:
        PixResult<Texture>)
        ensures
            old(self).next_texture == usize::MAX ==> {
                &&& r matches Err(PixError::TextureLimit)
                &&& final(self).ops() == old(self).ops()
                &&& final(self).next_texture == old(self).next_texture
            },
            old(self).next_texture < usize::MAX ==> {
                &&& r matches Ok(t)
                &&& t == (Texture { inner: old(self).next_texture, width, height, format })
                &&& final(self).next_texture == old(self).next_texture + 1
                &&& final(self).ops() == old(self).ops().push(
                    DrawOp::CreateTexture { id: t.inner, width, height, format },
                )
            },
            final(self).ui == old(self).ui,
            final(self).title == old(self).title,
            final(self).settings == old(self).settings,
            final(self).saved == old(self).saved,
            final(self).theme == old(self).theme,
            final(self).keys == old(self).keys,
            final(self).targets == old(self).targets,
            final(self).target == old(self).target,
            final(self).fullscreen == old(self).fullscreen,
            final(self).frame_rate == old(self).frame_rate,
            final(self).update_count == old(self).update_count,
    {
        if self.next_texture == usize::MAX {
            return Err(PixError::TextureLimit);
        }
        let texture = Texture { inner: self.next_texture, width, height, format };
        self.next_texture = self.next_texture + 1;
        self.emit(DrawCommand::CreateTexture { id: texture.inner, width, height, format });
        Ok(texture)
    }

    /// Copies `pixels`, rows of `pitch` bytes each, into `texture`, or into the
    /// part `rect` of it.
    pub fn update_texture(&mut self, texture: &Texture, rect: Option<Rect>, pixels: &[u8], pitch: usize)
        ensures
            final(self).ops() == old(self).ops().push(
                DrawOp::UpdateTexture { id: texture.inner, part: rect, pixels: pixels@, pitch },
            ),
            final(self).ui == old(self).ui,
            final(self).same_setup(old(self)),
    {
        self.emit(
            DrawCommand::UpdateTexture {
                id: texture.inner,
                part: rect,
                pixels: slice_to_vec(pixels),
                pitch,
            },
        );
    }

    /// Lets `content` draw to `texture`. The settings are put aside before and
    /// taken back after, and what was drawn to before is drawn to again,
    /// whether `content` fails or not; what it returns is handed on.
    pub fn with_texture<D: Draw>(&mut self, texture: &Texture, content: &D) -> (r: PixResult<()>)
        ensures
            exists|entered: PixState, drawn: PixState|
                #![trigger
                    PixState::target_entered(old(self), texture, &entered),
                    PixState::target_left(&drawn, old(self).target, final(self)),
                ]
                {
                    &&& PixState::target_entered(old(self), texture, &entered)
                    &&& content.drawn(&entered, &drawn, r)
                    &&& PixState::target_left(&drawn, old(self).target, final(self))
                },
    {
        let outer = self.target;
        self.push();
        self.emit(DrawCommand::Target(Some(texture.inner)));
        self.target = Some(texture.inner);
        let ghost entered = *self;
        let result = content.draw(self);
        let ghost drawn = *self;
        self.emit(DrawCommand::Target(outer));
        self.target = outer;
        self.pop();
        proof {
            assert(PixState::target_entered(old(self), texture, &entered));
            assert(PixState::target_left(&drawn, old(self).target, self));
            assert(content.drawn(&entered, &drawn, result));
        }
        result
    }

    /// Draws `img` with its top-left corner at `position`; with its middle
    /// there if images are placed by their center.
    ///
    /// A texture with the pixels of the image is made or brought up to date
    /// first, as the image requires. Fails with [`PixError::TextureLimit`],
    /// and changes nothing, exactly if the image needs a texture and no number
    /// is left for one.
    pub fn image(&mut self, position: Pos, img: &mut Image) -> (r: PixResult<()>)
        ensures
            PixState::image_shown(
                old(self),
                old(img),
                PixState::image_rect(old(self).settings.image_mode, position, old(img)),
                0,
                None,
                None,
                final(self),
                final(img),
                r,
            ),
    {
        let pos = match self.settings.image_mode {
            DrawMode::Center => {
                let mid = img.center();
                position.offset(-mid.x, -mid.y)
            },
            DrawMode::Corner => position,
        };
        let rect = Rect { x: pos.x, y: pos.y, w: to_side(img.width), h: to_side(img.height) };
        self.image_transformed(rect, img, 0, None, None)
    }

    /// The rectangle that an image takes when it is drawn at `position`.
    pub open spec fn image_rect(mode: DrawMode, position: Pos, img: &Image) -> Rect {
        let mid = Pos { x: (side(img.width) / 2) as i32, y: (side(img.height) / 2) as i32 };
        let pos = if mode == DrawMode::Center {
            position.moved(-mid.x, -mid.y)
        } else {
            position
        };
        Rect { x: pos.x, y: pos.y, w: side(img.width), h: side(img.height) }
    }

    /// Whether `after`, `shown` and `r` are what drawing `img` into `rect`
    /// gives.
    pub open spec fn image_shown(
        before: &PixState,
        img: &Image,
        rect: Rect,
        angle: Scalar,
        center: Option<Pos>,
        flipped: Option<Flipped>,
        after: &PixState,
        shown: &Image,
        r: PixResult<()>,
    ) -> bool {
        let full = img.texture_cache is None && before.next_texture == usize::MAX;
        &&& after.ui == before.ui
        &&& after.title == before.title
        &&& after.settings == before.settings
        &&& after.saved == before.saved
        &&& after.theme == before.theme
        &&& after.keys == before.keys
        &&& after.targets == before.targets
        &&& after.target == before.target
        &&& after.fullscreen == before.fullscreen
        &&& after.frame_rate == before.frame_rate
        &&& after.update_count == before.update_count
        &&& shown.width == img.width
        &&& shown.height == img.height
        &&& shown.format == img.format
        &&& shown.data == img.data
        &&& full ==> {
            &&& r matches Err(PixError::TextureLimit)
            &&& after.ops() == before.ops()
            &&& after.next_texture == before.next_texture
            &&& shown.texture_cache == img.texture_cache
        }
        &&& !full ==> {
            &&& r is Ok
            &&& after.next_texture == if img.texture_cache is None {
                before.next_texture + 1
            } else {
                before.next_texture as int
            }
            &&& shown.texture_cache == Some((image_texture(img, before.next_texture), false))
            &&& after.ops() == image_synced(before.ops(), img, before.next_texture).push(
                DrawOp::Texture {
                    id: image_texture(img, before.next_texture),
                    src: None,
                    dst: Some(rect),
                    angle,
                    center,
                    flipped,
                    tint: before.settings.image_tint,
                },
            )
        }
    }

    /// Draws `img` into `rect`, turned by `angle` degrees about `center`, or
    /// about its middle if there is none, and mirrored as `flipped` says.
    ///
    /// A texture with the pixels of the image is made or brought up to date
    /// first, as the image requires. Fails with [`PixError::TextureLimit`],
    /// and changes nothing, exactly if the image needs a texture and no number
    /// is left for one.
    pub fn image_transformed(
        &mut self,
        rect: Rect,
        img: &mut Image,
        angle: Scalar,
        center: Option<Pos>,
        flipped: Option<Flipped>,
    ) -> (r: PixResult<()>)
        ensures
            PixState::image_shown(
                old(self),
                old(img),
                rect,
                angle,
                center,
                flipped,
                final(self),
                final(img),
                r,
            ),
    {
        let pitch = row_bytes(img.width, img.format);
        let id = match img.texture_cache {
            None => {
                if self.next_texture == usize::MAX {
                    return Err(PixError::TextureLimit);
                }
                let id = self.next_texture;
                self.next_texture = self.next_texture + 1;
                self.emit(
                    DrawCommand::CreateTexture {
                        id,
                        width: img.width,
                        height: img.height,
                        format: Some(img.format),
                    },
                );
                self.emit(
                    DrawCommand::UpdateTexture {
                        id,
                        part: None,
                        pixels: slice_to_vec(img.bytes()),
                        pitch,
                    },
                );
                img.set_texture_id(id);
                id
            },
            Some((id, changed)) => {
                if changed {
                    self.emit(
                        DrawCommand::UpdateTexture {
                            id,
                            part: None,
                            pixels: slice_to_vec(img.bytes()),
                            pitch,
                        },
                    );
                    img.set_updated(false);
                }
                id
            },
        };
        self.emit(
            DrawCommand::Texture {
                id,
                src: None,
                dst: Some(rect),
                angle,
                center,
                flipped,
                tint: self.settings.image_tint,
            },
        );
        Ok(())
    }
}

} // verus!
