//! Store of decoded RGBA8 images shared by every script context, and the
//! checks made before such an image is copied into a texture.

use vstd::prelude::*;
use std::collections::HashMap;
use crate::gfx_map::{TextureFormat, rgba8_compatible_spec, is_rgba8_compatible, mip_extent,
    mip_extent_spec, bytes_per_pixel_spec, bytes_per_pixel};

verus! {

broadcast use vstd::std_specs::hash::group_hash_axioms;

/// A decoded image: `pixels` holds RGBA8 rows, top row first.
#[derive(Clone, Debug)]
pub struct GfxDecodedImage {
    pub width: u32,
    pub height: u32,
    pub pixels: Vec<u8>,
}

/// Decoded images by id. Ids come from a wrapping 32-bit counter starting at 1.
pub struct DecodedImageStore {
    next_id: u32,
    images: HashMap<u32, GfxDecodedImage>,
}

impl DecodedImageStore {
    /// The id the next stored image receives.
    pub closed spec fn next(&self) -> u32 {
        self.next_id
    }

    /// The stored images by id.
    pub closed spec fn images(&self) -> Map<u32, GfxDecodedImage> {
        self.images@
    }

    /// An empty store whose first id is 1.
    pub fn new() -> (s: Self)
        ensures
            s.next() == 1,
            s.images() == Map::<u32, GfxDecodedImage>::empty(),
    {
        DecodedImageStore { next_id: 1, images: HashMap::new() }
    }

    /// Stores an image under the next id and returns that id.
    pub fn store(&mut self, img: GfxDecodedImage) -> (id: u32)
        ensures
            id == old(self).next(),
            final(self).next() == (if old(self).next() == u32::MAX { 0 } else { old(self).next() + 1 }),
            final(self).images() == old(self).images().insert(id, img),
    {
        let id = self.next_id;
        self.next_id = self.next_id.wrapping_add(1);
        self.images.insert(id, img);
        id
    }

    /// The image stored under `id`, if any.
    pub fn get(&self, id: u32) -> (r: Option<&GfxDecodedImage>)
        ensures
            r == (if self.images().contains_key(id) { Some(&self.images()[id]) } else { None }),
    {
        self.images.get(&id)
    }

    /// Drops the image stored under `id`; dropping an unknown id does nothing.
    pub fn remove(&mut self, id: u32)
        ensures
            final(self).next() == old(self).next(),
            final(self).images() == old(self).images().remove(id),
    {
        let _ = self.images.remove(&id);
    }
}

/// The shared store, created empty on first use and kept afterwards.
pub fn get_decoded_image_store(slot: &mut Option<DecodedImageStore>) -> (store: &mut DecodedImageStore)
    ensures
        *old(slot) is Some ==> *store == old(slot)->0,
        *old(slot) is None ==> store.next() == 1 && store.images() == Map::<u32, GfxDecodedImage>::empty(),
        *final(slot) == Some(*final(store)),
{
    if slot.is_none() {
        *slot = Some(DecodedImageStore::new());
    }
    slot.get_or_insert(DecodedImageStore { next_id: 1, images: HashMap::new() })
}

/// Why a decoded image cannot be copied into a texture.
#[derive(Clone, Copy, Debug, PartialEq, Eq, Structural)]
pub enum UploadError {
    /// The image has a zero width or height.
    ZeroDimensions,
    /// Fewer pixel bytes than `4 * width * height`.
    PixelDataTooSmall,
    /// The texture format does not take RGBA8 bytes unchanged.
    IncompatibleFormat,
    /// The image does not fit at the origin within the mip level.
    ExceedsBounds,
}

/// The outcome of the upload checks, in the order the host makes them.
pub open spec fn upload_check_spec(
    img_w: u32, img_h: u32, pixel_len: nat, format: TextureFormat,
    tex_w: u32, tex_h: u32, mip_level: u32, origin_x: u32, origin_y: u32,
) -> Result<(), UploadError> {
    if img_w == 0 || img_h == 0 {
        Err(UploadError::ZeroDimensions)
    } else if pixel_len < 4 * img_w * img_h {
        Err(UploadError::PixelDataTooSmall)
    } else if !rgba8_compatible_spec(format) {
        Err(UploadError::IncompatibleFormat)
    } else if origin_x + img_w > mip_extent_spec(tex_w, mip_level)
        || origin_y + img_h > mip_extent_spec(tex_h, mip_level) {
        Err(UploadError::ExceedsBounds)
    } else {
        Ok(())
    }
}

/// Checks that a decoded image may be written into a texture of the given
/// format and size at `mip_level`, with its top-left texel at the origin.
pub fn check_decoded_upload(
    img: &GfxDecodedImage, format: TextureFormat, tex_w: u32, tex_h: u32,
    mip_level: u32, origin_x: u32, origin_y: u32,
) -> (r: Result<(), UploadError>)
    requires
        mip_level < 32,
    ensures
        r == upload_check_spec(img.width, img.height, img.pixels@.len(), format, tex_w, tex_h,
            mip_level, origin_x, origin_y),
{
    if img.width == 0 || img.height == 0 {
        return Err(UploadError::ZeroDimensions);
    }
    let w: u128 = img.width as u128;
    let h: u128 = img.height as u128;
    assert(w * h <= 0xffff_ffffu128 * 0xffff_ffffu128 && 4 * (w * h) == 4 * w * h)
        by (nonlinear_arith)
        requires w <= 0xffff_ffffu128, h <= 0xffff_ffffu128;
    let expected: u128 = 4 * (w * h);
    if (img.pixels.len() as u128) < expected {
        return Err(UploadError::PixelDataTooSmall);
    }
    if !is_rgba8_compatible(format) {
        return Err(UploadError::IncompatibleFormat);
    }
    let mip_w = mip_extent(tex_w, mip_level);
    let mip_h = mip_extent(tex_h, mip_level);
    if origin_x as u128 + w > mip_w as u128 || origin_y as u128 + h > mip_h as u128 {
        return Err(UploadError::ExceedsBounds);
    }
    Ok(())
}

/// How a decoded image's bytes are laid out for the texture write.
#[derive(Clone, Copy, Debug, PartialEq, Eq, Structural)]
pub struct UploadLayout {
    pub bytes_per_row: u32,
    pub rows_per_image: u32,
    pub width: u32,
    pub height: u32,
}

/// The layout of an accepted upload: tightly packed RGBA8 rows (four bytes
/// per texel), one image of the image's height, copying the whole image.
pub fn upload_layout(img: &GfxDecodedImage) -> (r: UploadLayout)
    requires
        4 * img.width <= u32::MAX,
    ensures
        r.bytes_per_row == 4 * img.width,
        r.rows_per_image == img.height,
        r.width == img.width,
        r.height == img.height,
{
    UploadLayout { bytes_per_row: 4 * img.width, rows_per_image: img.height, width: img.width, height: img.height }
}

/// Why raw pixel data cannot be written into a texture.
#[derive(Clone, Copy, Debug, PartialEq, Eq, Structural)]
pub enum TextureWriteError {
    /// A zero width or height.
    ZeroSize,
    /// The texture format has no fixed texel size (depth-stencil or compressed).
    UnsupportedFormat,
    /// Fewer bytes than the region needs.
    DataTooSmall,
    /// The region does not fit at the origin within the mip level.
    ExceedsBounds,
}

/// How a checked write lays out its data: tightly packed rows and images.
#[derive(Clone, Copy, Debug, PartialEq, Eq, Structural)]
pub struct TextureWritePlan {
    pub bytes_per_row: u32,
    pub rows_per_image: u32,
    pub depth_layers: u32,
}

/// A depth of 0 means one layer.
pub open spec fn layers_spec(depth: u32) -> u32 {
    if depth == 0 { 1 } else { depth }
}

/// The outcome of the checks made before raw pixels are written into a texture.
pub open spec fn texture_write_spec(
    format: TextureFormat, tex_w: u32, tex_h: u32, width: u32, height: u32, depth: u32,
    origin_x: u32, origin_y: u32, mip_level: u32, data_len: nat,
) -> Result<TextureWritePlan, TextureWriteError> {
    if width == 0 || height == 0 {
        Err(TextureWriteError::ZeroSize)
    } else if bytes_per_pixel_spec(format) is None {
        Err(TextureWriteError::UnsupportedFormat)
    } else {
        let bpr = bytes_per_pixel_spec(format)->0 * width;
        if data_len < bpr * height * layers_spec(depth) {
            Err(TextureWriteError::DataTooSmall)
        } else if origin_x + width > mip_extent_spec(tex_w, mip_level)
            || origin_y + height > mip_extent_spec(tex_h, mip_level) {
            Err(TextureWriteError::ExceedsBounds)
        } else {
            Ok(TextureWritePlan {
                bytes_per_row: bpr as u32,
                rows_per_image: height,
                depth_layers: layers_spec(depth),
            })
        }
    }
}

/// Checks a write of `width` x `height` x `depth` texels of raw data into a
/// texture of the given format and size and says how the data is laid out.
pub fn plan_texture_write(
    format: TextureFormat, tex_w: u32, tex_h: u32, width: u32, height: u32, depth: u32,
    origin_x: u32, origin_y: u32, mip_level: u32, data_len: usize,
) -> (r: Result<TextureWritePlan, TextureWriteError>)
    requires
        mip_level < 32,
        width > 0 && height > 0 && bytes_per_pixel_spec(format) is Some ==>
            bytes_per_pixel_spec(format)->0 * width * height * layers_spec(depth) <= u32::MAX,
    ensures
        r == texture_write_spec(format, tex_w, tex_h, width, height, depth, origin_x, origin_y,
            mip_level, data_len as nat),
{
    if width == 0 || height == 0 {
        return Err(TextureWriteError::ZeroSize);
    }
    let layers: u32 = if depth == 0 { 1 } else { depth };
    let bpp = match bytes_per_pixel(format) {
        Some(b) => b,
        None => return Err(TextureWriteError::UnsupportedFormat),
    };
    assert(bpp * width <= bpp * width * height) by (nonlinear_arith)
        requires height > 0, bpp >= 0, width >= 0;
    assert(bpp * width * height <= bpp * width * height * layers) by (nonlinear_arith)
        requires layers > 0, bpp >= 0, width >= 0, height >= 0;
    let bytes_per_row: u32 = bpp * width;
    let rows: u32 = bytes_per_row * height;
    let expected: u32 = rows * layers;
    if (data_len as u64) < (expected as u64) {
        return Err(TextureWriteError::DataTooSmall);
    }
    let mip_w = mip_extent(tex_w, mip_level);
    let mip_h = mip_extent(tex_h, mip_level);
    if origin_x as u64 + width as u64 > mip_w as u64 || origin_y as u64 + height as u64 > mip_h as u64 {
        return Err(TextureWriteError::ExceedsBounds);
    }
    Ok(TextureWritePlan { bytes_per_row, rows_per_image: height, depth_layers: layers })
}

/// An image stored under an id reads back unchanged, and dropping any
/// other id leaves it in place.
pub proof fn lemma_store_read_back(images: Map<u32, GfxDecodedImage>, id: u32, img: GfxDecodedImage, other: u32)
    requires
        other != id,
    ensures
        images.insert(id, img).contains_key(id),
        images.insert(id, img)[id] == img,
        images.insert(id, img).remove(other).contains_key(id),
        images.insert(id, img).remove(other)[id] == img,
        !images.insert(id, img).remove(id).contains_key(id),
{
}

} // verus!
