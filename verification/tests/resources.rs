use lattice::gfx_map::TextureFormat;
use lattice::gpu_ids::GpuIdMap;
use lattice::image_store::{
    check_decoded_upload, get_decoded_image_store, plan_texture_write, DecodedImageStore,
    GfxDecodedImage, TextureWriteError, TextureWritePlan, UploadError, UploadLayout, upload_layout,
};

#[test]
fn gpu_ids_start_at_one_and_resolve() {
    let mut m = GpuIdMap::new();
    let a = m.insert(7);
    let b = m.insert(7);
    assert_eq!(a, 1);
    assert_eq!(b, 2);
    assert_eq!(m.resolve(1), Some(7));
    assert_eq!(m.resolve(2), Some(7));
    assert_eq!(m.resolve(3), None);
}

#[test]
fn removed_gpu_id_is_never_reused() {
    let mut m = GpuIdMap::new();
    let a = m.insert(3);
    assert_eq!(m.remove(a), Some(3));
    assert_eq!(m.resolve(a), None);
    assert_eq!(m.remove(a), None);
    let b = m.insert(3);
    assert!(b > a);
    assert_eq!(m.resolve(b), Some(3));
}

#[test]
fn gpu_next_id_is_the_next_insert() {
    let mut m = GpuIdMap::new();
    assert_eq!(m.next_id(), 1);
    let a = m.insert(4);
    assert_eq!(a, 1);
    assert_eq!(m.next_id(), 2);
    m.remove(a);
    assert_eq!(m.next_id(), 2);
}

fn image(w: u32, h: u32, len: usize) -> GfxDecodedImage {
    GfxDecodedImage { width: w, height: h, pixels: vec![0u8; len] }
}

#[test]
fn decoded_store_reads_back_and_drops() {
    let mut s = DecodedImageStore::new();
    let id = s.store(image(2, 1, 8));
    assert_eq!(id, 1);
    let id2 = s.store(image(1, 1, 4));
    assert_eq!(id2, 2);
    assert_eq!(s.get(id).map(|i| i.width), Some(2));
    s.remove(id);
    assert!(s.get(id).is_none());
    assert!(s.get(id2).is_some());
}

#[test]
fn shared_store_is_created_once() {
    let mut slot: Option<DecodedImageStore> = None;
    let id = get_decoded_image_store(&mut slot).store(image(1, 1, 4));
    assert_eq!(id, 1);
    let again = get_decoded_image_store(&mut slot);
    assert!(again.get(1).is_some());
    assert_eq!(again.store(image(1, 1, 4)), 2);
}

#[test]
fn upload_checks_in_order() {
    let ok = image(4, 4, 64);
    assert_eq!(check_decoded_upload(&ok, TextureFormat::Rgba8Unorm, 8, 8, 0, 4, 4), Ok(()));
    assert_eq!(upload_layout(&image(5, 3, 60)), UploadLayout { bytes_per_row: 20, rows_per_image: 3, width: 5, height: 3 });
    assert_eq!(check_decoded_upload(&image(0, 4, 64), TextureFormat::Rgba8Unorm, 8, 8, 0, 0, 0),
        Err(UploadError::ZeroDimensions));
    assert_eq!(check_decoded_upload(&image(4, 4, 63), TextureFormat::Rgba8Unorm, 8, 8, 0, 0, 0),
        Err(UploadError::PixelDataTooSmall));
    assert_eq!(check_decoded_upload(&ok, TextureFormat::Rgba16Float, 8, 8, 0, 0, 0),
        Err(UploadError::IncompatibleFormat));
    assert_eq!(check_decoded_upload(&ok, TextureFormat::Rgba8Unorm, 8, 8, 1, 1, 0),
        Err(UploadError::ExceedsBounds));
    assert_eq!(check_decoded_upload(&ok, TextureFormat::Bgra8Unorm, 8, 8, 1, 0, 0), Ok(()));
}

#[test]
fn texture_writes_are_checked_and_packed() {
    assert_eq!(plan_texture_write(TextureFormat::Rgba8Unorm, 16, 16, 4, 2, 0, 0, 0, 0, 32),
        Ok(TextureWritePlan { bytes_per_row: 16, rows_per_image: 2, depth_layers: 1 }));
    assert_eq!(plan_texture_write(TextureFormat::R32Float, 16, 16, 4, 2, 3, 0, 0, 0, 96),
        Ok(TextureWritePlan { bytes_per_row: 16, rows_per_image: 2, depth_layers: 3 }));
    assert_eq!(plan_texture_write(TextureFormat::Rgba8Unorm, 16, 16, 0, 2, 1, 0, 0, 0, 32),
        Err(TextureWriteError::ZeroSize));
    assert_eq!(plan_texture_write(TextureFormat::Depth24Plus, 16, 16, 4, 2, 1, 0, 0, 0, 32),
        Err(TextureWriteError::UnsupportedFormat));
    assert_eq!(plan_texture_write(TextureFormat::Rgba8Unorm, 16, 16, 4, 2, 1, 0, 0, 0, 31),
        Err(TextureWriteError::DataTooSmall));
    assert_eq!(plan_texture_write(TextureFormat::Rgba8Unorm, 16, 16, 4, 2, 1, 13, 0, 0, 32),
        Err(TextureWriteError::ExceedsBounds));
    assert_eq!(plan_texture_write(TextureFormat::Rgba8Unorm, 16, 16, 4, 2, 1, 4, 0, 2, 32),
        Err(TextureWriteError::ExceedsBounds));
}
