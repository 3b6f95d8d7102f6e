use lattice::gfx_map::TextureFormat;
use lattice::gpu_state::{
    choose_features, choose_surface_format, flush_pending_command_buffers, map_mode, map_range,
    mip_chain, msaa_needs_rebuild, surface_extent, CommandQueue, DeviceFeatures, GfxContextError,
    MapError, MapMode, PendingMaps,
};
use lattice::image_decode::{
    decode_image_internal, decode_image_result, decode_route, resize_decoded, resize_filter_for,
    resize_target, wants_flip, webp_scaling, DecodeImageOptions, DecodeOutcome, DecodeRoute,
    ResizeDecodedImageArgs, ResizeError, ResizeFilter,
};
use lattice::image_store::GfxDecodedImage;

#[test]
fn decoder_routes() {
    let riff = b"RIFF\x10\x00\x00\x00WEBPVP8 ";
    assert_eq!(decode_route(riff, "auto"), DecodeRoute::WebpNative);
    assert_eq!(decode_route(b"\x89PNG\r\n\x1a\n0000", "auto"), DecodeRoute::Guess);
    assert_eq!(decode_route(b"", "webp"), DecodeRoute::WebpNative);
    assert_eq!(decode_route(riff, "png"), DecodeRoute::Png);
    assert_eq!(decode_route(b"", "jpg"), DecodeRoute::Jpeg);
    assert_eq!(decode_route(b"", "jpeg"), DecodeRoute::Jpeg);
    assert_eq!(decode_route(b"RIFF", "auto"), DecodeRoute::Guess);
}

#[test]
fn decode_options() {
    assert_eq!(resize_filter_for(Some("pixelated")), ResizeFilter::Nearest);
    assert_eq!(resize_filter_for(Some("low")), ResizeFilter::Nearest);
    assert_eq!(resize_filter_for(Some("medium")), ResizeFilter::Triangle);
    assert_eq!(resize_filter_for(Some("high")), ResizeFilter::Lanczos3);
    assert_eq!(resize_filter_for(None), ResizeFilter::Lanczos3);
    assert!(wants_flip(Some("flipY")));
    assert!(!wants_flip(Some("none")));
    assert_eq!(resize_target(Some(4), Some(2)), Some((4, 2)));
    assert_eq!(resize_target(Some(0), Some(2)), None);
    assert_eq!(resize_target(None, Some(2)), None);
    assert_eq!(webp_scaling(4, 2, Some(4), Some(2)), None);
    assert_eq!(webp_scaling(8, 8, Some(4), Some(2)), Some((4, 2)));
}

fn png_2x1() -> Vec<u8> {
    let mut buf = Vec::new();
    let img = image::RgbaImage::from_raw(2, 1, vec![255, 0, 0, 255, 0, 0, 255, 255]).unwrap();
    image::DynamicImage::ImageRgba8(img)
        .write_to(&mut std::io::Cursor::new(&mut buf), image::ImageFormat::Png)
        .unwrap();
    buf
}

#[test]
fn decodes_png_and_flips_and_resizes() {
    let data = png_2x1();
    match decode_image_internal(&data, "png", &None) {
        Ok(DecodeOutcome::Decoded(img)) => {
            assert_eq!((img.width, img.height), (2, 1));
            assert_eq!(img.pixels, vec![255, 0, 0, 255, 0, 0, 255, 255]);
        },
        _ => panic!("decoded image expected"),
    }
    let opts = Some(DecodeImageOptions { resize_width: Some(4), resize_height: Some(2), resize_quality: Some("pixelated".to_string()), image_orientation: Some("flipY".to_string()) });
    match decode_image_internal(&data, "auto", &opts) {
        Ok(DecodeOutcome::Decoded(img)) => {
            assert_eq!((img.width, img.height), (4, 2));
            assert_eq!(img.pixels.len(), 32);
        },
        _ => panic!("decoded image expected"),
    }
    assert!(matches!(decode_image_internal(&data, "webp", &None), Ok(DecodeOutcome::NeedsNativeWebp)));
    assert!(decode_image_internal(b"not an image", "png", &None).is_err());
}

#[test]
fn direct_decode_results() {
    let ok = decode_image_result(Ok(GfxDecodedImage { width: 1, height: 1, pixels: vec![1, 2, 3, 4] }));
    assert_eq!((ok.width, ok.height, ok.data.len(), ok.error.is_none()), (1, 1, 4, true));
    let err = decode_image_result(Err("bad".to_string()));
    assert_eq!((err.width, err.height, err.data.len()), (0, 0, 0));
    assert_eq!(err.error, Some("bad".to_string()));
}

#[test]
fn stored_images_resize() {
    let img = GfxDecodedImage { width: 2, height: 1, pixels: vec![255, 0, 0, 255, 0, 0, 255, 255] };
    let args = ResizeDecodedImageArgs { source_rid: 1, width: 4, height: 1, quality: Some("low".to_string()) };
    let out = resize_decoded(&img, &args).unwrap();
    assert_eq!((out.width, out.height), (4, 1));
    assert_eq!(out.pixels, vec![255, 0, 0, 255, 255, 0, 0, 255, 0, 0, 255, 255, 0, 0, 255, 255]);
    let short = GfxDecodedImage { width: 2, height: 2, pixels: vec![0; 8] };
    assert_eq!(resize_decoded(&short, &args).err(), Some(ResizeError::BadStoredImage));
}

#[test]
fn mip_chains() {
    assert_eq!(mip_chain(8, 2), vec![(4, 1), (2, 1), (1, 1)]);
    assert_eq!(mip_chain(1, 1), vec![]);
    assert_eq!(mip_chain(5, 5), vec![(2, 2), (1, 1)]);
    assert_eq!(mip_chain(1024, 1024).len(), 10);
}

#[test]
fn msaa_and_surface() {
    assert!(msaa_needs_rebuild(None, 10, 10));
    assert!(!msaa_needs_rebuild(Some((10, 10)), 10, 10));
    assert!(msaa_needs_rebuild(Some((10, 11)), 10, 10));
    assert_eq!(choose_surface_format(&vec![TextureFormat::Rgba8Unorm, TextureFormat::Bgra8Unorm]), TextureFormat::Bgra8Unorm);
    assert_eq!(choose_surface_format(&vec![TextureFormat::Rgba16Float, TextureFormat::Rgba8Unorm]), TextureFormat::Rgba16Float);
    assert_eq!(surface_extent(0, 720), (1, 720));
    let f = DeviceFeatures { timestamp_query: true, timestamp_query_inside_encoders: false, texture_compression_bc: true, texture_compression_astc: false };
    assert_eq!(choose_features(f), f);
}

#[test]
fn buffer_map_lifecycle() {
    assert_eq!(map_mode(1), MapMode::Read);
    assert_eq!(map_mode(2), MapMode::Write);
    assert_eq!(map_range(16, 32), (16, 48));
    let mut m = PendingMaps::new();
    assert_eq!(m.poll(5), Ok(false));
    assert!(!m.must_block(5));
    m.start(5);
    assert_eq!(m.poll(5), Ok(false));
    assert!(m.must_block(5));
    m.complete(5, true);
    assert_eq!(m.poll(5), Ok(true));
    assert_eq!(m.wait_result(5), Ok(()));
    m.start(6);
    m.complete(6, false);
    assert_eq!(m.poll(6), Err(MapError::MapFailed));
    assert_eq!(m.wait_result(6), Err(MapError::MapFailed));
    m.finish(6);
    assert_eq!(m.poll(6), Ok(false));
    m.complete(7, true);
    assert_eq!(m.poll(7), Ok(false));
}

#[test]
fn command_buffers_flush_in_order() {
    let mut q: CommandQueue<u32> = CommandQueue::new();
    assert_eq!(q.flush_pending_commands(), None);
    q.queue_command_buffer(3);
    q.queue_command_buffer(1);
    q.queue_command_buffer(2);
    assert_eq!(flush_pending_command_buffers(false, &mut q), Err(GfxContextError::NotInitialized));
    assert_eq!(flush_pending_command_buffers(true, &mut q), Ok(Some(vec![3, 1, 2])));
    assert_eq!(flush_pending_command_buffers(true, &mut q), Ok(None));
    q.queue_command_buffer(9);
    assert_eq!(q.flush_pending_commands(), Some(vec![9]));
    assert_eq!(q.flush_pending_commands(), None);
    q.queue_command_buffer(4);
    q.queue_command_buffer(5);
    assert_eq!(q.take_with(6), vec![4, 5, 6]);
    assert_eq!(q.take_with(7), vec![7]);
    assert_eq!(q.flush_pending_commands(), None);
    assert_eq!(GfxContextError::NotInitialized.message(), "Graphics context not initialized");
    assert_eq!(MapError::MapFailed.message(), "Buffer map failed");
}

#[test]
fn decode_sizes_follow_the_resize_target_and_flip_reverses_rows() {
    let mut buf = Vec::new();
    let img = image::RgbaImage::from_raw(1, 2, vec![1, 2, 3, 255, 9, 8, 7, 255]).unwrap();
    image::DynamicImage::ImageRgba8(img)
        .write_to(&mut std::io::Cursor::new(&mut buf), image::ImageFormat::Png)
        .unwrap();
    let flip = Some(DecodeImageOptions { resize_width: None, resize_height: None, resize_quality: None, image_orientation: Some("flipY".to_string()) });
    match decode_image_internal(&buf, "png", &flip) {
        Ok(DecodeOutcome::Decoded(d)) => {
            assert_eq!((d.width, d.height), (1, 2));
            assert_eq!(d.pixels, vec![9, 8, 7, 255, 1, 2, 3, 255]);
        },
        _ => panic!("decoded image expected"),
    }
    let resize = Some(DecodeImageOptions { resize_width: Some(3), resize_height: Some(5), resize_quality: Some("medium".to_string()), image_orientation: None });
    match decode_image_internal(&buf, "auto", &resize) {
        Ok(DecodeOutcome::Decoded(d)) => {
            assert_eq!((d.width, d.height), (3, 5));
            assert_eq!(d.pixels.len(), 60);
        },
        _ => panic!("decoded image expected"),
    }
    assert!(decode_image_internal(&buf, "jpeg", &None).is_err());
}
