use victor::surface::{
    settle_bridge, BridgeOutcome, CairoError, Error, ImageSurface, IoError, PixelFormat,
    MAX_DIMENSION, STATUS_INVALID_SIZE, STATUS_SUCCESS,
};

#[test]
fn check_passes_only_the_zero_status() {
    assert_eq!(CairoError::check(STATUS_SUCCESS), Ok(()));
    assert_eq!(CairoError::check(7), Err(CairoError { status: 7 }));
}

#[test]
fn surfaces_are_created_zeroed_with_their_format() {
    let surface = ImageSurface::new_rgb24(3, 2).expect("small sizes are accepted");
    assert_eq!(surface.width(), 3);
    assert_eq!(surface.height(), 2);
    assert_eq!(surface.format(), PixelFormat::Rgb24);
    for y in 0..2 {
        for x in 0..3 {
            assert_eq!(surface.pixel(x, y), 0);
        }
    }
    let argb = ImageSurface::new_argb32(1, 1).expect("small sizes are accepted");
    assert_eq!(argb.format(), PixelFormat::Argb32);
}

#[test]
fn oversized_surfaces_are_refused_with_the_invalid_size_status() {
    let r = ImageSurface::new_rgb24(MAX_DIMENSION + 1, 1);
    assert_eq!(r.err().map(|e| e.status), Some(STATUS_INVALID_SIZE));
    let r = ImageSurface::new_argb32(1, MAX_DIMENSION + 1);
    assert_eq!(r.err().map(|e| e.status), Some(STATUS_INVALID_SIZE));
    assert!(ImageSurface::new_rgb24(MAX_DIMENSION, 1).is_ok());
}

#[test]
fn pixels_are_row_major_and_update_in_place() {
    let mut surface = ImageSurface::new_argb32(4, 3).expect("small sizes are accepted");
    surface.set_pixel(2, 1, 0xFFAA_5500);
    assert_eq!(surface.pixel(2, 1), 0xFFAA_5500);
    assert_eq!(surface.pixel(1, 2), 0);
    let image = surface.into_image();
    assert_eq!(image.width, 4);
    assert_eq!(image.height, 3);
    assert_eq!(image.pixels.len(), 12);
    assert_eq!(image.pixels[1 * 4 + 2], 0xFFAA_5500);
}

#[test]
fn a_fault_takes_precedence_over_every_other_channel() {
    let io = IoError { code: 5 };
    assert_eq!(settle_bridge(true, Err(io), 9), BridgeOutcome::Fault);
    assert_eq!(settle_bridge(true, Ok(()), STATUS_SUCCESS), BridgeOutcome::Fault);
}

#[test]
fn a_stream_failure_takes_precedence_over_the_status() {
    let io = IoError { code: 5 };
    assert_eq!(settle_bridge(false, Err(io), 9), BridgeOutcome::Stream(io));
    assert_eq!(settle_bridge(false, Err(io), STATUS_SUCCESS), BridgeOutcome::Stream(io));
}

#[test]
fn a_clean_bridge_reports_the_native_status() {
    assert_eq!(
        settle_bridge(false, Ok(()), 3),
        BridgeOutcome::Native(CairoError { status: 3 })
    );
    assert_eq!(settle_bridge(false, Ok(()), STATUS_SUCCESS), BridgeOutcome::Completed);
}

#[test]
fn errors_wrap_their_failure_channel() {
    let cairo = CairoError { status: 2 };
    assert_eq!(Error::from(cairo), Error::Cairo(cairo));
    let io = IoError { code: 11 };
    assert_eq!(Error::from(io), Error::Io(io));
}
