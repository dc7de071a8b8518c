use testing_trayicon::error::TrayError;
use testing_trayicon::icon::choose_default_icon;
use testing_trayicon::icon::icon_creation_outcome;
use testing_trayicon::icon::IconHandle;
use testing_trayicon::icon::IconImage;
use testing_trayicon::icon::Pixel;

#[test]
fn pixel_swap_exchanges_red_and_blue() {
    let mut p = Pixel { r: 10, g: 20, b: 30, a: 40 };
    p.convert_to_bgra();
    assert_eq!(p, Pixel { r: 30, g: 20, b: 10, a: 40 });
}

#[test]
fn icon_image_accepts_exact_buffer() {
    let img = IconImage::new(3, 2, vec![7u8; 3 * 2 * 4]).unwrap();
    assert_eq!(img.width, 3);
    assert_eq!(img.height, 2);
    assert_eq!(img.rgba.len(), 24);
}

#[test]
fn icon_image_rejects_zero_width() {
    let r = IconImage::new(0, 2, vec![0u8; 8]);
    assert!(matches!(r, Err(TrayError::IconCreationFailed)));
}

#[test]
fn icon_image_rejects_zero_height() {
    let r = IconImage::new(2, 0, Vec::new());
    assert!(matches!(r, Err(TrayError::IconCreationFailed)));
}

#[test]
fn icon_image_rejects_wrong_length() {
    let r = IconImage::new(2, 2, vec![0u8; 15]);
    assert!(matches!(r, Err(TrayError::IconCreationFailed)));
    let r = IconImage::new(2, 2, vec![0u8; 17]);
    assert!(matches!(r, Err(TrayError::IconCreationFailed)));
}

#[test]
fn opaque_red_square_converts_to_bgra_with_empty_and_mask() {
    // a 2x2 raster of fully opaque red pixels
    let rgba = vec![
        255u8, 0, 0, 255, 255, 0, 0, 255, 255, 0, 0, 255, 255, 0, 0, 255,
    ];
    let img = IconImage::new(2, 2, rgba).unwrap();
    let (color, and_mask) = img.to_platform_masks();
    assert_eq!(
        color,
        vec![0u8, 0, 255, 255, 0, 0, 255, 255, 0, 0, 255, 255, 0, 0, 255, 255]
    );
    assert_eq!(and_mask, vec![0u8, 0, 0, 0]);
}

#[test]
fn masks_invert_alpha_and_swap_only_outer_bytes() {
    // one pixel with four distinct channel values
    let img = IconImage::new(1, 1, vec![1u8, 2, 3, 200]).unwrap();
    let (color, and_mask) = img.to_platform_masks();
    assert_eq!(color, vec![3u8, 2, 1, 200]);
    assert_eq!(and_mask, vec![55u8]);
}

#[test]
fn transparent_pixel_gets_full_and_mask_byte() {
    let img = IconImage::new(1, 1, vec![9u8, 8, 7, 0]).unwrap();
    let (color, and_mask) = img.to_platform_masks();
    assert_eq!(color, vec![7u8, 8, 9, 0]);
    assert_eq!(and_mask, vec![255u8]);
}

#[test]
fn icon_creation_outcome_accepts_nonzero_handle() {
    let h = icon_creation_outcome(42).unwrap();
    assert_eq!(h, IconHandle { raw: 42 });
}

#[test]
fn icon_creation_outcome_rejects_zero_handle() {
    let r = icon_creation_outcome(0);
    assert!(matches!(r, Err(TrayError::IconCreationFailed)));
}

#[test]
fn default_icon_prefers_named_resource() {
    let named = Some(IconHandle { raw: 5 });
    let system = Some(IconHandle { raw: 6 });
    assert_eq!(choose_default_icon(named, system), Ok(IconHandle { raw: 5 }));
}

#[test]
fn default_icon_falls_back_to_system_icon() {
    let system = Some(IconHandle { raw: 6 });
    assert_eq!(choose_default_icon(None, system), Ok(IconHandle { raw: 6 }));
}

#[test]
fn default_icon_fails_when_nothing_loads() {
    assert_eq!(choose_default_icon(None, None), Err(TrayError::SetupFailed));
}
