use smearor_wrot::color::{ParseHexError, RgbColor24, RgbaColor24, ToHex};
use smearor_wrot::frequency::{ColorFrequency, ColorFrequencyMap};
use smearor_wrot::geometry::Size;
use smearor_wrot::pixel_data::{PixelData, PixelDataFormat, PixelDataSaveError, BGRA, RGBA};

#[test]
fn test_pixel_data_bgra_new() {
    let data = PixelData::<BGRA>::new(vec![1, 2, 3, 4]);
    assert_eq!(data.len(), 4);
    assert_eq!(data[0], 1);
}

#[test]
fn test_pixel_data_bgra_from_slice() {
    let slice = [1, 2, 3, 4, 5, 6, 7, 8];
    let data = PixelData::<BGRA>::from_slice(&slice);
    assert_eq!(data.len(), 8);
}

#[test]
fn test_pixel_data_is_zero() {
    let zero_data = PixelData::<BGRA>::new(vec![0, 0, 0, 0]);
    assert!(zero_data.is_zero());

    let non_zero = PixelData::<BGRA>::new(vec![0, 0, 0, 1]);
    assert!(!non_zero.is_zero());
}

#[test]
fn test_pixel_data_bgra_into_rgba() {
    let bgra = PixelData::<BGRA>::new(vec![10, 20, 30, 40]);
    let rgba = bgra.into_rgba();
    assert_eq!(rgba[0], 30);
    assert_eq!(rgba[1], 20);
    assert_eq!(rgba[2], 10);
    assert_eq!(rgba[3], 40);
}

#[test]
fn test_pixel_data_bgra_to_rgba_ref() {
    let bgra = PixelData::<BGRA>::new(vec![10, 20, 30, 40]);
    let rgba: PixelData<RGBA> = (&bgra).into();
    assert_eq!(rgba[0], 30);
    assert_eq!(rgba[1], 20);
    assert_eq!(rgba[2], 10);
    assert_eq!(rgba[3], 40);
}

#[test]
fn test_pixel_data_bgra_to_rgba_copy() {
    let bgra = PixelData::<BGRA>::new(vec![10, 20, 30, 40, 50, 60, 70, 80]);
    let rgba = bgra.to_rgba();
    assert_eq!(bgra[0], 10);
    assert_eq!(bgra[1], 20);
    assert_eq!(bgra[2], 30);
    assert_eq!(bgra[3], 40);
    assert_eq!(rgba[0], 30);
    assert_eq!(rgba[1], 20);
    assert_eq!(rgba[2], 10);
    assert_eq!(rgba[3], 40);
    assert_eq!(rgba[4], 70);
    assert_eq!(rgba[5], 60);
    assert_eq!(rgba[6], 50);
    assert_eq!(rgba[7], 80);
}

#[test]
fn test_pixel_data_rgba_to_bgra_ref() {
    let rgba = PixelData::<RGBA>::new(vec![30, 20, 10, 40]);
    let bgra: PixelData<BGRA> = (&rgba).into();
    assert_eq!(bgra[0], 10);
    assert_eq!(bgra[1], 20);
    assert_eq!(bgra[2], 30);
    assert_eq!(bgra[3], 40);
}

#[test]
fn test_pixel_data_round_trip_restores_bytes() {
    let bgra = PixelData::<BGRA>::new(vec![1, 2, 3, 4, 5, 6, 7, 8]);
    let rgba: PixelData<RGBA> = (&bgra).into();
    let back: PixelData<BGRA> = (&rgba).into();
    assert_eq!(*back, *bgra);
}

#[test]
fn test_pixel_data_format() {
    assert_eq!(PixelData::<BGRA>::new(vec![]).format(), PixelDataFormat::BGRA);
    assert_eq!(PixelData::<RGBA>::new(vec![]).format(), PixelDataFormat::RGBA);
}

#[test]
fn test_pixel_data_bgra_get_frequency_map() {
    let data = PixelData::<BGRA>::new(vec![
        0, 0, 255, 255, // red
        0, 0, 255, 255, // red
        255, 0, 0, 255, // blue
    ]);
    let freq_map = data.get_frequency_map(16).unwrap();
    assert_eq!(freq_map.len(), 2);
    assert_eq!(freq_map.count_of(RgbColor24::new(240, 0, 0)), Some(2));
    assert_eq!(freq_map.count_of(RgbColor24::new(0, 0, 240)), Some(1));
}

#[test]
fn test_pixel_data_bgra_get_frequency_map_empty() {
    let data = PixelData::<BGRA>::new(vec![]);
    assert!(data.get_frequency_map(16).is_none());
}

#[test]
fn test_pixel_data_bgra_get_frequency_map_zero_step() {
    let data = PixelData::<BGRA>::new(vec![0, 0, 255, 255]);
    assert!(data.get_frequency_map(0).is_none());
}

#[test]
fn test_pixel_data_bgra_get_dominant_color() {
    let data = PixelData::<BGRA>::new(vec![
        0, 0, 255, 255, // red
        0, 0, 255, 255, // red
        0, 0, 255, 255, // red
        255, 0, 0, 255, // blue
    ]);
    let dominant = data.get_dominant_color(16).unwrap();
    assert_eq!(dominant.red, 240);
    assert_eq!(dominant.green, 0);
    assert_eq!(dominant.blue, 0);
}

#[test]
fn test_pixel_data_dominant_color_tie_takes_smaller_hex() {
    // one blue pixel, one red pixel: equal counts, "#0000FF" < "#FF0000"
    let data = PixelData::<BGRA>::new(vec![255, 0, 0, 255, 0, 0, 255, 255]);
    let dominant = data.get_dominant_color(1).unwrap();
    assert_eq!(dominant, RgbColor24::new(0, 0, 255));
}

#[test]
fn test_pixel_data_rgba_get_frequency_map() {
    let data = PixelData::<RGBA>::new(vec![
        255, 0, 0, 255, // red
        255, 0, 0, 255, // red
        0, 0, 255, 255, // blue
    ]);
    let freq_map = data.get_frequency_map(16).unwrap();
    assert_eq!(freq_map.len(), 2);
}

#[test]
fn test_frequency_map_sorted() {
    let mut map = ColorFrequencyMap::new();
    map.add_occurrence(RgbColor24::new(1, 2, 3));
    map.add_occurrence(RgbColor24::new(9, 9, 9));
    map.add_occurrence(RgbColor24::new(9, 9, 9));
    map.add_occurrence(RgbColor24::new(0, 0, 1));
    let sorted = map.get_sorted();
    let colors: Vec<RgbColor24> = sorted.iter().map(|f| f.color).collect();
    assert_eq!(colors, vec![RgbColor24::new(9, 9, 9), RgbColor24::new(0, 0, 1), RgbColor24::new(1, 2, 3)]);
    assert_eq!(sorted[0].frequency, 2);
    let top = map.get_dominant_colors(2);
    assert_eq!(top.len(), 2);
    assert_eq!(top[1].color, RgbColor24::new(0, 0, 1));
    assert!(ColorFrequencyMap::new().get_dominant_color().is_none());
    assert!(ColorFrequency::new(RgbColor24::new(0, 0, 0), 3) == ColorFrequency::new(RgbColor24::new(1, 1, 1), 3));
}

#[test]
fn test_rgb_hex() {
    assert_eq!(RgbColor24::new(255, 0, 10).to_hex(), "#FF000A");
    assert_eq!(RgbColor24::parse_hex("#FF000A").unwrap(), RgbColor24::new(255, 0, 10));
    assert_eq!(RgbColor24::parse_hex("##ff000a").unwrap(), RgbColor24::new(255, 0, 10));
    assert_eq!(RgbColor24::parse_hex("+F+F+F").unwrap(), RgbColor24::new(15, 15, 15));
    assert_eq!(RgbColor24::parse_hex("#FF00").unwrap_err(), ParseHexError::InvalidSize);
    assert_eq!(RgbColor24::parse_hex("#GG0000").unwrap_err(), ParseHexError::InvalidRed);
    assert_eq!(RgbColor24::parse_hex("#00GG00").unwrap_err(), ParseHexError::InvalidGreen);
    assert_eq!(RgbColor24::parse_hex("#0000GG").unwrap_err(), ParseHexError::InvalidBlue);
}

#[test]
fn test_rgba_hex() {
    let c = RgbaColor24::new(RgbColor24::new(1, 2, 3), 128);
    assert_eq!(c.to_hex(), "#01020380");
    assert_eq!(RgbaColor24::parse_hex("#01020380").unwrap(), c);
    assert_eq!(RgbaColor24::parse_hex("#GG0203ZZ").unwrap_err(), ParseHexError::InvalidAlpha);
    assert_eq!(RgbaColor24::parse_hex("#GG020380").unwrap_err(), ParseHexError::InvalidRed);
    assert_eq!(RgbaColor24::parse_hex("#010203").unwrap_err(), ParseHexError::InvalidSize);
}

#[test]
fn test_color_constructors_and_display() {
    assert_eq!(RgbColor24::from_rgb((1, 2, 3)), RgbColor24::new(1, 2, 3));
    assert_eq!(RgbColor24::from_bgr((1, 2, 3)), RgbColor24::new(3, 2, 1));
    assert_eq!(RgbColor24::new(1, 2, 3).to_display_string(), "RgbColor24(r=1, g=2, b=3)");
    assert_eq!(
        RgbaColor24::new(RgbColor24::new(1, 2, 3), 4).to_display_string(),
        "RgbaColor24(r=1, g=2, b=3, a=4)"
    );
    assert_eq!(ParseHexError::InvalidSize.message(), "Invalid size");
}

#[test]
fn test_frequency_map_display_lists_top_five() {
    let mut map = ColorFrequencyMap::new();
    for _ in 0..3 {
        map.add_occurrence(RgbColor24::new(255, 0, 0));
    }
    map.add_occurrence(RgbColor24::new(0, 0, 255));
    map.add_occurrence(RgbColor24::new(0, 255, 0));
    assert_eq!(
        map.to_display_string(),
        "  1: #FF0000 - 3 pixels,   2: #0000FF - 1 pixels,   3: #00FF00 - 1 pixels"
    );
    assert_eq!(ColorFrequencyMap::new().to_display_string(), "");
    let mut many = ColorFrequencyMap::new();
    for i in 0..7u8 {
        for _ in 0..(i + 1) {
            many.add_occurrence(RgbColor24::new(i, i, i));
        }
    }
    assert_eq!(
        many.to_display_string(),
        "  1: #060606 - 7 pixels,   2: #050505 - 6 pixels,   3: #040404 - 5 pixels,   4: #030303 - 4 pixels,   5: #020202 - 3 pixels"
    );
}

#[test]
fn test_png_buffer_check() {
    let data = PixelData::<RGBA>::new(vec![0u8; 16]);
    assert!(data.png_buffer_check(&Size { width: 2, height: 2 }).is_ok());
    assert!(data.png_buffer_check(&Size { width: 1, height: 4 }).is_ok());
    assert!(data.png_buffer_check(&Size { width: 1, height: 3 }).is_ok());
    assert!(matches!(
        data.png_buffer_check(&Size { width: 3, height: 2 }),
        Err(PixelDataSaveError::BufferCreationFailed)
    ));
    let empty = PixelData::<RGBA>::new(Vec::new());
    assert!(empty.png_buffer_check(&Size { width: 0, height: 5 }).is_ok());
    assert!(empty.png_buffer_check(&Size { width: 1, height: 1 }).is_err());
}

#[test]
fn test_color_frequency_order_by_count() {
    let few = ColorFrequency::new(RgbColor24::new(255, 255, 255), 1);
    let many = ColorFrequency::new(RgbColor24::new(0, 0, 0), 9);
    assert!(few < many);
    assert!(many > few);
    assert_eq!(few.partial_cmp(&many), Some(std::cmp::Ordering::Less));
    let same = ColorFrequency::new(RgbColor24::new(7, 7, 7), 9);
    assert_eq!(many.partial_cmp(&same), Some(std::cmp::Ordering::Equal));
    assert!(many == same);
}

#[test]
fn test_frequency_map_default_and_deref() {
    let mut map = ColorFrequencyMap::default();
    assert_eq!(map.len(), 0);
    map.add_occurrence(RgbColor24::new(1, 2, 3));
    map.add_occurrence(RgbColor24::new(1, 2, 3));
    let counts = &*map;
    assert_eq!(*counts.get(&(1, 2, 3)).unwrap(), 2);
    assert!(counts.get(&(3, 2, 1)).is_none());
}

#[test]
fn test_hex_roundtrip_upper_and_lower_case() {
    for c in [RgbColor24::new(0, 0, 0), RgbColor24::new(255, 171, 12), RgbColor24::new(10, 254, 160)] {
        let text = c.to_hex();
        assert_eq!(text.len(), 7);
        assert_eq!(RgbColor24::parse_hex(&text).unwrap(), c);
        assert_eq!(RgbColor24::parse_hex(&text.to_lowercase()).unwrap(), c);
        let with_alpha = RgbaColor24::new(c, 0xAB);
        assert_eq!(RgbaColor24::parse_hex(&with_alpha.to_hex().to_lowercase()).unwrap(), with_alpha);
    }
    assert_eq!(RgbColor24::new(255, 171, 12).to_hex(), "#FFAB0C");
}

#[test]
fn test_frequency_map_counts_a_pixel_without_alpha() {
    let data = PixelData::<BGRA>::new(vec![1, 2, 3, 255, 1, 2, 3]);
    let map = data.get_frequency_map(1).unwrap();
    assert_eq!(map.len(), 1);
    assert_eq!(map.get_sorted()[0].frequency, 2);
    assert_eq!(map.get_sorted()[0].color, RgbColor24::new(3, 2, 1));
    let rgba = PixelData::<RGBA>::new(vec![9, 8, 7, 255, 1, 2, 3]);
    let counts = rgba.get_frequency_map(1).unwrap();
    assert_eq!(counts.len(), 2);
    assert_eq!(data.get_dominant_color(1), Some(RgbColor24::new(3, 2, 1)));
}
