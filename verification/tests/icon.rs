use true_tick::icon::{
    copy_tip_text, dpi_to_canvas_size, icon_cache_key, mask_buffer_len,
    truncate_utf16_into_buffer, IconCache, IconCacheKey,
};
use true_tick::surface::{icon_pixel_color, TrayStatus};

#[test]
fn icon_dpi_maps_to_requested_canvas_sizes_and_clamps_intermediate_values() {
    for (dpi, canvas) in [(96, 16), (120, 20), (144, 24), (192, 32), (384, 64)] {
        assert_eq!(dpi_to_canvas_size(dpi), canvas);
    }
    assert_eq!(dpi_to_canvas_size(0), 16);
    assert_eq!(dpi_to_canvas_size(108), 20);
    assert_eq!(dpi_to_canvas_size(168), 24);
    assert_eq!(dpi_to_canvas_size(175), 32);
    assert_eq!(dpi_to_canvas_size(288), 32);
    assert_eq!(dpi_to_canvas_size(289), 64);
}

#[test]
fn mask_buffer_len_pads_each_scan_line_to_four_bytes() {
    for (canvas, expected) in [(16, 64), (20, 80), (24, 96), (32, 128), (64, 512)] {
        assert_eq!(mask_buffer_len(canvas), expected);
    }
}

#[test]
fn icon_cache_key_distinguishes_color_and_canvas() {
    let green_small = IconCacheKey {
        color: 0xFF00B000,
        canvas: 16,
    };
    assert_eq!(green_small, green_small);
    assert_ne!(
        green_small,
        IconCacheKey {
            color: 0xFFD00000,
            canvas: 16,
        }
    );
    assert_ne!(
        green_small,
        IconCacheKey {
            color: 0xFF00B000,
            canvas: 32,
        }
    );
}

#[test]
fn icon_cache_key_covers_all_status_colors() {
    let running = IconCacheKey {
        color: icon_pixel_color(TrayStatus::Running),
        canvas: 16,
    };
    let stopped = IconCacheKey {
        color: icon_pixel_color(TrayStatus::Stopped),
        canvas: 16,
    };
    let degraded = IconCacheKey {
        color: icon_pixel_color(TrayStatus::Degraded),
        canvas: 16,
    };
    let error = IconCacheKey {
        color: icon_pixel_color(TrayStatus::Error),
        canvas: 16,
    };
    assert_ne!(running, stopped);
    assert_ne!(running, degraded);
    assert_ne!(running, error);
    assert_eq!(stopped, error);
}

#[test]
fn icon_cache_key_is_shared_by_statuses_of_one_color_at_one_dpi() {
    assert_eq!(
        icon_cache_key(TrayStatus::Stopped, 96),
        icon_cache_key(TrayStatus::Error, 100)
    );
    assert_eq!(
        icon_cache_key(TrayStatus::Running, 144),
        IconCacheKey {
            color: 0x0000b000,
            canvas: 24,
        }
    );
    assert_ne!(
        icon_cache_key(TrayStatus::Running, 96),
        icon_cache_key(TrayStatus::Running, 192)
    );
}

#[test]
fn title_truncation_respects_capacity_and_stays_valid_utf16() {
    let mut buffer = [0u16; 64];
    let input = "A".repeat(100);
    truncate_utf16_into_buffer(&mut buffer, &input);
    assert_eq!(buffer[63], 0);
    for &code_unit in &buffer[..63] {
        assert_eq!(code_unit, 'A' as u16);
    }
    let decoded = String::from_utf16(&buffer[..63]).expect("valid utf16");
    assert_eq!(decoded.len(), 63);
}

#[test]
fn body_truncation_respects_capacity_and_stays_valid_utf16() {
    let mut buffer = [0u16; 256];
    let input = "B".repeat(300);
    truncate_utf16_into_buffer(&mut buffer, &input);
    assert_eq!(buffer[255], 0);
    for &code_unit in &buffer[..255] {
        assert_eq!(code_unit, 'B' as u16);
    }
    let decoded = String::from_utf16(&buffer[..255]).expect("valid utf16");
    assert_eq!(decoded.len(), 255);
}

#[test]
fn non_bmp_character_at_truncation_boundary_is_dropped_whole() {
    let mut buffer = [0u16; 4];
    let input = "ab\u{1F600}";
    truncate_utf16_into_buffer(&mut buffer, input);
    assert_eq!(buffer[0], 'a' as u16);
    assert_eq!(buffer[1], 'b' as u16);
    assert_eq!(buffer[2], 0);
    assert_eq!(buffer[3], 0);

    let mut title_buffer = [0u16; 64];
    let mut title_input = "a".repeat(62);
    title_input.push('\u{1F600}');
    truncate_utf16_into_buffer(&mut title_buffer, &title_input);
    assert_eq!(title_buffer[62], 0);
    assert_eq!(title_buffer[63], 0);
    let decoded = String::from_utf16(&title_buffer[..62]).expect("valid utf16");
    assert_eq!(decoded, "a".repeat(62));
}

#[test]
fn truncation_clears_previous_text_and_leaves_empty_buffers_alone() {
    let mut buffer = [7u16; 6];
    truncate_utf16_into_buffer(&mut buffer, "hi");
    assert_eq!(buffer, [0x68, 0x69, 0, 0, 0, 0]);
    let mut empty: [u16; 0] = [];
    truncate_utf16_into_buffer(&mut empty, "hi");
    let mut one = [9u16; 1];
    truncate_utf16_into_buffer(&mut one, "hi");
    assert_eq!(one, [0]);
}

#[test]
fn icon_cache_shares_one_handle_per_key_and_empties_for_destruction() {
    let mut cache = IconCache::new();
    let green = icon_cache_key(TrayStatus::Running, 96);
    let red = icon_cache_key(TrayStatus::Stopped, 96);
    assert_eq!(cache.cached_icon_handle(green), None);
    cache.cache_icon_handle(green, 0x1000);
    cache.cache_icon_handle(green, 0x2000);
    assert_eq!(cache.cached_icon_handle(green), Some(0x1000));
    assert_eq!(cache.cached_icon_handle(red), None);
    cache.cache_icon_handle(red, 0x3000);
    assert_eq!(cache.cached_icon_handle(icon_cache_key(TrayStatus::Error, 100)), Some(0x3000));
    assert_eq!(cache.take_all(), vec![0x1000, 0x3000]);
    assert_eq!(cache.cached_icon_handle(green), None);
    assert!(cache.take_all().is_empty());
}

#[test]
fn tooltip_text_is_copied_unit_by_unit_as_far_as_it_reaches() {
    let mut tip = [7u16; 4];
    copy_tip_text(&mut tip, "ab");
    assert_eq!(tip, [0x61, 0x62, 7, 7]);
    let mut short = [0u16; 2];
    copy_tip_text(&mut short, "a\u{1F600}");
    assert_eq!(short, [0x61, 0xD83D]);
}
