use libass::library::{font_providers, message_text, FontProvider, LogLevel};
use libass::render::{
    cache_limit, frame_extent, next_change, render_time, ChangeDetection, FontHinting,
    ShapingLevel,
};
use libass::track::{alloc_index, chunk_length, feature_status, Feature, NATIVE_LEN_MAX};

#[test]
fn log_level_codes() {
    assert_eq!(LogLevel::from(0), LogLevel::Fatal);
    assert_eq!(LogLevel::from(1), LogLevel::Error);
    assert_eq!(LogLevel::from(2), LogLevel::Warn);
    assert_eq!(LogLevel::from(4), LogLevel::Info);
    assert_eq!(LogLevel::from(5), LogLevel::Application);
    assert_eq!(LogLevel::from(6), LogLevel::Verbose);
    assert_eq!(LogLevel::from(7), LogLevel::Debug);
}

#[test]
fn log_level_unknown_codes_read_as_application() {
    assert_eq!(LogLevel::from(3), LogLevel::Application);
    assert_eq!(LogLevel::from(-1), LogLevel::Application);
    assert_eq!(LogLevel::from(i32::MAX), LogLevel::Application);
    assert_eq!(LogLevel::default(), LogLevel::Application);
}

#[test]
fn font_provider_codes_round_trip() {
    for p in [
        FontProvider::Disabled,
        FontProvider::Autodetect,
        FontProvider::CoreText,
        FontProvider::Fontconfig,
        FontProvider::DirectWrite,
    ] {
        assert_eq!(FontProvider::from(p.code()), p);
    }
    assert_eq!(FontProvider::Fontconfig.code(), 3);
    assert_eq!(FontProvider::default(), FontProvider::Autodetect);
}

#[test]
fn font_provider_list_only_known_values() {
    let got = font_providers(&[1, 3, 99, -4, 2]);
    assert_eq!(
        got,
        vec![
            FontProvider::Autodetect,
            FontProvider::Fontconfig,
            FontProvider::Disabled,
            FontProvider::Disabled,
            FontProvider::CoreText,
        ]
    );
}

#[test]
fn font_provider_list_empty() {
    assert!(font_providers(&[]).is_empty());
}

#[test]
fn message_text_decodes_utf8() {
    assert_eq!(message_text(Some("fontselect: héllo".as_bytes())), "fontselect: héllo");
}

#[test]
fn message_text_invalid_utf8_is_empty() {
    assert_eq!(message_text(Some(&[b'a', 0xff, b'b'])), "");
}

#[test]
fn message_text_null_is_empty() {
    assert_eq!(message_text(None), "");
}

#[test]
fn chunk_length_small_chunks() {
    assert_eq!(chunk_length(""), Ok(0));
    assert_eq!(chunk_length("[Script Info]\n"), Ok(14));
    assert_eq!(chunk_length("é"), Ok(2));
    assert_eq!(NATIVE_LEN_MAX, i32::MAX as usize);
}

#[test]
fn feature_status_codes() {
    assert_eq!(feature_status(0), Some(()));
    assert_eq!(feature_status(-1), None);
    assert_eq!(feature_status(1), None);
}

#[test]
fn feature_codes() {
    assert_eq!(Feature::IncompatibleExtensions.code(), 0);
    assert_eq!(Feature::BidirectionalBrackets.code(), 1);
    assert_eq!(Feature::WholeTextLayout.code(), 2);
    assert_eq!(Feature::WrapUnicode.code(), 3);
}

#[test]
fn alloc_index_codes() {
    assert_eq!(alloc_index(0), Ok(0));
    assert_eq!(alloc_index(17), Ok(17));
    assert!(alloc_index(-1).is_err());
}

#[test]
fn change_detection_codes() {
    assert_eq!(ChangeDetection::try_from(0).unwrap(), ChangeDetection::Identical);
    assert_eq!(ChangeDetection::try_from(1).unwrap(), ChangeDetection::DifferentPositions);
    assert_eq!(ChangeDetection::try_from(2).unwrap(), ChangeDetection::DifferentContent);
    assert_eq!(ChangeDetection::DifferentContent.code(), 2);
}

#[test]
fn change_detection_unknown_code_is_error() {
    let e = ChangeDetection::from_code(3).unwrap_err();
    assert_eq!(e.0, "ChangeDetection");
    assert_eq!(e.1, 3);
    assert!(ChangeDetection::try_from(-1).is_err());
}

#[test]
fn change_slot_after_render() {
    assert!(matches!(next_change(None, 2), Ok(None)));
    assert!(matches!(next_change(None, 42), Ok(None)));
    assert!(matches!(
        next_change(Some(ChangeDetection::Identical), 0),
        Ok(Some(ChangeDetection::Identical))
    ));
    assert!(matches!(
        next_change(Some(ChangeDetection::Identical), 1),
        Ok(Some(ChangeDetection::DifferentPositions))
    ));
    assert!(matches!(next_change(Some(ChangeDetection::Identical), 7), Err(_)));
}

#[test]
fn render_time_bounds() {
    assert_eq!(render_time(0), Some(0));
    assert_eq!(render_time(1500), Some(1500));
    assert_eq!(render_time(i64::MAX as i128), Some(i64::MAX));
    assert_eq!(render_time(i64::MIN as i128), Some(i64::MIN));
    assert_eq!(render_time(i64::MAX as i128 + 1), None);
    assert_eq!(render_time(i64::MIN as i128 - 1), None);
}

#[test]
fn frame_extent_values() {
    assert_eq!(frame_extent(1920), 1920);
    assert_eq!(frame_extent(i32::MAX as u32), i32::MAX);
    assert_eq!(frame_extent(u32::MAX), 0);
}

#[test]
fn cache_limit_saturates() {
    assert_eq!(cache_limit(0), 0);
    assert_eq!(cache_limit(512), 512);
    assert_eq!(cache_limit(i32::MAX as u32 + 1), i32::MAX);
    assert_eq!(cache_limit(u32::MAX), i32::MAX);
}

#[test]
fn shaping_and_hinting_codes() {
    assert_eq!(ShapingLevel::Simple.code(), 0);
    assert_eq!(ShapingLevel::default().code(), 1);
    assert_eq!(FontHinting::default(), FontHinting::Disabled);
    assert_eq!(FontHinting::Disabled.code(), 0);
    assert_eq!(FontHinting::Light.code(), 1);
    assert_eq!(FontHinting::Normal.code(), 2);
    assert_eq!(FontHinting::Native.code(), 3);
}

#[test]
fn log_level_code_round_trip() {
    for (level, code) in [
        (LogLevel::Fatal, 0),
        (LogLevel::Error, 1),
        (LogLevel::Warn, 2),
        (LogLevel::Info, 4),
        (LogLevel::Application, 5),
        (LogLevel::Verbose, 6),
        (LogLevel::Debug, 7),
    ] {
        assert_eq!(level.code(), code);
        assert_eq!(LogLevel::from(code), level);
    }
}

#[test]
fn change_detection_code_round_trip() {
    for c in [
        ChangeDetection::Identical,
        ChangeDetection::DifferentPositions,
        ChangeDetection::DifferentContent,
    ] {
        assert_eq!(ChangeDetection::try_from(c.code()).unwrap(), c);
    }
    let e = ChangeDetection::try_from(3).unwrap_err();
    assert_eq!(e.0, "ChangeDetection");
    assert_eq!(e.1, 3);
    let e = next_change(Some(ChangeDetection::Identical), 9).unwrap_err();
    assert_eq!(e.0, "ChangeDetection");
    assert_eq!(e.1, 9);
}
