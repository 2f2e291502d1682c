use slyh::text::{format_stream_info, format_time, format_time_pair};

#[test]
fn time_is_zero_padded_minutes_and_seconds() {
    assert_eq!(format_time(0), "00:00");
    assert_eq!(format_time(7), "00:07");
    assert_eq!(format_time(59), "00:59");
    assert_eq!(format_time(60), "01:00");
    assert_eq!(format_time(754), "12:34");
    assert_eq!(format_time(3599), "59:59");
}

#[test]
fn time_minutes_are_not_wrapped_into_hours() {
    assert_eq!(format_time(3600), "60:00");
    assert_eq!(format_time(6000), "100:00");
    assert_eq!(format_time(u32::MAX), "71582788:15");
}

#[test]
fn time_text_reads_back_on_examples() {
    for seconds in [0u32, 9, 10, 61, 599, 600, 3661, 123456] {
        let text = format_time(seconds);
        let (m, s) = text.rsplit_once(':').unwrap();
        assert_eq!(s.len(), 2);
        let back = m.parse::<u32>().unwrap() * 60 + s.parse::<u32>().unwrap();
        assert_eq!(back, seconds);
    }
}

#[test]
fn time_text_differs_for_different_seconds() {
    let texts: Vec<String> = (0u32..4000).map(format_time).collect();
    for i in 0..texts.len() {
        for j in (i + 1)..texts.len().min(i + 200) {
            assert_ne!(texts[i], texts[j]);
        }
    }
}

#[test]
fn time_pair_joins_with_slash() {
    assert_eq!(format_time_pair(75, 3600), "01:15 / 60:00");
    assert_eq!(format_time_pair(0, 0), "00:00 / 00:00");
}

#[test]
fn stream_info_with_all_parts() {
    assert_eq!(
        format_stream_info(Some("Mpeg"), Some(16), Some(44100), Some(2)),
        "Mpeg | 16 bit | 44100 hz | 2 cn"
    );
}

#[test]
fn stream_info_leaves_out_unknown_parts() {
    assert_eq!(format_stream_info(None, None, None, None), "");
    assert_eq!(format_stream_info(None, None, Some(48000), Some(1)), "48000 hz | 1 cn");
    assert_eq!(format_stream_info(Some("Flac"), Some(24), None, None), "Flac | 24 bit | ");
    assert_eq!(format_stream_info(None, Some(0), None, None), "0 bit | ");
}
