use slowscan::scan::{DecoderSource, Effect, Message, SlowScan, HEIGHT, WIDTH};
use slowscan::sstv::SSTVMode;
use slowscan::PixelRGBA;

fn px(v: u8) -> PixelRGBA {
    PixelRGBA { r: v, g: v.wrapping_add(1), b: v.wrapping_add(2), a: v.wrapping_add(3) }
}

fn same(a: &PixelRGBA, b: &PixelRGBA) -> bool {
    (a.r, a.g, a.b, a.a) == (b.r, b.g, b.b, b.a)
}

#[test]
fn new_state_is_blank() {
    let s = SlowScan::new();
    assert_eq!(s.pixels.len(), WIDTH * HEIGHT);
    assert!(s.pixels.iter().all(|p| (p.r, p.g, p.b, p.a) == (0, 0, 0, 255)));
    assert_eq!(s.curr_scanline, 0);
    assert_eq!(s.filepath, "");
    assert!(!s.play_while_decoding);
    assert!(s.selected_source.is_none());
    assert!(s.selected_mode.is_none());
    assert!(!s.should_display_file_widgets);
    assert_eq!(s.title(), "slowscan");
}

#[test]
fn update_records_choices() {
    let mut s = SlowScan::new();
    assert!(matches!(s.update(Message::FilePathChanged("a.wav".to_string())), Effect::Idle));
    assert_eq!(s.filepath, "a.wav");
    assert!(matches!(s.update(Message::PlayToggled(true)), Effect::Idle));
    assert!(s.play_while_decoding);
    s.update(Message::DecoderSourceChanged(DecoderSource::File));
    assert!(s.should_display_file_widgets);
    assert_eq!(s.selected_source, Some(DecoderSource::File));
    s.update(Message::DecoderSourceChanged(DecoderSource::Microphone));
    assert!(!s.should_display_file_widgets);
    assert_eq!(s.selected_source, Some(DecoderSource::Microphone));
    s.update(Message::ModeChanged(SSTVMode::MartinM1));
    assert_eq!(s.selected_mode, Some(SSTVMode::MartinM1));
}

#[test]
fn start_decode_resets_counter_and_asks_to_decode() {
    let mut s = SlowScan::new();
    s.update(Message::FilePathChanged("sig.wav".to_string()));
    s.update(Message::PlayToggled(true));
    s.update(Message::DecodeProgress(vec![px(1); WIDTH]));
    assert_eq!(s.curr_scanline, 1);
    match s.update(Message::StartDecode) {
        Effect::BeginDecode { filepath, play_audio } => {
            assert_eq!(filepath, "sig.wav");
            assert!(play_audio);
        }
        _ => panic!("expected a decode to begin"),
    }
    assert_eq!(s.curr_scanline, 0);
}

#[test]
fn completion_and_placeholder() {
    let mut s = SlowScan::new();
    assert!(matches!(s.update(Message::DecodeComplete(Ok(()))), Effect::AnnounceCompletion));
    assert!(matches!(s.update(Message::DecodeComplete(Err(()))), Effect::AnnounceCompletion));
    assert!(matches!(s.update(Message::PlaceHolder), Effect::Idle));
    assert_eq!(s.curr_scanline, 0);
}

#[test]
fn scanline_written_into_current_row_only() {
    let mut s = SlowScan::new();
    s.update_scanline(vec![px(1); WIDTH]);
    s.update_scanline((0..WIDTH).map(|i| px(i as u8)).collect());
    assert_eq!(s.curr_scanline, 2);
    assert!(same(&s.pixels[0], &px(1)));
    assert!(same(&s.pixels[WIDTH - 1], &px(1)));
    for i in 0..WIDTH {
        assert!(same(&s.pixels[WIDTH + i], &px(i as u8)));
    }
    assert!(same(&s.pixels[2 * WIDTH], &PixelRGBA::default()));
}

#[test]
fn short_and_long_scanlines() {
    let mut s = SlowScan::new();
    s.update_scanline(vec![px(9); 3]);
    assert!(same(&s.pixels[2], &px(9)));
    assert!(same(&s.pixels[3], &PixelRGBA::default()));
    s.update_scanline(vec![px(5); WIDTH + 10]);
    assert!(same(&s.pixels[2 * WIDTH - 1], &px(5)));
    assert!(same(&s.pixels[2 * WIDTH], &PixelRGBA::default()));
    assert_eq!(s.curr_scanline, 2);
}

#[test]
fn scanlines_after_last_row_are_ignored() {
    let mut s = SlowScan::new();
    for _ in 0..HEIGHT {
        s.update(Message::DecodeProgress(vec![px(3); WIDTH]));
    }
    assert_eq!(s.curr_scanline, HEIGHT);
    s.update(Message::DecodeProgress(vec![px(7); WIDTH]));
    assert_eq!(s.curr_scanline, HEIGHT);
    assert!(s.pixels.iter().all(|p| same(p, &px(3))));
}

#[test]
fn pixels_to_bytes_is_rgba_stream() {
    let mut s = SlowScan::new();
    s.update_scanline(vec![px(10), px(20)]);
    let bytes = s.pixels_to_bytes();
    assert_eq!(bytes.len(), WIDTH * HEIGHT * 4);
    assert_eq!(&bytes[..12], &[10, 11, 12, 13, 20, 21, 22, 23, 0, 0, 0, 255]);
    assert_eq!(&bytes[bytes.len() - 4..], &[0, 0, 0, 255]);
}
