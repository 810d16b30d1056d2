use webp::config::config;
use webp::encoder::Encoder;
use webp::encoder::SourceImage;
use webp::layout::ImportLayout;
use webp::layout::PixelLayout;
use webp::session::Action;
use webp::session::EncodeFailure;
use webp::session::Event;
use webp::session::Session;

/// Drives a session with a codec stand-in that answers every action with a
/// success event, reporting `size` from the encode step. Returns the actions
/// in order and the outcome.
fn drive_all_ok(
    mut session: Session<'_>,
    first: Action,
    size: usize,
) -> (Vec<Action>, Result<usize, EncodeFailure>) {
    let mut actions = vec![first];
    let mut next = first;
    loop {
        let event = match next {
            Action::InitConfig { .. } => Event::ConfigInit { ok: true },
            Action::InitPicture => Event::PictureInit { ok: true },
            Action::Apply { .. } => Event::Applied,
            Action::Import { .. } => Event::Imported { ok: true },
            Action::Encode => Event::Encoded { ok: true, error_code: 0, size },
            Action::FreePicture => Event::PictureFreed,
            Action::ClearWriter => Event::WriterCleared,
            Action::Finish => return (actions, session.result()),
        };
        next = session.step(event);
        actions.push(next);
    }
}

#[test]
fn success_run_produces_reported_size() {
    let cfg = config(true, 100, 6, false);
    let pixels: Vec<u8> = vec![0; 12];
    let (session, first) = Encoder::from_rgb(cfg, &pixels, 2, 2).encode();
    let (actions, outcome) = drive_all_ok(session, first, 42);
    assert_eq!(outcome, Ok(42));
    assert_eq!(
        actions,
        vec![
            Action::InitConfig { quality: 100 },
            Action::InitPicture,
            Action::Apply {
                lossless: true,
                method: 6,
                multi_threading: false,
                width: 2,
                height: 2
            },
            Action::Import { layout: ImportLayout::RGB, stride: 6 },
            Action::Encode,
            Action::FreePicture,
            Action::Finish,
        ]
    );
}

#[test]
fn success_releases_picture_and_transfers_sink() {
    let cfg = config(false, 80, 4, true);
    let pixels: Vec<u8> = vec![7; 16];
    let (mut session, mut next) = Encoder::from_rgba(cfg, &pixels, 2, 2).encode();
    loop {
        let event = match next {
            Action::InitConfig { .. } => Event::ConfigInit { ok: true },
            Action::InitPicture => Event::PictureInit { ok: true },
            Action::Apply { .. } => Event::Applied,
            Action::Import { .. } => Event::Imported { ok: true },
            Action::Encode => Event::Encoded { ok: true, error_code: 0, size: 9 },
            Action::FreePicture => Event::PictureFreed,
            Action::ClearWriter => Event::WriterCleared,
            Action::Finish => break,
        };
        next = session.step(event);
    }
    assert_eq!(session.result(), Ok(9));
    assert_eq!(session.picture_inits, 1);
    assert_eq!(session.picture_frees, 1);
    assert_eq!(session.sink_opens, 1);
    assert_eq!(session.sink_clears, 0);
    assert!(session.output_transferred);
}

#[test]
fn repeated_runs_are_identical() {
    let cfg = config(true, 50, 3, false);
    let pixels: Vec<u8> = vec![1, 2, 3, 4, 5, 6, 7, 8, 9, 10, 11, 12];
    let (s1, f1) = Encoder::from_rgb(cfg, &pixels, 2, 2).encode();
    let (s2, f2) = Encoder::from_rgb(cfg, &pixels, 2, 2).encode();
    let run1 = drive_all_ok(s1, f1, 33);
    let run2 = drive_all_ok(s2, f2, 33);
    assert_eq!(run1, run2);
}

#[test]
fn other_path_matches_explicit_rgba() {
    let cfg = config(true, 100, 6, false);
    let original: Vec<u8> = vec![9; 8];
    let rgba: Vec<u8> = vec![1, 2, 3, 255, 4, 5, 6, 255, 7, 8, 9, 255, 10, 11, 12, 255];
    let (so, fo) = Encoder::from_other(cfg, &original, 2, 2, rgba.clone()).encode();
    let (sr, fr) = Encoder::from_rgba(cfg, &rgba, 2, 2).encode();
    let run_other = drive_all_ok(so, fo, 21);
    let run_rgba = drive_all_ok(sr, fr, 21);
    assert_eq!(run_other, run_rgba);
    assert_eq!(
        run_other.0[3],
        Action::Import { layout: ImportLayout::RGBA, stride: 8 }
    );
}

#[test]
fn short_buffer_yields_import_error_without_import() {
    let cfg = config(false, 75, 4, false);
    let pixels: Vec<u8> = vec![0; 15];
    let (mut session, mut next) = Encoder::from_rgba(cfg, &pixels, 2, 2).encode();
    let mut asked_to_import = false;
    loop {
        let event = match next {
            Action::InitConfig { .. } => Event::ConfigInit { ok: true },
            Action::InitPicture => Event::PictureInit { ok: true },
            Action::Apply { .. } => Event::Applied,
            Action::Import { .. } => {
                asked_to_import = true;
                Event::Imported { ok: true }
            }
            Action::Encode => Event::Encoded { ok: true, error_code: 0, size: 5 },
            Action::FreePicture => Event::PictureFreed,
            Action::ClearWriter => Event::WriterCleared,
            Action::Finish => break,
        };
        next = session.step(event);
    }
    assert!(!asked_to_import);
    assert_eq!(session.result(), Err(EncodeFailure::ImportError));
}

#[test]
fn zero_width_yields_import_error() {
    let cfg = config(false, 75, 4, false);
    let pixels: Vec<u8> = vec![0; 16];
    let (mut session, _) = Encoder::from_rgba(cfg, &pixels, 0, 2).encode();
    let mut next = session.step(Event::ConfigInit { ok: true });
    assert_eq!(next, Action::InitPicture);
    next = session.step(Event::PictureInit { ok: true });
    assert!(matches!(next, Action::Apply { .. }));
    next = session.step(Event::Applied);
    assert_eq!(next, Action::FreePicture);
    next = session.step(Event::PictureFreed);
    assert_eq!(next, Action::ClearWriter);
    next = session.step(Event::WriterCleared);
    assert_eq!(next, Action::Finish);
    assert_eq!(session.result(), Err(EncodeFailure::ImportError));
}

#[test]
fn import_failure_releases_every_resource() {
    let cfg = config(false, 75, 4, false);
    let pixels: Vec<u8> = vec![0; 15];
    let (mut session, mut next) = Encoder::from_rgba(cfg, &pixels, 2, 2).encode();
    loop {
        let event = match next {
            Action::InitConfig { .. } => Event::ConfigInit { ok: true },
            Action::InitPicture => Event::PictureInit { ok: true },
            Action::Apply { .. } => Event::Applied,
            Action::FreePicture => Event::PictureFreed,
            Action::ClearWriter => Event::WriterCleared,
            Action::Finish => break,
            other => panic!("unexpected action on the failure path: {:?}", other),
        };
        next = session.step(event);
    }
    assert_eq!(session.result(), Err(EncodeFailure::ImportError));
    assert_eq!(session.picture_inits, 1);
    assert_eq!(session.picture_frees, 1);
    assert_eq!(session.sink_opens, 1);
    assert_eq!(session.sink_clears, 1);
    assert!(!session.output_transferred);
}

#[test]
fn config_init_failure_acquires_nothing() {
    let cfg = config(true, 90, 5, false);
    let pixels: Vec<u8> = vec![0; 12];
    let (mut session, _) = Encoder::from_rgb(cfg, &pixels, 2, 2).encode();
    let next = session.step(Event::ConfigInit { ok: false });
    assert_eq!(next, Action::Finish);
    assert_eq!(session.result(), Err(EncodeFailure::ConfigInitError));
    assert_eq!(session.picture_inits, 0);
    assert_eq!(session.picture_frees, 0);
    assert_eq!(session.sink_opens, 0);
    assert_eq!(session.sink_clears, 0);
    assert!(!session.output_transferred);
}

#[test]
fn picture_init_failure_acquires_nothing() {
    let cfg = config(true, 90, 5, false);
    let pixels: Vec<u8> = vec![0; 12];
    let (mut session, _) = Encoder::from_rgb(cfg, &pixels, 2, 2).encode();
    session.step(Event::ConfigInit { ok: true });
    let next = session.step(Event::PictureInit { ok: false });
    assert_eq!(next, Action::Finish);
    assert_eq!(session.result(), Err(EncodeFailure::PictureInitError));
    assert_eq!(session.picture_inits, 0);
    assert_eq!(session.sink_opens, 0);
}

#[test]
fn codec_import_rejection_yields_import_error() {
    let cfg = config(false, 60, 2, false);
    let pixels: Vec<u8> = vec![0; 12];
    let (mut session, _) = Encoder::from_rgb(cfg, &pixels, 2, 2).encode();
    session.step(Event::ConfigInit { ok: true });
    session.step(Event::PictureInit { ok: true });
    let next = session.step(Event::Applied);
    assert_eq!(next, Action::Import { layout: ImportLayout::RGB, stride: 6 });
    let next = session.step(Event::Imported { ok: false });
    assert_eq!(next, Action::FreePicture);
    session.step(Event::PictureFreed);
    session.step(Event::WriterCleared);
    assert_eq!(session.result(), Err(EncodeFailure::ImportError));
}

#[test]
fn encode_failure_keeps_the_codec_code() {
    let cfg = config(false, 60, 2, false);
    let pixels: Vec<u8> = vec![0; 12];
    let (mut session, _) = Encoder::from_rgb(cfg, &pixels, 2, 2).encode();
    session.step(Event::ConfigInit { ok: true });
    session.step(Event::PictureInit { ok: true });
    session.step(Event::Applied);
    session.step(Event::Imported { ok: true });
    let next = session.step(Event::Encoded { ok: false, error_code: 7, size: 0 });
    assert_eq!(next, Action::FreePicture);
    let next = session.step(Event::PictureFreed);
    assert_eq!(next, Action::ClearWriter);
    session.step(Event::WriterCleared);
    assert_eq!(session.result(), Err(EncodeFailure::EncodeError(7)));
    assert_eq!(session.picture_frees, 1);
    assert_eq!(session.sink_clears, 1);
}

#[test]
fn zero_size_success_is_not_a_success() {
    let cfg = config(true, 100, 6, false);
    let pixels: Vec<u8> = vec![0; 12];
    let (mut session, _) = Encoder::from_rgb(cfg, &pixels, 2, 2).encode();
    session.step(Event::ConfigInit { ok: true });
    session.step(Event::PictureInit { ok: true });
    session.step(Event::Applied);
    session.step(Event::Imported { ok: true });
    session.step(Event::Encoded { ok: true, error_code: 0, size: 0 });
    session.step(Event::PictureFreed);
    session.step(Event::WriterCleared);
    assert_eq!(session.result(), Err(EncodeFailure::EncodeError(0)));
}

#[test]
fn from_image_classifies_each_source() {
    let cfg = config(true, 100, 6, false);
    let rgb: Vec<u8> = vec![0; 12];
    let enc = Encoder::from_image(cfg, SourceImage::Rgb8 { bytes: &rgb, width: 2, height: 2 });
    assert!(matches!(enc.layout, PixelLayout::RGB));
    assert_eq!(enc.width, 2);
    assert_eq!(enc.height, 2);

    let rgba: Vec<u8> = vec![0; 16];
    let enc = Encoder::from_image(cfg, SourceImage::Rgba8 { bytes: &rgba, width: 2, height: 2 });
    assert!(matches!(enc.layout, PixelLayout::RGBA));

    let raw: Vec<u8> = vec![0; 8];
    let converted: Vec<u8> = vec![5; 16];
    let enc = Encoder::from_image(
        cfg,
        SourceImage::Other { bytes: &raw, width: 2, height: 2, rgba: converted.clone() },
    );
    match &enc.layout {
        PixelLayout::Other(v) => assert_eq!(*v, converted),
        other => panic!("wrong layout: {:?}", other),
    }
    assert_eq!(enc.image, raw.as_slice());
}

#[test]
fn bgr_imports_with_three_byte_stride() {
    let cfg = config(false, 50, 0, false);
    let pixels: Vec<u8> = vec![0; 18];
    let enc = Encoder { cfg, layout: PixelLayout::BGR, image: &pixels, width: 3, height: 2 };
    let (mut session, _) = enc.encode();
    session.step(Event::ConfigInit { ok: true });
    session.step(Event::PictureInit { ok: true });
    let next = session.step(Event::Applied);
    assert_eq!(next, Action::Import { layout: ImportLayout::BGR, stride: 9 });
}

#[test]
fn bgra_imports_with_four_byte_stride() {
    let cfg = config(false, 50, 0, false);
    let pixels: Vec<u8> = vec![0; 24];
    let enc = Encoder { cfg, layout: PixelLayout::BGRA, image: &pixels, width: 3, height: 2 };
    let (mut session, _) = enc.encode();
    session.step(Event::ConfigInit { ok: true });
    session.step(Event::PictureInit { ok: true });
    let next = session.step(Event::Applied);
    assert_eq!(next, Action::Import { layout: ImportLayout::BGRA, stride: 12 });
}
