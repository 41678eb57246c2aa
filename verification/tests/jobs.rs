use idle_render::av1;
use idle_render::cli::{Args, CliContainer, CliFormat};
use idle_render::encode::EncodeBackend;
use idle_render::error::RenderError;
use idle_render::job_spec::{default_crf, default_fps, default_h, default_seed, default_true, default_w, parse_container, parse_format, JobSpec};
use idle_render::models::{frames_for_duration, Container, OutputFormat};
use idle_render::png_frame::{bgra_to_rgba, encode_bgra_frame_to_png, PNG_SIGNATURE};
use idle_render::snapshot::compare;
use idle_render::Duration;

fn spec() -> JobSpec {
    JobSpec {
        effect: "ripple".into(),
        plugin_path: None,
        seed: 7,
        fps: 24,
        duration: "2m".into(),
        output: "/tmp/o.mkv".into(),
        width: 320,
        height: 200,
        cols: None,
        rows: None,
        dry_run: false,
        raw: false,
        segment: Some("30s".into()),
        audio: None,
        resume: false,
        crf: 30,
        preset: None,
        encoder: None,
        prefer_hw: true,
        gpu_upscale: true,
        format: None,
        container: None,
        baseline_dir: None,
        snapshot_last_only: false,
        update_baselines: false,
        cpu_raster: false,
    }
}

fn args() -> Args {
    Args {
        job_file: None,
        effect: Some("beams".into()),
        plugin_path: None,
        seed: 0x00C0_FFEE,
        fps: 30,
        duration: "10s".into(),
        segment: None,
        audio: None,
        output: Some("out.mkv".into()),
        width: 1280,
        height: 720,
        cols: None,
        rows: None,
        dry_run: false,
        raw: false,
        resume: false,
        crf: 35,
        preset: None,
        encoder: None,
        no_hw_encode: false,
        no_gpu_upscale: false,
        format: CliFormat::Mp4,
        container: CliContainer::Mkv,
        stdout_raw: false,
        baseline_dir: None,
        update_baselines: false,
        snapshot_last_only: false,
        cpu_raster: false,
    }
}

#[test]
fn defaults_of_job_files() {
    assert_eq!(default_seed(), 0x00C0_FFEE);
    assert_eq!(default_fps(), 30);
    assert_eq!((default_w(), default_h()), (1280, 720));
    assert_eq!(default_crf(), 35);
    assert!(default_true());
}

#[test]
fn format_and_container_names() {
    assert_eq!(parse_format("PNG-Sequence").unwrap(), OutputFormat::Png);
    assert_eq!(parse_format("video").unwrap(), OutputFormat::Mp4);
    assert_eq!(parse_format("stdout_raw").unwrap(), OutputFormat::Raw);
    assert!(matches!(parse_format("GIF"), Err(RenderError::Job(m)) if m == "unknown format 'gif'"));
    assert_eq!(parse_container("Matroska").unwrap(), Container::Mkv);
    assert!(matches!(parse_container("avi"), Err(RenderError::Job(m)) if m == "unknown container 'avi'"));
}

#[test]
fn job_file_becomes_job() {
    let (job, backend) = spec().into_job().unwrap();
    assert_eq!(job.duration.as_secs(), 120);
    assert_eq!(job.segment.unwrap().as_secs(), 30);
    assert_eq!(job.format, OutputFormat::Mp4);
    assert_eq!(job.container, Container::Mkv);
    assert_eq!(backend, EncodeBackend::FfmpegAv1);
    assert_eq!(job.frame_count(), 120 * 24);
    let mut mp4 = spec();
    mp4.container = Some("MP4".into());
    assert_eq!(mp4.into_job().unwrap().1, EncodeBackend::FfmpegH264);
    let mut raw = spec();
    raw.raw = true;
    raw.format = Some("png".into());
    let (j, b) = raw.into_job().unwrap();
    assert_eq!(j.format, OutputFormat::Raw);
    assert_eq!(b, EncodeBackend::StdoutRaw);
    let mut dry = spec();
    dry.dry_run = true;
    assert_eq!(dry.into_job().unwrap().1, EncodeBackend::RawDump);
}

#[test]
fn job_file_errors_in_order() {
    let mut s = spec();
    s.duration = "0".into();
    s.format = Some("gif".into());
    assert!(matches!(s.clone().into_job(), Err(RenderError::Duration(_))));
    s.duration = "1s".into();
    assert!(matches!(s.clone().into_job(), Err(RenderError::Job(m)) if m == "unknown format 'gif'"));
    s.format = None;
    s.audio = Some("../bed.wav".into());
    assert!(matches!(s.into_job(), Err(RenderError::Job(m)) if m == "audio must not contain '..' path components"));
}

#[test]
fn command_line_becomes_job() {
    let (job, backend) = args().into_job(None).unwrap();
    assert_eq!(job.effect, "beams");
    assert!(job.prefer_hw && job.gpu_upscale);
    assert_eq!(backend, EncodeBackend::FfmpegAv1);
    let mut a = args();
    a.format = CliFormat::Raw;
    assert_eq!(a.into_job(None).unwrap().1, EncodeBackend::StdoutRaw);
    let mut a = args();
    a.container = CliContainer::Mp4;
    a.no_hw_encode = true;
    let (j, b) = a.into_job(None).unwrap();
    assert!(!j.prefer_hw);
    assert_eq!(b, EncodeBackend::FfmpegH264);
    let mut a = args();
    a.format = CliFormat::Png;
    assert_eq!(a.into_job(None).unwrap().1, EncodeBackend::PngSequence);
}

#[test]
fn command_line_requirements() {
    let mut a = args();
    a.effect = None;
    assert!(matches!(a.into_job(None), Err(RenderError::Job(m)) if m == "--effect required without --job-file"));
    let mut a = args();
    a.output = None;
    assert!(matches!(a.clone().into_job(None), Err(RenderError::Job(m)) if m == "--output required without --job-file (unless --dry-run)"));
    a.dry_run = true;
    let (job, backend) = a.into_job(None).unwrap();
    assert_eq!(job.output, "dry-run.mkv");
    assert_eq!(backend, EncodeBackend::RawDump);
    let mut a = args();
    a.effect = None;
    a.job_file = Some("job.json".into());
    let (job, _) = a.into_job(Some(spec())).unwrap();
    assert_eq!(job.effect, "ripple");
}

#[test]
fn encode_settings_follow_the_job() {
    let mut s = spec();
    s.preset = Some("p6".into());
    s.encoder = Some("av1_nvenc".into());
    let (job, _) = s.into_job().unwrap();
    let e = job.encode_settings();
    assert_eq!(e.crf, 30);
    assert_eq!(e.preset.as_deref(), Some("p6"));
    assert_eq!(e.encoder.as_deref(), Some("av1_nvenc"));
    assert!(e.prefer_hw);
}

#[test]
fn frames_at_least_one_and_saturating() {
    assert_eq!(frames_for_duration(Duration::from_secs(2), 30), 60);
    assert_eq!(frames_for_duration(Duration::from_secs(5), 0), 1);
    assert_eq!(frames_for_duration(Duration::from_secs(u64::MAX), 2), u64::MAX);
}

#[test]
fn av1_front_end_job() {
    let a = av1::Args {
        effect: "storm".into(),
        plugin_path: None,
        seed: 1,
        fps: 60,
        duration: "3s".into(),
        segment: None,
        audio: None,
        output: "a.mkv".into(),
        width: 64,
        height: 64,
        cols: None,
        rows: None,
        dry_run: false,
        raw: false,
        resume: false,
        crf: 35,
        preset: None,
        encoder: None,
    };
    let (job, backend) = a.clone().into_job().unwrap();
    assert_eq!(job.frame_count(), 180);
    assert_eq!(backend, av1::EncodeBackend::FfmpegAv1);
    let mut r = a.clone();
    r.raw = true;
    assert_eq!(r.into_job().unwrap().1, av1::EncodeBackend::RawDump);
    let mut bad = a;
    bad.output = "../x.mkv".into();
    assert!(matches!(bad.into_job(), Err(RenderError::Job(_))));
}

#[test]
fn png_encoder_is_deterministic() {
    let pixels = 16 * 16;
    let bgra: Vec<u8> = (0..(pixels * 4) as u32).map(|i| (i % 251) as u8).collect();
    let a = encode_bgra_frame_to_png(16, 16, &bgra).unwrap();
    let b = encode_bgra_frame_to_png(16, 16, &bgra).unwrap();
    assert_eq!(a, b, "PNG encoder is not byte-deterministic");
    assert_eq!(&a[..8], &[0x89, b'P', b'N', b'G', 0x0D, 0x0A, 0x1A, 0x0A]);
    assert_eq!(&a[..8], &PNG_SIGNATURE);
}

#[test]
fn png_frames_hold_rgba_pixels() {
    assert_eq!(bgra_to_rgba(&[1, 2, 3, 4, 5, 6, 7, 8, 9]), vec![3, 2, 1, 4, 7, 6, 5, 8, 9]);
    let frame = encode_bgra_frame_to_png(1, 1, &[10, 20, 30, 255]).unwrap();
    let decoder = png::Decoder::new(frame.as_slice());
    let mut reader = decoder.read_info().unwrap();
    let mut buf = vec![0u8; reader.output_buffer_size()];
    let info = reader.next_frame(&mut buf).unwrap();
    assert_eq!(&buf[..info.buffer_size()], &[30, 20, 10, 255]);
    assert!(compare("a.png", "b.png", true, Ok(frame.clone()), Ok(frame)).is_ok());
    assert!(matches!(encode_bgra_frame_to_png(2, 2, &[0; 4]), Err(RenderError::Raster(_))));
    assert!(matches!(encode_bgra_frame_to_png(0, 5, &[]), Err(RenderError::Raster(_))));
}
