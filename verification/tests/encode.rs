use idle_render::av1;
use idle_render::encode::{
    detect_av1_encoder, detect_h264_encoder, detection_needed, encode_raw_bgra_to_file, ffmpeg_exit_error,
    ffmpeg_pipe_args, frames_written, is_hardware_encoder, listed_in_ffmpeg, png_frame_name,
    probe_args, probe_quality_args, push_h264_quality_args, push_quality_args,
    stdout_raw_header, EncodeBackend, EncodeSettings, EncodeSink, AV1_CANDIDATES,
    HW_AV1_CANDIDATES, STDOUT_RAW_MAGIC, SW_AV1_CANDIDATES,
};
use idle_render::error::RenderError;
use idle_render::job_spec::select_backend;
use idle_render::models::{Container, OutputFormat};

const ENCODERS: &str = " V....D libx264              libx264 H.264\n V....D h264_nvenc           NVIDIA NVENC H.264\n V....D libsvtav1            SVT-AV1\n V....D av1_nvenc            NVIDIA NVENC av1\n V....D libaom-av1           libaom AV1\n";

fn chars(s: &str) -> Vec<char> {
    s.chars().collect()
}

#[test]
fn encode_candidates_nonempty() {
    assert!(!AV1_CANDIDATES.is_empty());
    assert!(!av1::AV1_CANDIDATES.is_empty());
}

#[test]
fn stdout_raw_header_magic_is_gbri() {
    let bytes = 0x4952_4247u32.to_le_bytes();
    assert_eq!(&bytes, b"GBRI");
    assert_eq!(&STDOUT_RAW_MAGIC.to_le_bytes(), b"GBRI");
}

#[test]
fn encode_select_candidates_nonempty() {
    assert!(!SW_AV1_CANDIDATES.is_empty());
    assert!(!HW_AV1_CANDIDATES.is_empty());
}

#[test]
fn default_prefers_hw() {
    assert!(EncodeSettings::default().prefer_hw);
    assert_eq!(EncodeSettings::default().crf, 35);
}

#[test]
fn hardware_classifier() {
    assert!(is_hardware_encoder("av1_nvenc"));
    assert!(is_hardware_encoder("h264_nvenc"));
    assert!(!is_hardware_encoder("libsvtav1"));
    assert!(!is_hardware_encoder("libx264"));
}

#[test]
fn nvenc_quality_uses_cq() {
    let s = EncodeSettings {
        crf: 30,
        preset: Some("p5".into()),
        encoder: None,
        prefer_hw: true,
    };
    let mut args: Vec<String> = vec!["-c:v".into(), "av1_nvenc".into()];
    push_quality_args(&mut args, "av1_nvenc", &s);
    assert!(args.iter().any(|a| a == "-cq"));
    assert!(args.iter().any(|a| a == "30"));
    assert!(args.iter().any(|a| a == "p5"));
}

#[test]
fn software_quality_uses_crf() {
    let s = EncodeSettings::default();
    let mut args = Vec::new();
    push_quality_args(&mut args, "libsvtav1", &s);
    assert!(args.iter().any(|a| a == "-crf"));
}

#[test]
fn default_crf() {
    assert_eq!(av1::EncodeSettings::default().crf, 35);
}

#[test]
fn mp4_container_uses_h264() {
    assert_eq!(select_backend(OutputFormat::Mp4, Container::Mp4, false, false), EncodeBackend::FfmpegH264);
    assert_eq!(select_backend(OutputFormat::Mp4, Container::Mkv, false, false), EncodeBackend::FfmpegAv1);
    assert_eq!(select_backend(OutputFormat::Png, Container::Mkv, false, false), EncodeBackend::PngSequence);
    assert_eq!(select_backend(OutputFormat::Raw, Container::Mkv, false, false), EncodeBackend::RawDump);
}

#[test]
fn backend_for_dry_runs_and_stdout() {
    assert_eq!(select_backend(OutputFormat::Mp4, Container::Mp4, true, false), EncodeBackend::RawDump);
    assert_eq!(select_backend(OutputFormat::Raw, Container::Mp4, false, true), EncodeBackend::StdoutRaw);
    assert_eq!(select_backend(OutputFormat::Png, Container::Mp4, true, true), EncodeBackend::PngSequence);
}

#[test]
fn quality_args_per_family() {
    let plain = EncodeSettings { crf: 28, preset: None, encoder: None, prefer_hw: true };
    let with_preset = EncodeSettings { crf: 28, preset: Some("7".into()), encoder: None, prefer_hw: true };
    let run = |enc: &str, s: &EncodeSettings| {
        let mut a = Vec::new();
        push_quality_args(&mut a, enc, s);
        a
    };
    assert_eq!(run("av1_nvenc", &plain), vec!["-rc", "vbr", "-cq", "28", "-preset", "p4"]);
    assert_eq!(run("av1_qsv", &plain), vec!["-global_quality", "28"]);
    assert_eq!(run("av1_qsv", &with_preset), vec!["-global_quality", "28", "-preset", "7"]);
    assert_eq!(run("av1_amf", &with_preset), vec!["-rc", "cqp", "-qp_i", "28", "-qp_p", "28", "-quality", "7"]);
    assert_eq!(run("libsvtav1", &with_preset), vec!["-crf", "28", "-preset", "7"]);
    let mut h = Vec::new();
    push_h264_quality_args(&mut h, "h264_qsv", &with_preset);
    assert_eq!(h, vec!["-crf", "28", "-preset", "7"]);
    let mut n = Vec::new();
    push_h264_quality_args(&mut n, "h264_nvenc", &plain);
    assert_eq!(n, vec!["-rc", "vbr", "-cq", "28", "-preset", "p4"]);
}

#[test]
fn probe_flags_per_family() {
    assert_eq!(probe_quality_args("av1_nvenc"), vec!["-rc", "vbr", "-cq", "40", "-preset", "p1"]);
    assert_eq!(probe_quality_args("h264_qsv"), vec!["-global_quality", "40"]);
    assert_eq!(probe_quality_args("av1_amf"), vec!["-rc", "cqp", "-qp_i", "40", "-qp_p", "40"]);
    assert_eq!(probe_quality_args("libx264"), vec!["-crf", "40", "-preset", "12"]);
    let a = probe_args("libsvtav1");
    assert_eq!(a[..6], ["-hide_banner", "-loglevel", "error", "-f", "lavfi", "-i"]);
    assert_eq!(a.last().unwrap(), "-");
    assert!(a.iter().any(|x| x == "libsvtav1"));
}

#[test]
fn listed_matches_second_column_only() {
    assert!(listed_in_ffmpeg(&chars(ENCODERS), &chars("libsvtav1")));
    assert!(!listed_in_ffmpeg(&chars(ENCODERS), &chars("SVT-AV1")));
    assert!(!listed_in_ffmpeg(&chars(ENCODERS), &chars("librav1e")));
    assert!(!listed_in_ffmpeg(&chars("libsvtav1\n"), &chars("libsvtav1")));
}

#[test]
fn detection_prefers_hardware_when_it_works() {
    let all = |_: &str| true;
    assert_eq!(detect_av1_encoder(ENCODERS, true, &all).unwrap(), "av1_nvenc");
    assert_eq!(detect_av1_encoder(ENCODERS, false, &all).unwrap(), "libsvtav1");
    let no_hw = |n: &str| !is_hardware_encoder(n);
    assert_eq!(detect_av1_encoder(ENCODERS, true, &no_hw).unwrap(), "libsvtav1");
    assert_eq!(detect_h264_encoder(ENCODERS, true, &all).unwrap(), "h264_nvenc");
    assert_eq!(detect_h264_encoder(ENCODERS, true, &no_hw).unwrap(), "libx264");
    let only_hw = |n: &str| is_hardware_encoder(n);
    assert_eq!(detect_av1_encoder(ENCODERS, false, &only_hw).unwrap(), "av1_nvenc");
}

#[test]
fn detection_fails_when_nothing_works() {
    let none = |_: &str| false;
    assert!(matches!(detect_av1_encoder(ENCODERS, true, &none), Err(RenderError::Ffmpeg(_))));
    assert!(matches!(detect_h264_encoder("", false, &|_: &str| true), Err(RenderError::Ffmpeg(m)) if m == "no working H.264 encoder"));
}

#[test]
fn pipe_args_layout() {
    let s = EncodeSettings { crf: 35, preset: None, encoder: None, prefer_hw: true };
    let a = ffmpeg_pipe_args(&s, "libsvtav1", 640, 360, 24, "/tmp/o.mkv", true);
    let want: Vec<&str> = vec![
        "-hide_banner", "-loglevel", "error", "-y", "-f", "rawvideo", "-pix_fmt", "bgra", "-s",
        "640x360", "-r", "24", "-i", "-", "-an", "-c:v", "libsvtav1", "-crf", "35", "-pix_fmt",
        "yuv420p", "/tmp/o.mkv",
    ];
    assert_eq!(a, want);
}

#[test]
fn raw_header_bytes() {
    let h = stdout_raw_header(64, 32, 30);
    assert_eq!(h, vec![64, 0, 0, 0, 32, 0, 0, 0, 30, 0, 0, 0, b'G', b'B', b'R', b'I']);
    let w = stdout_raw_header(0x0102_0304, 1, 1);
    assert_eq!(&w[..4], &[4, 3, 2, 1]);
}

#[test]
fn png_frame_names_are_padded() {
    assert_eq!(png_frame_name(0), "frame0001.png");
    assert_eq!(png_frame_name(41), "frame0042.png");
    assert_eq!(png_frame_name(9999), "frame10000.png");
    assert_eq!(png_frame_name(1_234_566), "frame1234567.png");
}

#[test]
fn sinks_per_backend() {
    let s = EncodeSettings::default();
    let probe = |_: &str| true;
    assert_eq!(
        encode_raw_bgra_to_file(EncodeBackend::RawDump, &s, 8, 8, 30, "/tmp/o.bgra", "", &probe).unwrap(),
        EncodeSink::RawFile { path: "/tmp/o.bgra".into() }
    );
    assert_eq!(
        encode_raw_bgra_to_file(EncodeBackend::PngSequence, &s, 8, 8, 30, "/tmp/frames", "", &probe).unwrap(),
        EncodeSink::PngDir { dir: "/tmp/frames".into() }
    );
    match encode_raw_bgra_to_file(EncodeBackend::StdoutRaw, &s, 8, 8, 30, "-", "", &probe).unwrap() {
        EncodeSink::Stdout { header } => assert_eq!(header, stdout_raw_header(8, 8, 30)),
        other => panic!("unexpected {other:?}"),
    }
    match encode_raw_bgra_to_file(EncodeBackend::FfmpegH264, &s, 8, 8, 30, "/tmp/o.mp4", ENCODERS, &probe).unwrap() {
        EncodeSink::Ffmpeg { encoder, args } => {
            assert_eq!(encoder, "h264_nvenc");
            assert_eq!(args.last().unwrap(), "/tmp/o.mp4");
        }
        other => panic!("unexpected {other:?}"),
    }
    let forced = EncodeSettings { crf: 20, preset: None, encoder: Some("libaom-av1".into()), prefer_hw: true };
    match encode_raw_bgra_to_file(EncodeBackend::FfmpegAv1, &forced, 8, 8, 30, "/tmp/o.mkv", "", &|_: &str| false).unwrap() {
        EncodeSink::Ffmpeg { encoder, args } => {
            assert_eq!(encoder, "libaom-av1");
            assert!(args.iter().any(|a| a == "20"));
        }
        other => panic!("unexpected {other:?}"),
    }
    assert!(encode_raw_bgra_to_file(EncodeBackend::FfmpegAv1, &s, 8, 8, 30, "/tmp/o.mkv", ENCODERS, &|_: &str| false).is_err());
}

#[test]
fn detection_only_for_unforced_ffmpeg() {
    let s = EncodeSettings::default();
    let forced = EncodeSettings { encoder: Some("libx264".into()), ..EncodeSettings::default() };
    assert_eq!(detection_needed(EncodeBackend::FfmpegAv1, &s), Some(true));
    assert_eq!(detection_needed(EncodeBackend::FfmpegH264, &s), Some(false));
    assert_eq!(detection_needed(EncodeBackend::FfmpegH264, &forced), None);
    assert_eq!(detection_needed(EncodeBackend::PngSequence, &s), None);
}

#[test]
fn empty_encode_is_an_error() {
    assert!(matches!(frames_written(0), Err(RenderError::EmptyOutput)));
    assert_eq!(frames_written(3).unwrap(), 3);
}

#[test]
fn av1_front_end_detection_and_args() {
    assert_eq!(av1::detect_av1_encoder("x librav1e y libaom-av1").unwrap(), "libaom-av1");
    assert!(matches!(av1::detect_av1_encoder("nothing here"), Err(RenderError::Ffmpeg(_))));
    let s = av1::EncodeSettings { crf: 30, preset: Some("8".into()), encoder: None };
    let a = av1::av1_pipe_args(&s, "libsvtav1", 320, 200, 25, "out.mkv");
    assert_eq!(&a[a.len() - 3..], &["-preset".to_string(), "8".to_string(), "out.mkv".to_string()]);
    assert!(a.windows(2).any(|w| w[0] == "-crf" && w[1] == "30"));
}

#[test]
fn ffmpeg_exit_reports_code_encoder_and_stderr() {
    match ffmpeg_exit_error(Some(1), "libsvtav1", "bad") {
        RenderError::Ffmpeg(m) => assert_eq!(m, format!("exit {:?} encoder=libsvtav1: bad", Some(1))),
        other => panic!("unexpected {other:?}"),
    }
    match ffmpeg_exit_error(Some(-11), "x", "") {
        RenderError::Ffmpeg(m) => assert_eq!(m, "exit Some(-11) encoder=x: "),
        other => panic!("unexpected {other:?}"),
    }
    match ffmpeg_exit_error(None, "x", "y") {
        RenderError::Ffmpeg(m) => assert_eq!(m, "exit None encoder=x: y"),
        other => panic!("unexpected {other:?}"),
    }
    match ffmpeg_exit_error(Some(i32::MIN), "x", "") {
        RenderError::Ffmpeg(m) => assert_eq!(m, format!("exit {:?} encoder=x: ", Some(i32::MIN))),
        other => panic!("unexpected {other:?}"),
    }
}

#[test]
fn av1_exit_error_text() {
    match av1::ffmpeg_exit_error(Some(2), "oops") {
        RenderError::Ffmpeg(m) => assert_eq!(m, "exit Some(2): oops"),
        other => panic!("unexpected {other:?}"),
    }
}

#[test]
fn av1_sink_plan() {
    let s = av1::EncodeSettings { crf: 35, preset: None, encoder: None };
    assert_eq!(
        av1::encode_raw_bgra_to_file(av1::EncodeBackend::RawDump, &s, 4, 4, 30, "/tmp/a.bgra", "").unwrap(),
        EncodeSink::RawFile { path: "/tmp/a.bgra".into() }
    );
    match av1::encode_raw_bgra_to_file(av1::EncodeBackend::FfmpegAv1, &s, 4, 4, 30, "/tmp/a.mkv", "libaom-av1 librav1e").unwrap() {
        EncodeSink::Ffmpeg { encoder, args } => {
            assert_eq!(encoder, "libaom-av1");
            assert_eq!(args, av1::av1_pipe_args(&s, "libaom-av1", 4, 4, 30, "/tmp/a.mkv"));
        }
        other => panic!("unexpected {other:?}"),
    }
    assert!(av1::encode_raw_bgra_to_file(av1::EncodeBackend::FfmpegAv1, &s, 4, 4, 30, "/tmp/a.mkv", "").is_err());
}
