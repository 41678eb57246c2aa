use idle_render::error::RenderError;
use idle_render::models::{Container, OutputFormat, RenderJob};
use idle_render::paths::deny_parent_dirs;
use idle_render::pipeline_snapshot::{
    baseline_path_for, evaluate, finish_compare, finish_update, join_path, last_png, run_snapshot,
    scenario_name, SnapshotStep,
};
use idle_render::snapshot::{compare, compare_bytes, SnapshotMismatch, SnapshotOutcome};
use idle_render::Duration;

fn job(format: OutputFormat, container: Container, seed: u64) -> RenderJob {
    RenderJob {
        effect: "beams".into(),
        plugin_path: None,
        seed,
        fps: 30,
        duration: Duration::from_secs(2),
        width: 64,
        height: 64,
        output: "/tmp/out".into(),
        cols: None,
        rows: None,
        dry_run: false,
        segment: None,
        audio: None,
        resume: false,
        crf: 35,
        preset: None,
        encoder: None,
        prefer_hw: true,
        gpu_upscale: true,
        format,
        container,
        baseline_dir: None,
        snapshot_last_only: true,
        update_baselines: false,
        cpu_raster: true,
    }
}

fn png_bytes(rgba: &[u8], w: u32, h: u32) -> Vec<u8> {
    png_of(rgba, w, h, png::ColorType::Rgba, png::BitDepth::Eight)
}

fn png_of(data: &[u8], w: u32, h: u32, color: png::ColorType, depth: png::BitDepth) -> Vec<u8> {
    let mut out = Vec::new();
    {
        let mut enc = png::Encoder::new(&mut out, w, h);
        enc.set_color(color);
        enc.set_depth(depth);
        let mut writer = enc.write_header().expect("header");
        writer.write_image_data(data).expect("data");
    }
    out
}

#[test]
fn accepts_plain() {
    assert!(deny_parent_dirs("/tmp/out.mkv", "output").is_ok());
}

#[test]
fn rejects_dotdot() {
    assert!(deny_parent_dirs("../evil.so", "plugin").is_err());
    assert!(deny_parent_dirs("/tmp/../etc/passwd", "audio").is_err());
}

#[test]
fn dotdot_error_names_the_argument() {
    match deny_parent_dirs("a/../b", "audio") {
        Err(RenderError::Job(m)) => assert_eq!(m, "audio must not contain '..' path components"),
        other => panic!("unexpected {other:?}"),
    }
    assert!(deny_parent_dirs("a/..b/c..", "output").is_ok());
    assert!(deny_parent_dirs("..", "output").is_err());
    assert!(deny_parent_dirs("x/..", "output").is_err());
}

#[test]
fn baseline_path_picks_ext_by_format() {
    let mut j = job(OutputFormat::Png, Container::Mkv, 0xDEAD_BEEF);
    j.baseline_dir = Some("/tmp/baselines".into());
    let p = baseline_path_for(&j).expect("path");
    assert!(p.ends_with(".last.png"));
    assert!(p.contains("beams_seed"));

    let mut j2 = job(OutputFormat::Mp4, Container::Mp4, 0xC0FFEE00);
    j2.baseline_dir = Some("/tmp/baselines".into());
    assert!(baseline_path_for(&j2).unwrap().ends_with(".last.mp4"));

    let mut j3 = job(OutputFormat::Raw, Container::Mkv, 0x12345678);
    j3.baseline_dir = Some("/tmp/baselines".into());
    assert!(baseline_path_for(&j3).unwrap().ends_with(".last.bgra"));
}

#[test]
fn baseline_path_exact() {
    let mut j = job(OutputFormat::Mp4, Container::Mkv, 0xDEAD_BEEF);
    assert_eq!(scenario_name(&j), "beams_seed00000000deadbeef_d2s");
    assert_eq!(baseline_path_for(&j), None);
    j.baseline_dir = Some("/b/".into());
    assert_eq!(baseline_path_for(&j).unwrap(), "/b/beams_seed00000000deadbeef_d2s.last.mkv");
}

#[test]
fn evaluate_skipped_when_no_baseline_dir() {
    let j = job(OutputFormat::Png, Container::Mkv, 1);
    assert!(matches!(evaluate(&j, false), SnapshotStep::Done(SnapshotOutcome::Skipped)));
}

#[test]
fn update_needs_authorization() {
    let mut j = job(OutputFormat::Raw, Container::Mkv, 0xAA00_BB00);
    j.baseline_dir = Some("/tmp/b".into());
    j.update_baselines = true;
    let path = baseline_path_for(&j).unwrap();
    assert_eq!(evaluate(&j, true), SnapshotStep::Update { baseline: path.clone() });
    match evaluate(&j, false) {
        SnapshotStep::Done(SnapshotOutcome::Refused { path: p, reason }) => {
            assert_eq!(p, path);
            assert!(reason.contains("RENDER_FORCE_UPDATE_BASELINES"));
        }
        other => panic!("unexpected {other:?}"),
    }
    j.update_baselines = false;
    assert_eq!(evaluate(&j, true), SnapshotStep::Compare { baseline: path });
}

#[test]
fn byte_equal_passes() {
    compare("a.bgra", "b.bgra", true, Ok(vec![1u8, 2, 3, 4]), Ok(vec![1u8, 2, 3, 4])).expect("eq");
}

#[test]
fn byte_unequal_fails() {
    let e = compare("a.bgra", "b.bgra", true, Ok(vec![1u8, 2, 3, 4]), Ok(vec![1u8, 2, 3, 5])).expect_err("diff");
    assert!(matches!(e, SnapshotMismatch::PixelMismatch { .. }));
    assert_eq!(e, SnapshotMismatch::PixelMismatch { byte_offset: 3, baseline: 5, current: 4 });
    assert_eq!(e.message(), "pixel mismatch at byte 3: baseline 0x05 vs current 0x04");
}

#[test]
fn missing_baseline_surfaces() {
    let e = compare("a.bgra", "absent.bgra", false, Ok(vec![1u8]), Err("gone".into())).expect_err("missing");
    assert!(matches!(e, SnapshotMismatch::MissingBaseline(_)));
}

#[test]
fn png_compare_decodes_to_rgba() {
    let png_a = png_bytes(&[10u8, 20, 30, 255], 1, 1);
    compare("a.png", "b.png", true, Ok(png_a.clone()), Ok(png_a.clone())).expect("png eq");
    let png_b = png_bytes(&[10u8, 20, 31, 255], 1, 1);
    let e = compare("a.png", "b.PNG", true, Ok(png_a.clone()), Ok(png_b)).expect_err("differs");
    assert_eq!(e, SnapshotMismatch::PixelMismatch { byte_offset: 2, baseline: 31, current: 30 });
}

#[test]
fn png_with_different_encoding_still_matches_pixels() {
    let mut a = png_bytes(&[1u8, 2, 3, 4], 1, 1);
    let b = png_bytes(&[1u8, 2, 3, 4], 1, 1);
    // A trailing byte after IEND changes the file but not the pixels.
    a.push(0);
    assert!(compare("a.png", "b.png", true, Ok(a.clone()), Ok(b.clone())).is_ok());
    // Compared as raw bytes, the same files differ in length.
    assert!(matches!(
        compare("a.bin", "b.bin", true, Ok(a), Ok(b)),
        Err(SnapshotMismatch::LengthMismatch { .. })
    ));
}

#[test]
fn undecodable_png_is_an_io_error() {
    let good = png_bytes(&[0u8, 0, 0, 0], 1, 1);
    match compare("cur.png", "base.png", true, Ok(vec![1, 2, 3]), Ok(good.clone())) {
        Err(SnapshotMismatch::Io { path, .. }) => assert_eq!(path, "cur.png"),
        other => panic!("unexpected {other:?}"),
    }
    match compare("cur.png", "base.png", true, Ok(good), Ok(vec![9])) {
        Err(SnapshotMismatch::Io { path, .. }) => assert_eq!(path, "base.png"),
        other => panic!("unexpected {other:?}"),
    }
}

#[test]
fn read_errors_name_the_file() {
    assert_eq!(
        compare("c.bgra", "b.bgra", true, Err("denied".into()), Ok(vec![])),
        Err(SnapshotMismatch::Io { path: "c.bgra".into(), message: "denied".into() })
    );
    assert_eq!(
        compare("c.bgra", "b.bgra", true, Ok(vec![]), Err("eof".into())),
        Err(SnapshotMismatch::Io { path: "b.bgra".into(), message: "eof".into() })
    );
}

#[test]
fn length_checked_before_bytes() {
    assert_eq!(
        compare_bytes(&vec![1, 2], &vec![9, 2, 3]),
        Err(SnapshotMismatch::LengthMismatch { baseline: 3, current: 2 })
    );
    assert_eq!(
        SnapshotMismatch::LengthMismatch { baseline: 3, current: 2 }.message(),
        "baseline length 3 != current length 2"
    );
}

#[test]
fn outcomes_of_update_and_compare() {
    assert_eq!(finish_update("b".into(), Ok(()), Ok(())), SnapshotOutcome::Updated { path: "b".into() });
    assert_eq!(
        finish_update("b".into(), Err("nope".into()), Ok(())),
        SnapshotOutcome::Mismatched { path: "b".into(), reason: "read current: nope".into() }
    );
    assert_eq!(
        finish_update("b".into(), Ok(()), Err("full".into())),
        SnapshotOutcome::Mismatched { path: "b".into(), reason: "write baseline: full".into() }
    );
    assert_eq!(finish_compare("b".into(), Ok(())), SnapshotOutcome::Matched { path: "b".into() });
    assert_eq!(
        finish_compare("b".into(), Err(SnapshotMismatch::MissingBaseline("b".into()))),
        SnapshotOutcome::MissingBaseline { path: "b".into() }
    );
    assert_eq!(
        finish_compare("b".into(), Err(SnapshotMismatch::Io { path: "p".into(), message: "m".into() })),
        SnapshotOutcome::Mismatched { path: "b".into(), reason: "snapshot io error on p: m".into() }
    );
}

#[test]
fn snapshot_file_selection() {
    let names: Vec<String> = vec!["frame0002.png".into(), "notes.txt".into(), "frame0010.png".into(), "zz.png".into(), "frame0003.png".into()];
    assert_eq!(last_png(&names), Some(2));
    let mut j = job(OutputFormat::Png, Container::Mkv, 1);
    assert_eq!(run_snapshot(&j, &names).unwrap(), None);
    j.baseline_dir = Some("/b".into());
    assert_eq!(run_snapshot(&j, &names).unwrap(), Some("/tmp/out/frame0010.png".to_string()));
    assert!(matches!(run_snapshot(&j, &vec!["cover.png".to_string()]), Err(RenderError::Job(_))));
    assert!(matches!(run_snapshot(&j, &vec!["a.txt".to_string()]), Err(RenderError::Job(_))));
    let mut raw = job(OutputFormat::Raw, Container::Mkv, 1);
    raw.baseline_dir = Some("/b".into());
    assert_eq!(run_snapshot(&raw, &vec![]).unwrap(), Some("/tmp/out".to_string()));
}

#[test]
fn join_follows_path_rules() {
    assert_eq!(join_path("/a", "b"), "/a/b");
    assert_eq!(join_path("/a/", "b"), "/a/b");
    assert_eq!(join_path("", "b"), "b");
    assert_eq!(join_path("/a", "/abs"), "/abs");
    for (d, n) in [("/a", "b"), ("/a/", "b.png"), ("rel", "x"), ("/a", "/abs")] {
        let std_join = std::path::Path::new(d).join(n).to_string_lossy().into_owned();
        assert_eq!(join_path(d, n), std_join);
    }
}

#[test]
fn png_layouts_compare_as_rgba8() {
    let rgba = png_bytes(&[100, 100, 100, 255, 7, 7, 7, 255], 2, 1);
    let grey = png_of(&[100, 7], 2, 1, png::ColorType::Grayscale, png::BitDepth::Eight);
    assert!(compare("a.png", "b.png", true, Ok(grey.clone()), Ok(rgba.clone())).is_ok());
    let rgb = png_of(&[100, 100, 100, 7, 7, 7], 2, 1, png::ColorType::Rgb, png::BitDepth::Eight);
    assert!(compare("a.png", "b.png", true, Ok(rgb), Ok(rgba.clone())).is_ok());
    let grey_alpha = png_of(&[100, 255, 7, 128], 2, 1, png::ColorType::GrayscaleAlpha, png::BitDepth::Eight);
    assert_eq!(
        compare("a.png", "b.png", true, Ok(grey_alpha), Ok(rgba.clone())),
        Err(SnapshotMismatch::PixelMismatch { byte_offset: 7, baseline: 255, current: 128 })
    );
    let wide = png_of(&[100, 0, 7, 0], 2, 1, png::ColorType::Grayscale, png::BitDepth::Sixteen);
    assert!(compare("a.png", "b.png", true, Ok(wide), Ok(grey)).is_ok());
}

#[test]
fn update_then_compare_matches() {
    let mut ju = job(OutputFormat::Raw, Container::Mkv, 0xAA00_BB00);
    ju.baseline_dir = Some("/tmp/b".into());
    ju.update_baselines = true;
    let bytes = vec![1u8, 2, 3, 4, 5];
    let baseline = match evaluate(&ju, true) {
        SnapshotStep::Update { baseline } => baseline,
        other => panic!("unexpected {other:?}"),
    };
    assert_eq!(finish_update(baseline.clone(), Ok(()), Ok(())), SnapshotOutcome::Updated { path: baseline.clone() });
    let mut j = ju.clone();
    j.update_baselines = false;
    match evaluate(&j, false) {
        SnapshotStep::Compare { baseline: b } => {
            assert_eq!(b, baseline);
            let verdict = compare("/tmp/out", &b, true, Ok(bytes.clone()), Ok(bytes.clone()));
            assert_eq!(finish_compare(b.clone(), verdict), SnapshotOutcome::Matched { path: b });
        }
        other => panic!("unexpected {other:?}"),
    }
}
