use idle_render::audio::{mux_audio_args, mux_failure, mux_plan, mux_tmp_path};
use idle_render::error::RenderError;

#[test]
fn missing_audio_errors() {
    let r = mux_plan("/tmp/no-video.mkv", "/tmp/definitely-missing-audio-idle-xyz.wav", "/tmp/out.mkv", false);
    assert!(r.is_err());
    match r {
        Err(RenderError::Job(m)) => assert_eq!(m, "audio file not found: /tmp/definitely-missing-audio-idle-xyz.wav"),
        other => panic!("unexpected {other:?}"),
    }
}

#[test]
fn mux_uses_temp_beside_output() {
    assert_eq!(mux_tmp_path("/tmp/out.mkv"), "/tmp/out.mux.tmp.mkv");
    assert_eq!(mux_tmp_path("/tmp/out"), "/tmp/out.mux.tmp.mkv");
    let (tmp, args) = mux_plan("/v.mkv", "/a.wav", "/o/final.mkv", true).unwrap();
    assert_eq!(tmp, "/o/final.mux.tmp.mkv");
    assert_eq!(args, mux_audio_args("/a.wav", "/v.mkv", "/o/final.mux.tmp.mkv"));
    assert_eq!(&args[..9], &["-hide_banner", "-loglevel", "error", "-y", "-stream_loop", "-1", "-i", "/a.wav", "-i"]);
    assert_eq!(args[9], "/v.mkv");
    assert_eq!(args.last().unwrap(), "/o/final.mux.tmp.mkv");
    assert!(args.iter().any(|a| a == "-shortest"));
}

#[test]
fn mux_failure_carries_stderr() {
    match mux_failure("bad codec") {
        RenderError::Ffmpeg(m) => assert_eq!(m, "audio mux failed: bad codec"),
        other => panic!("unexpected {other:?}"),
    }
}
