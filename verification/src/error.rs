//! Error values of the render capability and of the Director.
use vstd::prelude::*;

verus! {

/// Fallible render outcomes.
#[derive(Debug, Clone, PartialEq, Eq)]
pub enum RenderError {
    /// A duration string that does not parse.
    Duration(String),
    /// An invalid job description.
    Job(String),
    /// The saver plugin could not be loaded.
    Plugin(String),
    /// Font or raster support is unavailable.
    Raster(String),
    /// `ffmpeg` is not on `PATH`.
    FfmpegMissing,
    /// `ffmpeg` ran and failed.
    Ffmpeg(String),
    /// An I/O failure on `path`, with the system's message.
    Io { path: String, message: String },
    /// The encode was cancelled or wrote zero frames.
    EmptyOutput,
}

/// The value of a [`RenderError`], its texts taken as character sequences.
pub enum RenderErrorView {
    Duration(Seq<char>),
    Job(Seq<char>),
    Plugin(Seq<char>),
    Raster(Seq<char>),
    FfmpegMissing,
    Ffmpeg(Seq<char>),
    Io { path: Seq<char>, message: Seq<char> },
    EmptyOutput,
}

impl View for RenderError {
    type V = RenderErrorView;

    open spec fn view(&self) -> RenderErrorView {
        match self {
            RenderError::Duration(m) => RenderErrorView::Duration(m@),
            RenderError::Job(m) => RenderErrorView::Job(m@),
            RenderError::Plugin(m) => RenderErrorView::Plugin(m@),
            RenderError::Raster(m) => RenderErrorView::Raster(m@),
            RenderError::FfmpegMissing => RenderErrorView::FfmpegMissing,
            RenderError::Ffmpeg(m) => RenderErrorView::Ffmpeg(m@),
            RenderError::Io { path, message } => RenderErrorView::Io { path: path@, message: message@ },
            RenderError::EmptyOutput => RenderErrorView::EmptyOutput,
        }
    }
}

/// Fallible Director outcomes.
#[derive(Debug, Clone, PartialEq, Eq)]
pub enum StudioError {
    /// An I/O failure on `path`, with the system's message.
    Io { path: String, message: String },
    /// The queue file is not valid JSON.
    Json(String),
    /// The render child failed; carries its output or the reason.
    Render(String),
    /// No `render` binary could be found.
    RenderMissing,
    /// Terminal or queue handling failed.
    Queue(String),
}

/// The value of a [`StudioError`], its texts taken as character sequences.
pub enum StudioErrorView {
    Io { path: Seq<char>, message: Seq<char> },
    Json(Seq<char>),
    Render(Seq<char>),
    RenderMissing,
    Queue(Seq<char>),
}

impl View for StudioError {
    type V = StudioErrorView;

    open spec fn view(&self) -> StudioErrorView {
        match self {
            StudioError::Io { path, message } => StudioErrorView::Io { path: path@, message: message@ },
            StudioError::Json(m) => StudioErrorView::Json(m@),
            StudioError::Render(m) => StudioErrorView::Render(m@),
            StudioError::RenderMissing => StudioErrorView::RenderMissing,
            StudioError::Queue(m) => StudioErrorView::Queue(m@),
        }
    }
}

} // verus!
