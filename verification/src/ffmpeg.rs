//! Which FFmpeg is used.
use vstd::prelude::*;
use vstd::string::*;
use crate::platform;
use crate::platform::Os;
use crate::text;

verus! {

/// The FFmpeg that was found.
#[derive(Debug)]
pub struct FfmpegInfo {
    pub available: bool,
    pub path: Option<String>,
    pub source: String,
}

/// What was found by its contents.
pub struct FfmpegView {
    pub available: bool,
    pub path: Option<Seq<char>>,
    pub source: Seq<char>,
}

impl View for FfmpegInfo {
    type V = FfmpegView;

    open spec fn view(&self) -> FfmpegView {
        FfmpegView {
            available: self.available,
            path: text::opt_text(self.path),
            source: self.source@,
        }
    }
}

/// A usable FFmpeg at a path.
pub open spec fn found(path: Seq<char>, source: Seq<char>) -> FfmpegView {
    FfmpegView { available: true, path: Some(path), source }
}

/// No usable FFmpeg.
pub open spec fn absent(source: Seq<char>) -> FfmpegView {
    FfmpegView { available: false, path: None, source }
}

fn found_at(path: String, source: &str) -> (r: FfmpegInfo)
    ensures
        r@ == found(path@, source@),
{
    FfmpegInfo { available: true, path: Some(path), source: source.to_owned() }
}

/// The file name of FFmpeg.
pub fn ffmpeg_name(os: Os) -> (r: String)
    ensures
        r@ == platform::program_name(os, "ffmpeg"@),
{
    platform::binary_name(os, "ffmpeg")
}

/// The file name of ffprobe, which has to be there too.
pub fn ffprobe_name(os: Os) -> (r: String)
    ensures
        r@ == platform::program_name(os, "ffprobe"@),
{
    platform::binary_name(os, "ffprobe")
}

/// Whether a directory holds a working FFmpeg: both programs are files, and
/// both run.
pub fn validate_ffmpeg_dir(
    ffmpeg_is_file: bool,
    ffprobe_is_file: bool,
    ffmpeg_runs: bool,
    ffprobe_runs: bool,
) -> (r: bool)
    ensures
        r == (ffmpeg_is_file && ffprobe_is_file && ffmpeg_runs && ffprobe_runs),
        r ==> ffmpeg_is_file && ffmpeg_runs,
        r ==> ffprobe_is_file && ffprobe_runs,
{
    ffmpeg_is_file && ffprobe_is_file && ffmpeg_runs && ffprobe_runs
}

/// A path, and whether the directory it lies in holds a working FFmpeg.
#[derive(Debug)]
pub struct FfmpegCandidate {
    pub path: String,
    pub works: bool,
}

/// A candidate's path, if it works.
pub open spec fn working(c: Option<FfmpegCandidate>) -> Option<Seq<char>> {
    match c {
        Some(candidate) => if candidate.works {
            Some(candidate.path@)
        } else {
            None
        },
        None => None,
    }
}

/// The FFmpeg to use: the user's own choice before the bundled one, and that
/// before the one on the search path.
pub open spec fn chosen(
    user: Option<Seq<char>>,
    bundled: Option<Seq<char>>,
    on_path: Option<Seq<char>>,
) -> FfmpegView {
    match (user, bundled, on_path) {
        (Some(p), _, _) => found(p, "user"@),
        (None, Some(p), _) => found(p, "bundled"@),
        (None, None, Some(p)) => found(p, "path"@),
        (None, None, None) => absent("missing"@),
    }
}

/// Chooses the FFmpeg to use.
pub fn check_ffmpeg_info(
    user: Option<FfmpegCandidate>,
    bundled: Option<String>,
    on_path: Option<FfmpegCandidate>,
) -> (r: FfmpegInfo)
    ensures
        r@ == chosen(working(user), text::opt_text(bundled), working(on_path)),
{
    if let Some(c) = user {
        if c.works {
            return found_at(c.path, "user");
        }
    }
    if let Some(path) = bundled {
        return found_at(path, "bundled");
    }
    if let Some(c) = on_path {
        if c.works {
            return found_at(c.path, "path");
        }
    }
    FfmpegInfo { available: false, path: None, source: "missing".to_owned() }
}

/// Whether an FFmpeg is usable.
pub fn check_ffmpeg(info: &FfmpegInfo) -> (r: bool)
    ensures
        r == info@.available,
{
    info.available
}

/// What is told where the search for FFmpeg itself broke off.
pub fn check_failed() -> (r: FfmpegInfo)
    ensures
        r@ == absent("check failed"@),
{
    FfmpegInfo { available: false, path: None, source: "check failed".to_owned() }
}

/// The FFmpeg path that the user chose, if any.
#[derive(Debug)]
pub struct FfmpegOverride {
    pub path: Option<String>,
}

impl View for FfmpegOverride {
    type V = Option<Seq<char>>;

    open spec fn view(&self) -> Option<Seq<char>> {
        text::opt_text(self.path)
    }
}

impl FfmpegOverride {
    /// No choice.
    pub fn new() -> (r: Self)
        ensures
            r@ is None,
    {
        FfmpegOverride { path: None }
    }
}

/// What the path that the user chose leads to.
#[derive(Debug, Clone, Copy, PartialEq, Eq, Structural)]
pub enum ChosenPath {
    /// It is not a file.
    NotAFile,
    /// It has no parent directory.
    NoParent,
    /// It is a file; the flag says whether its directory holds a working FFmpeg.
    InDirectory(bool),
}

/// Why a choice is refused; `None` where it is accepted.
pub open spec fn choice_error(path: Seq<char>, leads_to: ChosenPath) -> Option<Seq<char>> {
    match leads_to {
        ChosenPath::NotAFile => Some("FFmpeg not found: "@ + text::trimmed(path)),
        ChosenPath::NoParent => Some("Selected file does not have a parent directory"@),
        ChosenPath::InDirectory(works) => if works {
            None
        } else {
            Some("Selected folder must contain both working ffmpeg and ffprobe"@)
        },
    }
}

/// Takes in the path that the user chose, given what the trimmed path leads to.
pub fn set_ffmpeg_path(choice: &mut FfmpegOverride, path: &str, leads_to: ChosenPath) -> (r: Result<
    FfmpegInfo,
    String,
>)
    ensures
        match (r, choice_error(path@, leads_to)) {
            (Ok(info), None) => {
                &&& info@ == found(text::trimmed(path@), "user"@)
                &&& final(choice)@ == Some(text::trimmed(path@))
            },
            (Err(e), Some(error)) => e@ == error && *final(choice) == *old(choice),
            _ => false,
        },
{
    let p = text::trim(path);
    match leads_to {
        ChosenPath::NotAFile => Err(text::concat2("FFmpeg not found: ", p.as_str())),
        ChosenPath::NoParent => Err("Selected file does not have a parent directory".to_owned()),
        ChosenPath::InDirectory(works) => {
            if !works {
                return Err(
                    "Selected folder must contain both working ffmpeg and ffprobe".to_owned(),
                );
            }
            choice.path = Some(p.clone());
            Ok(found_at(p, "user"))
        },
    }
}

/// Forgets the path that the user chose.
pub fn clear_ffmpeg_override(choice: &mut FfmpegOverride)
    ensures
        final(choice)@ is None,
{
    choice.path = None;
}

/// A choice that is accepted and still works is the FFmpeg that is used next,
/// whatever else is found.
pub proof fn lemma_accepted_choice_is_used(
    path: Seq<char>,
    bundled: Option<Seq<char>>,
    on_path: Option<Seq<char>>,
)
    ensures
        choice_error(path, ChosenPath::InDirectory(true)) is None,
        chosen(Some(text::trimmed(path)), bundled, on_path) == found(
            text::trimmed(path),
            "user"@,
        ),
{
}

/// Which FFmpeg is used: the user's where it works, else the bundled one, else
/// the one on the search path where it works; there is none only where all
/// three fail.
pub proof fn lemma_order_of_choice(
    user: Option<FfmpegCandidate>,
    bundled: Option<Seq<char>>,
    on_path: Option<FfmpegCandidate>,
)
    ensures
        ({
            let r = chosen(working(user), bundled, working(on_path));
            let own = user is Some && user->0.works;
            let other = on_path is Some && on_path->0.works;
            &&& r.available <==> own || bundled is Some || other
            &&& r.available <==> r.path is Some
            &&& own ==> r.path == Some(user->0.path@) && r.source == "user"@
            &&& !own && bundled is Some ==> r.path == bundled && r.source == "bundled"@
            &&& !own && bundled is None && other ==> r.path == Some(on_path->0.path@) && r.source
                == "path"@
            &&& !own && bundled is None && !other ==> r.source == "missing"@
        }),
{
}

/// A choice is accepted exactly if it is a file in a directory that holds a
/// working FFmpeg.
pub proof fn lemma_choices(path: Seq<char>, leads_to: ChosenPath)
    ensures
        choice_error(path, leads_to) is None <==> leads_to == ChosenPath::InDirectory(true),
        choice_error(path, ChosenPath::NotAFile) == Some(
            "FFmpeg not found: "@ + text::trimmed(path),
        ),
        choice_error(path, ChosenPath::NoParent) == Some(
            "Selected file does not have a parent directory"@,
        ),
        choice_error(path, ChosenPath::InDirectory(false)) == Some(
            "Selected folder must contain both working ffmpeg and ffprobe"@,
        ),
{
}

} // verus!
