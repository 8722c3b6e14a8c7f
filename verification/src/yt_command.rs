//! The command line that yt-dlp is started with.
use vstd::prelude::*;
use vstd::string::*;
use crate::events;
use crate::events::{EventCategory, EventType, Notice, NoticeView, UiSession, UiView};
use crate::text;
use crate::unicode;
use crate::yt_dlp;

verus! {

/// What yt-dlp is to download, and what is there to help it: whether FFmpeg
/// works, the directory it is in, and whether a JavaScript runtime was found.
#[derive(Debug)]
pub struct YtJob {
    pub url: String,
    pub dir: String,
    pub quality: String,
    pub playlist: bool,
    pub custom_filename: Option<String>,
    pub browser_cookie_source: Option<String>,
    pub ffmpeg_ok: bool,
    pub ffmpeg_location: Option<String>,
    pub node_found: bool,
}

/// A job by its contents.
pub struct JobView {
    pub url: Seq<char>,
    pub dir: Seq<char>,
    pub quality: Seq<char>,
    pub playlist: bool,
    pub custom_filename: Option<Seq<char>>,
    pub browser_cookie_source: Option<Seq<char>>,
    pub ffmpeg_ok: bool,
    pub ffmpeg_location: Option<Seq<char>>,
    pub node_found: bool,
}

impl View for YtJob {
    type V = JobView;

    open spec fn view(&self) -> JobView {
        JobView {
            url: self.url@,
            dir: self.dir@,
            quality: self.quality@,
            playlist: self.playlist,
            custom_filename: text::opt_text(self.custom_filename),
            browser_cookie_source: text::opt_text(self.browser_cookie_source),
            ffmpeg_ok: self.ffmpeg_ok,
            ffmpeg_location: text::opt_text(self.ffmpeg_location),
            node_found: self.node_found,
        }
    }
}

/// The file name pattern for a download without a name of its own.
pub const NAME_PATTERN: &'static str = "%(title).180B [%(id)s].%(ext)s";

/// The browser whose cookies are handed over: Chrome and Edge are the ones
/// that can be.
pub open spec fn cookie_browser(source: Option<Seq<char>>) -> Option<Seq<char>> {
    match source {
        Some(s) => if s == "chrome"@ || s == "edge"@ {
            Some(s)
        } else {
            None
        },
        None => None,
    }
}

/// The arguments that do not depend on formats and networks.
pub open spec fn leading_args(job: JobView) -> Seq<Seq<char>> {
    seq![job.url, "--newline"@, "--progress"@, "--continue"@, "--part"@, "-P"@, job.dir, "-o"@] + seq![
        match job.custom_filename {
            Some(name) => name,
            None => NAME_PATTERN@,
        },
    ] + (if job.playlist {
        seq![]
    } else {
        seq!["--no-playlist"@]
    }) + (match job.ffmpeg_location {
        Some(location) => seq!["--ffmpeg-location"@, location],
        None => seq![],
    }) + yt_dlp::js_runtime_args(job.node_found) + (match cookie_browser(job.browser_cookie_source) {
        Some(browser) => seq!["--cookies-from-browser"@, browser],
        None => seq![],
    })
}

/// The arguments that yt-dlp is started with.
pub open spec fn command_args(job: JobView) -> Seq<Seq<char>> {
    leading_args(job) + yt_dlp::format_args_for(job.quality, job.ffmpeg_ok, job.url)
        + yt_dlp::network_args_of(unicode::lowercase(job.url))
}

/// What the log says of the formats that are asked for.
pub open spec fn format_note(quality: Seq<char>, ffmpeg_ok: bool) -> Seq<char> {
    if !ffmpeg_ok {
        "Using single-file format selection (FFmpeg not available)."@
    } else if text::holds_text(quality, "mkv"@) {
        "Using best-quality format selection with MKV merge output."@
    } else if text::holds_text(quality, "mp3"@) || text::holds_text(quality, "m4a"@) {
        "Using audio extraction mode."@
    } else if quality == "best_mp4"@ {
        "Using H.264 MP4-compatible format selection with merge when needed."@
    } else {
        "Using best-quality MP4 merge format selection."@
    }
}

/// A remark on how the download is made.
pub open spec fn remark(category: EventCategory, title: Seq<char>, details: Seq<char>) -> NoticeView {
    NoticeView::Event {
        event_type: EventType::MetadataUpdated,
        category,
        title,
        details: Some(details),
        update_key: None,
    }
}

/// What the user interface is told before yt-dlp is started.
pub open spec fn preparation_notices(job: JobView, ui: UiView) -> Seq<NoticeView> {
    seq![
        if job.ffmpeg_ok {
            remark(
                EventCategory::Info,
                "FFmpeg detected"@,
                "FFmpeg detected — full quality mode enabled"@,
            )
        } else {
            remark(
                EventCategory::Warn,
                "FFmpeg not found"@,
                "FFmpeg not found. High-quality video+audio merging is disabled; using single-file formats only."@,
            )
        },
    ] + (match cookie_browser(job.browser_cookie_source) {
        Some(browser) => seq![
            remark(
                EventCategory::Info,
                "Browser cookies enabled for this attempt"@,
                "Using --cookies-from-browser "@ + browser,
            ),
        ],
        None => seq![],
    }) + seq![
        remark(
            EventCategory::Info,
            "yt-dlp downloader"@,
            "Using yt-dlp native media transfer progress."@,
        ),
        remark(
            EventCategory::Info,
            "Format selection"@,
            format_note(job.quality, job.ffmpeg_ok),
        ),
        NoticeView::Status { text: "Reading video information..."@, kind: "info"@ },
        events::bare_transfer(ui, "extracting"@),
    ]
}

fn cookie_browser_of(source: &Option<String>) -> (r: Option<&str>)
    ensures
        text::opt_str(r) == cookie_browser(text::opt_text(*source)),
{
    match source {
        Some(s) => if text::same_text(s.as_str(), "chrome") || text::same_text(s.as_str(), "edge") {
            Some(s.as_str())
        } else {
            None
        },
        None => None,
    }
}

fn build_leading_args(job: &YtJob) -> (r: Vec<String>)
    ensures
        text::texts(r@) == leading_args(job@),
{
    let mut args: Vec<String> = Vec::new();
    text::push_texts(
        &mut args,
        &[
            job.url.as_str(),
            "--newline",
            "--progress",
            "--continue",
            "--part",
            "-P",
            job.dir.as_str(),
            "-o",
        ],
    );
    match &job.custom_filename {
        Some(name) => text::push_text(&mut args, name.as_str()),
        None => text::push_text(&mut args, NAME_PATTERN),
    }
    if !job.playlist {
        text::push_text(&mut args, "--no-playlist");
    }
    if let Some(location) = &job.ffmpeg_location {
        text::push_texts(&mut args, &["--ffmpeg-location", location.as_str()]);
    }
    yt_dlp::append_js_runtime_args(&mut args, job.node_found);
    if let Some(browser) = cookie_browser_of(&job.browser_cookie_source) {
        text::push_texts(&mut args, &["--cookies-from-browser", browser]);
    }
    assert(text::texts(args@) =~= leading_args(job@));
    args
}

/// Builds the arguments that yt-dlp is started with.
pub fn yt_dlp_command_args(job: &YtJob) -> (r: Vec<String>)
    ensures
        text::texts(r@) == command_args(job@),
{
    let mut args = build_leading_args(job);
    yt_dlp::append_format_args(&mut args, job.quality.as_str(), job.ffmpeg_ok, job.url.as_str());
    yt_dlp::append_platform_network_args(&mut args, job.url.as_str());
    args
}

/// What the log says of the formats that are asked for.
pub fn format_description(quality: &str, ffmpeg_ok: bool) -> (r: &'static str)
    ensures
        r@ == format_note(quality@, ffmpeg_ok),
{
    if !ffmpeg_ok {
        "Using single-file format selection (FFmpeg not available)."
    } else if text::contains(quality, "mkv") {
        "Using best-quality format selection with MKV merge output."
    } else if text::contains(quality, "mp3") || text::contains(quality, "m4a") {
        "Using audio extraction mode."
    } else if text::same_text(quality, "best_mp4") {
        "Using H.264 MP4-compatible format selection with merge when needed."
    } else {
        "Using best-quality MP4 merge format selection."
    }
}

fn make_remark(category: EventCategory, title: &str, details: &str) -> (r: Notice)
    ensures
        r@ == remark(category, title@, details@),
{
    events::event(EventType::MetadataUpdated, category, title, Some(details.to_owned()), None)
}

/// Tells the user interface how the download is going to be made.
pub fn prepare(job: &YtJob, ui: &UiSession) -> (r: Vec<Notice>)
    ensures
        events::notices(r@) == preparation_notices(job@, ui@),
{
    let mut list: Vec<Notice> = Vec::new();
    if job.ffmpeg_ok {
        list.push(
            make_remark(
                EventCategory::Info,
                "FFmpeg detected",
                "FFmpeg detected — full quality mode enabled",
            ),
        );
    } else {
        list.push(
            make_remark(
                EventCategory::Warn,
                "FFmpeg not found",
                "FFmpeg not found. High-quality video+audio merging is disabled; using single-file formats only.",
            ),
        );
    }
    if let Some(browser) = cookie_browser_of(&job.browser_cookie_source) {
        let used = text::concat2("Using --cookies-from-browser ", browser);
        list.push(
            make_remark(
                EventCategory::Info,
                "Browser cookies enabled for this attempt",
                used.as_str(),
            ),
        );
    }
    list.push(
        make_remark(
            EventCategory::Info,
            "yt-dlp downloader",
            "Using yt-dlp native media transfer progress.",
        ),
    );
    let formats = format_description(job.quality.as_str(), job.ffmpeg_ok);
    list.push(make_remark(EventCategory::Info, "Format selection", formats));
    list.push(events::status("Reading video information...", "info"));
    list.push(events::phase_notice(ui, "extracting"));
    assert(events::notices(list@) =~= preparation_notices(job@, ui@));
    list
}

/// The URL comes first on the command line, and an earlier, partial download is
/// always continued.
pub proof fn lemma_downloads_are_continued(job: JobView)
    ensures
        command_args(job)[0] == job.url,
        command_args(job)[3] == "--continue"@,
        command_args(job)[4] == "--part"@,
{
}

/// The command line says where the file goes and under which name, what FFmpeg
/// and which JavaScript runtime there are, whose cookies are used, and that a
/// playlist is left alone unless it was asked for.
pub proof fn lemma_leading_args(job: JobView)
    ensures
        ({
            let args = leading_args(job);
            let browser = job.browser_cookie_source == Some("chrome"@) || job.browser_cookie_source
                == Some("edge"@);
            &&& args[0] == job.url
            &&& args.contains("--newline"@)
            &&& args.contains("--progress"@)
            &&& args.contains("--continue"@)
            &&& args.contains("--part"@)
            &&& text::followed_by(args, "-P"@, job.dir)
            &&& job.custom_filename matches Some(name) ==> text::followed_by(args, "-o"@, name)
            &&& job.custom_filename is None ==> text::followed_by(
                args,
                "-o"@,
                "%(title).180B [%(id)s].%(ext)s"@,
            )
            &&& !job.playlist ==> args.contains("--no-playlist"@)
            &&& job.ffmpeg_location matches Some(l) ==> text::followed_by(
                args,
                "--ffmpeg-location"@,
                l,
            )
            &&& job.node_found ==> text::followed_by(args, "--js-runtimes"@, "node"@)
            &&& browser ==> (job.browser_cookie_source matches Some(b) && text::followed_by(
                args,
                "--cookies-from-browser"@,
                b,
            ))
            &&& args.len() == 9 + (if job.playlist {
                0int
            } else {
                1
            }) + (if job.ffmpeg_location is Some {
                2int
            } else {
                0
            }) + (if job.node_found {
                2int
            } else {
                0
            }) + (if browser {
                2int
            } else {
                0
            })
        }),
{
    let args = leading_args(job);
    assert(args[1] == "--newline"@);
    assert(args[2] == "--progress"@);
    assert(args[3] == "--continue"@ && args[4] == "--part"@);
    assert(text::stands_behind(args, "-P"@, job.dir, 5));
    assert(text::stands_behind(args, "-o"@, args[8], 7));
    let a: int = if job.playlist {
        9
    } else {
        10
    };
    if !job.playlist {
        assert(args[9] == "--no-playlist"@);
    }
    let b: int = if job.ffmpeg_location is Some {
        a + 2
    } else {
        a
    };
    if let Some(l) = job.ffmpeg_location {
        assert(text::stands_behind(args, "--ffmpeg-location"@, l, a));
    }
    let c: int = if job.node_found {
        b + 2
    } else {
        b
    };
    if job.node_found {
        assert(text::stands_behind(args, "--js-runtimes"@, "node"@, b));
    }
    if let Some(browser) = cookie_browser(job.browser_cookie_source) {
        assert(text::stands_behind(args, "--cookies-from-browser"@, browser, c));
    }
}

/// Behind these arguments come those of the formats, and then those of the
/// platform's network.
pub proof fn lemma_formats_are_asked_for(job: JobView)
    ensures
        ({
            let args = command_args(job);
            let a = leading_args(job).len() as int;
            let formats = yt_dlp::format_args_for(job.quality, job.ffmpeg_ok, job.url);
            let network = yt_dlp::network_args_of(unicode::lowercase(job.url));
            &&& args.take(a) == leading_args(job)
            &&& args.subrange(a, a + formats.len()) == formats
            &&& args.skip(a + formats.len()) == network
        }),
{
    let args = command_args(job);
    let a = leading_args(job).len() as int;
    let formats = yt_dlp::format_args_for(job.quality, job.ffmpeg_ok, job.url);
    assert(args.take(a) =~= leading_args(job));
    assert(args.subrange(a, a + formats.len()) =~= formats);
    assert(args.skip(a + formats.len()) =~= yt_dlp::network_args_of(
        unicode::lowercase(job.url),
    ));
}

/// What is told before the start: whether FFmpeg is there, the browser whose
/// cookies are used, the formats that are asked for, and that the video is
/// being read.
pub proof fn lemma_preparation_is_told(job: JobView, ui: UiView)
    ensures
        ({
            let told = preparation_notices(job, ui);
            let browser = job.browser_cookie_source == Some("chrome"@) || job.browser_cookie_source
                == Some("edge"@);
            let n = told.len() as int;
            &&& told[0] matches NoticeView::Event { category, title, .. }
            &&& job.ffmpeg_ok ==> category == EventCategory::Info && title == "FFmpeg detected"@
            &&& !job.ffmpeg_ok ==> category == EventCategory::Warn && title == "FFmpeg not found"@
            &&& n == 5 + (if browser {
                1int
            } else {
                0
            })
            &&& browser ==> (told[1] matches NoticeView::Event { details, .. } && details == Some(
                "Using --cookies-from-browser "@ + job.browser_cookie_source->0,
            ))
            &&& told[n - 3] matches NoticeView::Event { title, details, .. }
            &&& title == "Format selection"@
            &&& details == Some(format_note(job.quality, job.ffmpeg_ok))
            &&& told[n - 2] == (NoticeView::Status {
                text: "Reading video information..."@,
                kind: "info"@,
            })
            &&& told[n - 1] matches NoticeView::Transfer(t)
            &&& t.phase == "extracting"@
            &&& t.pct == 0
            &&& t.download_id == ui.download_id
        }),
{
}

/// What the log says of the formats agrees with the arguments: MKV is announced
/// for a name with `mkv`, audio for one with `mp3` or `m4a`, and one single file
/// where there is no FFmpeg.
pub proof fn lemma_format_notes(quality: Seq<char>)
    ensures
        format_note(quality, false)
            == "Using single-file format selection (FFmpeg not available)."@,
        text::holds_text(quality, "mkv"@) ==> format_note(quality, true)
            == "Using best-quality format selection with MKV merge output."@,
        !text::holds_text(quality, "mkv"@) && (text::holds_text(quality, "mp3"@)
            || text::holds_text(quality, "m4a"@)) ==> format_note(quality, true)
            == "Using audio extraction mode."@,
        !text::holds_text(quality, "mkv"@) && !text::holds_text(quality, "mp3"@)
            && !text::holds_text(quality, "m4a"@) ==> format_note(quality, true) == (if quality
            == "best_mp4"@ {
            "Using H.264 MP4-compatible format selection with merge when needed."@
        } else {
            "Using best-quality MP4 merge format selection."@
        }),
{
}

} // verus!
