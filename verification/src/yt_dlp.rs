//! What yt-dlp is used for, its command line, and the texts it writes.
use vstd::prelude::*;
use vstd::string::*;
use vstd::utf8::*;
use crate::text;
use crate::text::CharClass;
use crate::unicode;

verus! {

/// A text in lower case names YouTube.
pub open spec fn names_youtube(lower: Seq<char>) -> bool {
    text::holds_text(lower, "youtube.com"@) || text::holds_text(lower, "youtu.be"@)
        || text::holds_text(lower, "music.youtube.com"@)
}

/// A text in lower case names a video platform.
pub open spec fn names_platform(lower: Seq<char>) -> bool {
    ||| names_youtube(lower)
    ||| text::holds_text(lower, "twitch.tv"@)
    ||| text::holds_text(lower, "tiktok.com"@)
    ||| text::holds_text(lower, "instagram.com"@)
    ||| text::holds_text(lower, "facebook.com/watch"@)
    ||| text::holds_text(lower, "facebook.com/share/v/"@)
    ||| text::holds_text(lower, "facebook.com/share/r/"@)
    ||| text::holds_text(lower, "facebook.com/reel/"@)
    ||| text::holds_text(lower, "facebook.com/reels/"@)
    ||| text::holds_text(lower, "facebook.com/videos/"@)
    ||| text::holds_text(lower, "fb.watch/"@)
    ||| text::holds_text(lower, "vimeo.com"@)
    ||| text::holds_text(lower, "dailymotion.com"@)
}

/// The URL of an HLS playlist: before its query it ends in `.m3u8`.
pub open spec fn hls_url(url: Seq<char>) -> bool {
    text::finishes_with(
        unicode::lowercase(text::before_first(url, CharClass::Exactly('?'))),
        ".m3u8"@,
    )
}

/// Whether a URL leads to a video platform.
pub fn is_video_platform_url(url: &str) -> (r: bool)
    ensures
        r == names_platform(unicode::lowercase(url@)),
        is_ascii_chars(url@) ==> r == names_platform(text::ascii_lower(url@)),
{
    let lowered = unicode::to_lowercase(url);
    let lower = lowered.as_str();
    text::contains(lower, "youtube.com") || text::contains(lower, "youtu.be") || text::contains(
        lower,
        "music.youtube.com",
    ) || text::contains(lower, "twitch.tv") || text::contains(lower, "tiktok.com")
        || text::contains(lower, "instagram.com") || text::contains(lower, "facebook.com/watch")
        || text::contains(lower, "facebook.com/share/v/") || text::contains(
        lower,
        "facebook.com/share/r/",
    ) || text::contains(lower, "facebook.com/reel/") || text::contains(
        lower,
        "facebook.com/reels/",
    ) || text::contains(lower, "facebook.com/videos/") || text::contains(lower, "fb.watch/")
        || text::contains(lower, "vimeo.com") || text::contains(lower, "dailymotion.com")
}

/// Whether a URL leads to an HLS playlist.
pub fn is_hls_url(url: &str) -> (r: bool)
    ensures
        r == hls_url(url@),
        is_ascii_chars(text::before_first(url@, CharClass::Exactly('?'))) ==> r
            == text::finishes_with(
            text::ascii_lower(text::before_first(url@, CharClass::Exactly('?'))),
            ".m3u8"@,
        ),
{
    let base = text::before_first_of(url, CharClass::Exactly('?'));
    let lower = unicode::to_lowercase(base.as_str());
    text::ends_with(lower.as_str(), ".m3u8")
}

/// Whether a URL leads to YouTube.
pub fn is_youtube_url(url: &str) -> (r: bool)
    ensures
        r == names_youtube(unicode::lowercase(url@)),
        is_ascii_chars(url@) ==> r == names_youtube(text::ascii_lower(url@)),
{
    let lowered = unicode::to_lowercase(url);
    let lower = lowered.as_str();
    text::contains(lower, "youtube.com") || text::contains(lower, "youtu.be") || text::contains(
        lower,
        "music.youtube.com",
    )
}

/// A message in lower case says that YouTube wants browser verification.
pub open spec fn asks_verification(lower: Seq<char>) -> bool {
    text::holds_text(lower, "sign in to confirm"@) || text::holds_text(lower, "not a bot"@)
        || text::holds_text(lower, "--cookies-from-browser"@) || text::holds_text(
        lower,
        "use --cookies-from-browser"@,
    )
}

/// A message in lower case says that browser cookies could not be read.
pub open spec fn cookies_unreadable(lower: Seq<char>) -> bool {
    text::holds_text(lower, "failed to decrypt with dpapi"@) || text::holds_text(
        lower,
        "cookies database"@,
    ) || (text::holds_text(lower, "cookies"@) && text::holds_text(lower, "from-browser"@))
}

/// The message that asks the user to verify with YouTube.
pub const VERIFICATION_MESSAGE: &'static str = "YouTube requires browser verification for this video.";

/// The message that tells the user that browser cookies could not be read.
pub const COOKIES_MESSAGE: &'static str = "yt-dlp could not read browser cookies directly. Open YouTube in your browser while signed in, then retry with Chrome or Edge cookies.";

/// An error message of yt-dlp as it is shown, given the message in lower case.
pub open spec fn shown_error_of(message: Seq<char>, lower: Seq<char>) -> Seq<char> {
    if asks_verification(lower) {
        VERIFICATION_MESSAGE@
    } else if cookies_unreadable(lower) {
        COOKIES_MESSAGE@
    } else {
        message
    }
}

/// An error message of yt-dlp as it is shown.
pub open spec fn shown_error(message: Seq<char>) -> Seq<char> {
    shown_error_of(message, unicode::lowercase(message))
}

/// Whether a message says that YouTube wants browser verification.
pub fn is_youtube_cookie_required_message(message: &str) -> (r: bool)
    ensures
        r == asks_verification(unicode::lowercase(message@)),
        is_ascii_chars(message@) ==> r == asks_verification(text::ascii_lower(message@)),
{
    let lowered = unicode::to_lowercase(message);
    let lower = lowered.as_str();
    text::contains(lower, "sign in to confirm") || text::contains(lower, "not a bot")
        || text::contains(lower, "--cookies-from-browser") || text::contains(
        lower,
        "use --cookies-from-browser",
    )
}

/// Turns an error message of yt-dlp into the one that is shown.
pub fn clean_yt_dlp_error(message: &str) -> (r: String)
    ensures
        r@ == shown_error(message@),
        is_ascii_chars(message@) ==> r@ == shown_error_of(message@, text::ascii_lower(message@)),
        shown_error(r@) == r@,
{
    let lowered = unicode::to_lowercase(message);
    let lower = lowered.as_str();
    if is_youtube_cookie_required_message(message) {
        return own_message(VERIFICATION_MESSAGE);
    }
    if text::contains(lower, "failed to decrypt with dpapi") || text::contains(
        lower,
        "cookies database",
    ) || (text::contains(lower, "cookies") && text::contains(lower, "from-browser")) {
        return own_message(COOKIES_MESSAGE);
    }
    message.to_owned()
}

/// One of the two messages that stand for others; it stands for itself.
fn own_message(message: &str) -> (r: String)
    requires
        message@ == VERIFICATION_MESSAGE@ || message@ == COOKIES_MESSAGE@,
    ensures
        r@ == message@,
        shown_error(message@) == message@,
{
    // The call is what tells the lower case of the message.
    let lower = unicode::to_lowercase(message);
    proof {
        lemma_messages_are_ascii();
        lemma_messages_are_final();
        assert(lower@ == text::ascii_lower(message@));
    }
    message.to_owned()
}

/// A path that yt-dlp wrote, without white space and quotation marks around it.
pub open spec fn cleaned_path(raw: Seq<char>) -> Seq<char> {
    text::trimmed(text::trimmed_of(text::trimmed(raw), CharClass::Quote))
}

/// Cleans a path that yt-dlp wrote.
pub fn clean_yt_dlp_path(raw: &str) -> (r: String)
    ensures
        r@ == cleaned_path(raw@),
{
    let outer = text::trim(raw);
    let inner = text::trim_of(outer.as_str(), CharClass::Quote);
    text::trim(inner.as_str())
}

/// The format arguments of a quality, where FFmpeg can merge streams.
pub open spec fn merge_format_args(quality: Seq<char>, youtube: bool) -> Seq<Seq<char>> {
    if (quality == "best"@ || quality == "best_mp4"@) && youtube {
        seq![
            "-S"@,
            "vcodec:h264,acodec:m4a,res,ext:mp4:m4a"@,
            "-f"@,
            "bv*[ext=mp4]+ba[ext=m4a]/b[ext=mp4]/b"@,
            "--merge-output-format"@,
            "mp4"@,
        ]
    } else if quality == "1080p_mp4"@ {
        seq![
            "-f"@,
            "bestvideo[height<=1080][vcodec^=avc1][ext=mp4]+bestaudio[ext=m4a]/best[height<=1080]"@,
            "--merge-output-format"@,
            "mp4"@,
        ]
    } else if quality == "720p_mp4"@ {
        seq![
            "-f"@,
            "bestvideo[height<=720][vcodec^=avc1][ext=mp4]+bestaudio[ext=m4a]/best[height<=720]"@,
            "--merge-output-format"@,
            "mp4"@,
        ]
    } else if quality == "best_any_mkv"@ {
        seq!["-f"@, "bestvideo+bestaudio/best"@, "--merge-output-format"@, "mkv"@]
    } else if quality == "mp3"@ {
        seq!["-x"@, "--audio-format"@, "mp3"@, "--audio-quality"@, "0"@]
    } else if quality == "m4a"@ {
        seq!["-f"@, "ba[ext=m4a]/ba"@, "--extract-audio"@, "--audio-format"@, "m4a"@]
    } else if quality == "best_mp4"@ {
        seq![
            "-f"@,
            "bestvideo[vcodec^=avc1][ext=mp4]+bestaudio[ext=m4a]/best[ext=mp4]/best"@,
            "--merge-output-format"@,
            "mp4"@,
        ]
    } else {
        seq!["-f"@, "bestvideo+bestaudio/best"@, "--merge-output-format"@, "mp4"@]
    }
}

/// The format arguments of a quality, where no FFmpeg is there.
pub open spec fn single_format_args(quality: Seq<char>) -> Seq<Seq<char>> {
    if quality == "best_single"@ {
        seq!["-f"@, "best"@]
    } else {
        seq!["-f"@, "best[ext=mp4]/best"@]
    }
}

/// The format arguments of a download.
pub open spec fn format_args_for(
    quality: Seq<char>,
    ffmpeg_ok: bool,
    url: Seq<char>,
) -> Seq<Seq<char>> {
    if ffmpeg_ok {
        merge_format_args(quality, names_youtube(unicode::lowercase(url)))
    } else {
        single_format_args(quality)
    }
}

/// Appends the format arguments where FFmpeg can merge streams. For YouTube the
/// codecs that common players read are preferred up front, which spares a slow
/// re-encoding after the download.
pub fn append_merge_format_args(args: &mut Vec<String>, quality: &str, youtube: bool)
    ensures
        text::texts(final(args)@) == text::texts(old(args)@) + merge_format_args(quality@, youtube),
{
    if (text::same_text(quality, "best") || text::same_text(quality, "best_mp4")) && youtube {
        text::push_texts(
            args,
            &[
                "-S",
                "vcodec:h264,acodec:m4a,res,ext:mp4:m4a",
                "-f",
                "bv*[ext=mp4]+ba[ext=m4a]/b[ext=mp4]/b",
                "--merge-output-format",
                "mp4",
            ],
        );
    } else if text::same_text(quality, "1080p_mp4") {
        text::push_texts(
            args,
            &[
                "-f",
                "bestvideo[height<=1080][vcodec^=avc1][ext=mp4]+bestaudio[ext=m4a]/best[height<=1080]",
                "--merge-output-format",
                "mp4",
            ],
        );
    } else if text::same_text(quality, "720p_mp4") {
        text::push_texts(
            args,
            &[
                "-f",
                "bestvideo[height<=720][vcodec^=avc1][ext=mp4]+bestaudio[ext=m4a]/best[height<=720]",
                "--merge-output-format",
                "mp4",
            ],
        );
    } else if text::same_text(quality, "best_any_mkv") {
        text::push_texts(args, &["-f", "bestvideo+bestaudio/best", "--merge-output-format", "mkv"]);
    } else if text::same_text(quality, "mp3") {
        text::push_texts(args, &["-x", "--audio-format", "mp3", "--audio-quality", "0"]);
    } else if text::same_text(quality, "m4a") {
        text::push_texts(args, &["-f", "ba[ext=m4a]/ba", "--extract-audio", "--audio-format", "m4a"]);
    } else if text::same_text(quality, "best_mp4") {
        text::push_texts(
            args,
            &[
                "-f",
                "bestvideo[vcodec^=avc1][ext=mp4]+bestaudio[ext=m4a]/best[ext=mp4]/best",
                "--merge-output-format",
                "mp4",
            ],
        );
    } else {
        text::push_texts(args, &["-f", "bestvideo+bestaudio/best", "--merge-output-format", "mp4"]);
    }
    assert(text::texts(args@) =~= text::texts(old(args)@) + merge_format_args(quality@, youtube));
}

/// Appends the format arguments of a download.
pub fn append_format_args(args: &mut Vec<String>, quality: &str, ffmpeg_ok: bool, url: &str)
    ensures
        text::texts(final(args)@) == text::texts(old(args)@) + format_args_for(
            quality@,
            ffmpeg_ok,
            url@,
        ),
        ffmpeg_ok && is_ascii_chars(url@) ==> text::texts(final(args)@) == text::texts(old(args)@)
            + merge_format_args(quality@, names_youtube(text::ascii_lower(url@))),
{
    if ffmpeg_ok {
        let youtube = is_youtube_url(url);
        append_merge_format_args(args, quality, youtube);
    } else {
        if text::same_text(quality, "best_single") {
            text::push_texts(args, &["-f", "best"]);
        } else {
            text::push_texts(args, &["-f", "best[ext=mp4]/best"]);
        }
        assert(text::texts(args@) =~= text::texts(old(args)@) + single_format_args(quality@));
    }
}

/// The extra network arguments of a platform, given the URL in lower case.
pub open spec fn network_args_of(lower: Seq<char>) -> Seq<Seq<char>> {
    if text::holds_text(lower, "tiktok.com"@) || text::holds_text(lower, "vm.tiktok.com"@)
        || text::holds_text(lower, "vt.tiktok.com"@) {
        seq![
            "--socket-timeout"@,
            "60"@,
            "--retries"@,
            "5"@,
            "--fragment-retries"@,
            "5"@,
            "--force-ipv4"@,
        ]
    } else {
        seq![]
    }
}

/// Appends the extra network arguments of a platform.
pub fn append_platform_network_args(args: &mut Vec<String>, url: &str)
    ensures
        text::texts(final(args)@) == text::texts(old(args)@) + network_args_of(
            unicode::lowercase(url@),
        ),
        is_ascii_chars(url@) ==> text::texts(final(args)@) == text::texts(old(args)@)
            + network_args_of(text::ascii_lower(url@)),
{
    let lowered = unicode::to_lowercase(url);
    let lower = lowered.as_str();
    if text::contains(lower, "tiktok.com") || text::contains(lower, "vm.tiktok.com")
        || text::contains(lower, "vt.tiktok.com") {
        text::push_texts(
            args,
            &[
                "--socket-timeout",
                "60",
                "--retries",
                "5",
                "--fragment-retries",
                "5",
                "--force-ipv4",
            ],
        );
    }
    assert(text::texts(args@) =~= text::texts(old(args)@) + network_args_of(lowered@));
}

/// Appends the argument that hands yt-dlp a JavaScript runtime, where one is
/// on the search path.
pub fn append_js_runtime_args(args: &mut Vec<String>, node_found: bool)
    ensures
        text::texts(final(args)@) == text::texts(old(args)@) + js_runtime_args(node_found),
{
    if node_found {
        text::push_texts(args, &["--js-runtimes", "node"]);
    }
    assert(text::texts(args@) =~= text::texts(old(args)@) + js_runtime_args(node_found));
}

/// The argument that hands yt-dlp a JavaScript runtime.
pub open spec fn js_runtime_args(node_found: bool) -> Seq<Seq<char>> {
    if node_found {
        seq!["--js-runtimes"@, "node"@]
    } else {
        seq![]
    }
}

/// What YouTube is named by names a video platform: whatever is sent to
/// YouTube's own formats is sent to yt-dlp in the first place.
pub proof fn lemma_youtube_is_a_platform(lower: Seq<char>)
    requires
        names_youtube(lower),
    ensures
        names_platform(lower),
{
}

/// A message that asks for verification is shown as nothing else.
pub proof fn lemma_verification_is_shown(message: Seq<char>)
    requires
        asks_verification(unicode::lowercase(message)),
    ensures
        shown_error(message) == VERIFICATION_MESSAGE@,
{
}

/// None of the first `n` characters is `c`.
spec fn lacks(s: Seq<char>, c: char, n: nat) -> bool
    decreases n,
{
    n == 0 || (s[n - 1] != c && lacks(s, c, (n - 1) as nat))
}

/// Among the first `n` characters no `a` is followed by `b`.
spec fn lacks_pair(s: Seq<char>, a: char, b: char, n: nat) -> bool
    decreases n,
{
    n <= 1 || (!(s[n - 2] == a && s[n - 1] == b) && lacks_pair(s, a, b, (n - 1) as nat))
}

/// The first `n` characters are ASCII.
spec fn ascii_up_to(s: Seq<char>, n: nat) -> bool
    decreases n,
{
    n == 0 || (s[n - 1] <= '\x7f' && ascii_up_to(s, (n - 1) as nat))
}

proof fn lemma_lacks(s: Seq<char>, c: char, n: nat, i: int)
    requires
        lacks(s, c, n),
        0 <= i < n,
    ensures
        s[i] != c,
    decreases n,
{
    if i < n - 1 {
        lemma_lacks(s, c, (n - 1) as nat, i);
    }
}

proof fn lemma_lacks_pair(s: Seq<char>, a: char, b: char, n: nat, i: int)
    requires
        lacks_pair(s, a, b, n),
        0 <= i < n - 1,
    ensures
        !(s[i] == a && s[i + 1] == b),
    decreases n,
{
    if i < n - 2 {
        lemma_lacks_pair(s, a, b, (n - 1) as nat, i);
    }
}

proof fn lemma_ascii_up_to(s: Seq<char>, n: nat, i: int)
    requires
        ascii_up_to(s, n),
        0 <= i < n,
    ensures
        s[i] <= '\x7f',
    decreases n,
{
    if i < n - 1 {
        lemma_ascii_up_to(s, (n - 1) as nat, i);
    }
}

/// A text that lacks a letter, small and capital, holds in lower case no text
/// that has the letter at index `j`.
proof fn lemma_not_held(s: Seq<char>, pat: Seq<char>, small: char, capital: char, j: int)
    requires
        lacks(s, small, s.len()),
        lacks(s, capital, s.len()),
        'a' <= small <= 'z',
        capital as u32 + 32 == small as u32,
        0 <= j < pat.len(),
        pat[j] == small,
    ensures
        !text::holds_text(text::ascii_lower(s), pat),
{
    let t = text::ascii_lower(s);
    if text::holds_text(t, pat) {
        let i = choose|i: int| text::occurs_at(t, pat, i);
        assert(t.subrange(i, i + pat.len())[j] == t[i + j]);
        assert(t[i + j] == text::ascii_lower_char(s[i + j]));
        lemma_lacks(s, small, s.len(), i + j);
        lemma_lacks(s, capital, s.len(), i + j);
    }
}

proof fn lemma_messages_are_ascii()
    ensures
        is_ascii_chars(VERIFICATION_MESSAGE@),
        is_ascii_chars(COOKIES_MESSAGE@),
{
    reveal_strlit("YouTube requires browser verification for this video.");
    reveal_strlit(
        "yt-dlp could not read browser cookies directly. Open YouTube in your browser while signed in, then retry with Chrome or Edge cookies.",
    );
    reveal_with_fuel(ascii_up_to, 18);
    let v = VERIFICATION_MESSAGE@;
    let k = COOKIES_MESSAGE@;
    assert(ascii_up_to(v, 16));
    assert(ascii_up_to(v, 32));
    assert(ascii_up_to(v, 48));
    assert(ascii_up_to(v, v.len()));
    assert(ascii_up_to(k, 16));
    assert(ascii_up_to(k, 32));
    assert(ascii_up_to(k, 48));
    assert(ascii_up_to(k, 64));
    assert(ascii_up_to(k, 80));
    assert(ascii_up_to(k, 96));
    assert(ascii_up_to(k, 112));
    assert(ascii_up_to(k, 128));
    assert(ascii_up_to(k, k.len()));
    assert forall|i: int| 0 <= i < v.len() implies v[i] <= '\x7f' by {
        lemma_ascii_up_to(v, v.len(), i);
    }
    assert forall|i: int| 0 <= i < k.len() implies k[i] <= '\x7f' by {
        lemma_ascii_up_to(k, k.len(), i);
    }
}

proof fn lemma_messages_are_final()
    ensures
        shown_error_of(VERIFICATION_MESSAGE@, text::ascii_lower(VERIFICATION_MESSAGE@))
            == VERIFICATION_MESSAGE@,
        shown_error_of(COOKIES_MESSAGE@, text::ascii_lower(COOKIES_MESSAGE@)) == COOKIES_MESSAGE@,
{
    lemma_verification_message_is_final();
    lemma_cookies_message_is_final();
}

proof fn lemma_verification_message_is_final()
    ensures
        !cookies_unreadable(text::ascii_lower(VERIFICATION_MESSAGE@)),
{
    reveal_strlit("YouTube requires browser verification for this video.");
    reveal_strlit("failed to decrypt with dpapi");
    reveal_strlit("cookies database");
    reveal_strlit("cookies");
    let m = VERIFICATION_MESSAGE@;
    assert(lacks(m, 'k', m.len()) && lacks(m, 'K', m.len()) && lacks(m, 'p', m.len()) && lacks(
        m,
        'P',
        m.len(),
    )) by {
        reveal_with_fuel(lacks, 18);
        assert(lacks(m, 'k', 16));
        assert(lacks(m, 'k', 32));
        assert(lacks(m, 'k', 48));
        assert(lacks(m, 'K', 16));
        assert(lacks(m, 'K', 32));
        assert(lacks(m, 'K', 48));
        assert(lacks(m, 'p', 16));
        assert(lacks(m, 'p', 32));
        assert(lacks(m, 'p', 48));
        assert(lacks(m, 'P', 16));
        assert(lacks(m, 'P', 32));
        assert(lacks(m, 'P', 48));
    }
    lemma_not_held(m, "failed to decrypt with dpapi"@, 'p', 'P', 15);
    lemma_not_held(m, "cookies database"@, 'k', 'K', 3);
    lemma_not_held(m, "cookies"@, 'k', 'K', 3);
}

proof fn lemma_cookies_message_is_final()
    ensures
        !asks_verification(text::ascii_lower(COOKIES_MESSAGE@)),
{
    reveal_strlit(
        "yt-dlp could not read browser cookies directly. Open YouTube in your browser while signed in, then retry with Chrome or Edge cookies.",
    );
    reveal_strlit("sign in to confirm");
    reveal_strlit("not a bot");
    reveal_strlit("--cookies-from-browser");
    reveal_strlit("use --cookies-from-browser");
    let m = COOKIES_MESSAGE@;
    assert(lacks(m, 'f', m.len())) by {
        reveal_with_fuel(lacks, 18);
        assert(lacks(m, 'f', 16));
        assert(lacks(m, 'f', 32));
        assert(lacks(m, 'f', 48));
        assert(lacks(m, 'f', 64));
        assert(lacks(m, 'f', 80));
        assert(lacks(m, 'f', 96));
        assert(lacks(m, 'f', 112));
        assert(lacks(m, 'f', 128));
    }
    assert(lacks(m, 'F', m.len())) by {
        reveal_with_fuel(lacks, 18);
        assert(lacks(m, 'F', 16));
        assert(lacks(m, 'F', 32));
        assert(lacks(m, 'F', 48));
        assert(lacks(m, 'F', 64));
        assert(lacks(m, 'F', 80));
        assert(lacks(m, 'F', 96));
        assert(lacks(m, 'F', 112));
        assert(lacks(m, 'F', 128));
    }
    assert(lacks(m, 'A', m.len())) by {
        reveal_with_fuel(lacks, 18);
        assert(lacks(m, 'A', 16));
        assert(lacks(m, 'A', 32));
        assert(lacks(m, 'A', 48));
        assert(lacks(m, 'A', 64));
        assert(lacks(m, 'A', 80));
        assert(lacks(m, 'A', 96));
        assert(lacks(m, 'A', 112));
        assert(lacks(m, 'A', 128));
    }
    assert(lacks_pair(m, 'a', ' ', m.len())) by {
        reveal_with_fuel(lacks_pair, 18);
        assert(lacks_pair(m, 'a', ' ', 16));
        assert(lacks_pair(m, 'a', ' ', 32));
        assert(lacks_pair(m, 'a', ' ', 48));
        assert(lacks_pair(m, 'a', ' ', 64));
        assert(lacks_pair(m, 'a', ' ', 80));
        assert(lacks_pair(m, 'a', ' ', 96));
        assert(lacks_pair(m, 'a', ' ', 112));
        assert(lacks_pair(m, 'a', ' ', 128));
    }
    lemma_not_held(m, "sign in to confirm"@, 'f', 'F', 14);
    lemma_not_held(m, "--cookies-from-browser"@, 'f', 'F', 10);
    lemma_not_held(m, "use --cookies-from-browser"@, 'f', 'F', 14);
    let t = text::ascii_lower(m);
    let bot = "not a bot"@;
    if text::holds_text(t, bot) {
        let i = choose|i: int| text::occurs_at(t, bot, i);
        assert(t.subrange(i, i + bot.len())[4] == t[i + 4]);
        assert(t.subrange(i, i + bot.len())[5] == t[i + 5]);
        assert(t[i + 4] == text::ascii_lower_char(m[i + 4]));
        assert(t[i + 5] == text::ascii_lower_char(m[i + 5]));
        lemma_lacks(m, 'A', m.len(), i + 4);
        lemma_lacks_pair(m, 'a', ' ', m.len(), i + 4);
    }
}

/// Cleaning an error twice changes nothing more: what an error is shown as is
/// either the error itself or a message of ASCII characters that stands for
/// itself.
pub proof fn lemma_shown_error_is_final(message: Seq<char>, lower: Seq<char>)
    ensures
        ({
            let shown = shown_error_of(message, lower);
            ||| shown == message && shown_error_of(shown, lower) == shown
            ||| is_ascii_chars(shown) && shown_error_of(shown, text::ascii_lower(shown)) == shown
        }),
{
    lemma_messages_are_ascii();
    lemma_messages_are_final();
}

/// Without FFmpeg no streams are merged, whatever the quality.
pub proof fn lemma_nothing_merges_without_ffmpeg(quality: Seq<char>, url: Seq<char>)
    ensures
        format_args_for(quality, false, url).len() == 2,
        !format_args_for(quality, false, url).contains("--merge-output-format"@),
{
    reveal_strlit("-f");
    reveal_strlit("best");
    reveal_strlit("best[ext=mp4]/best");
    reveal_strlit("--merge-output-format");
    let args = format_args_for(quality, false, url);
    assert(args[0].len() == 2);
    assert(args[1].len() == 4 || args[1].len() == 18);
    assert("--merge-output-format"@.len() == 21);
    assert forall|i: int| 0 <= i < args.len() implies args[i] != "--merge-output-format"@ by {
        assert(i == 0 || i == 1);
    }
}

/// A text names a video platform exactly if it holds one of these names.
pub proof fn lemma_platform_names(lower: Seq<char>)
    ensures
        text::holds_text(lower, "youtube.com"@) ==> names_platform(lower),
        text::holds_text(lower, "youtu.be"@) ==> names_platform(lower),
        text::holds_text(lower, "music.youtube.com"@) ==> names_platform(lower),
        text::holds_text(lower, "twitch.tv"@) ==> names_platform(lower),
        text::holds_text(lower, "tiktok.com"@) ==> names_platform(lower),
        text::holds_text(lower, "instagram.com"@) ==> names_platform(lower),
        text::holds_text(lower, "facebook.com/watch"@) ==> names_platform(lower),
        text::holds_text(lower, "facebook.com/share/v/"@) ==> names_platform(lower),
        text::holds_text(lower, "facebook.com/share/r/"@) ==> names_platform(lower),
        text::holds_text(lower, "facebook.com/reel/"@) ==> names_platform(lower),
        text::holds_text(lower, "facebook.com/reels/"@) ==> names_platform(lower),
        text::holds_text(lower, "facebook.com/videos/"@) ==> names_platform(lower),
        text::holds_text(lower, "fb.watch/"@) ==> names_platform(lower),
        text::holds_text(lower, "vimeo.com"@) ==> names_platform(lower),
        text::holds_text(lower, "dailymotion.com"@) ==> names_platform(lower),
        names_platform(lower) ==> text::holds_text(lower, "youtube.com"@) || text::holds_text(
            lower,
            "youtu.be"@,
        ) || text::holds_text(lower, "music.youtube.com"@) || text::holds_text(lower, "twitch.tv"@)
            || text::holds_text(lower, "tiktok.com"@) || text::holds_text(lower, "instagram.com"@)
            || text::holds_text(lower, "facebook.com/watch"@) || text::holds_text(
            lower,
            "facebook.com/share/v/"@,
        ) || text::holds_text(lower, "facebook.com/share/r/"@) || text::holds_text(
            lower,
            "facebook.com/reel/"@,
        ) || text::holds_text(lower, "facebook.com/reels/"@) || text::holds_text(
            lower,
            "facebook.com/videos/"@,
        ) || text::holds_text(lower, "fb.watch/"@) || text::holds_text(lower, "vimeo.com"@)
            || text::holds_text(lower, "dailymotion.com"@),
{
}

/// A text names YouTube exactly if it holds one of YouTube's two hosts.
pub proof fn lemma_youtube_names(lower: Seq<char>)
    ensures
        names_youtube(lower) <==> text::holds_text(lower, "youtube.com"@) || text::holds_text(
            lower,
            "youtu.be"@,
        ),
{
    reveal_strlit("youtube.com");
    reveal_strlit("music.youtube.com");
    if text::holds_text(lower, "music.youtube.com"@) {
        let i = choose|i: int| text::occurs_at(lower, "music.youtube.com"@, i);
        let all = lower.subrange(i, i + 17);
        assert(all == "music.youtube.com"@);
        assert(lower.subrange(i + 6, i + 17) =~= all.subrange(6, 17));
        assert(all.subrange(6, 17) =~= "youtube.com"@);
        assert(text::occurs_at(lower, "youtube.com"@, i + 6));
    }
}

/// The URL of a playlist is one whatever its query is, and its query never
/// makes a URL one.
pub proof fn lemma_query_does_not_matter_for_playlists(base: Seq<char>, query: Seq<char>)
    requires
        !base.contains('?'),
    ensures
        hls_url(base) <==> text::finishes_with(unicode::lowercase(base), ".m3u8"@),
        hls_url(base + seq!['?'] + query) <==> hls_url(base),
{
    let class = CharClass::Exactly('?');
    text::lemma_before_first(base, seq!['?'] + query, class);
    text::lemma_before_first(base, Seq::empty(), class);
    assert(base + Seq::<char>::empty() =~= base);
    assert(base + (seq!['?'] + query) =~= base + seq!['?'] + query);
}

/// A message asks for verification if it holds one of these phrases, and for no
/// other reason.
pub proof fn lemma_verification_phrases(lower: Seq<char>)
    ensures
        text::holds_text(lower, "sign in to confirm"@) ==> asks_verification(lower),
        text::holds_text(lower, "not a bot"@) ==> asks_verification(lower),
        text::holds_text(lower, "--cookies-from-browser"@) ==> asks_verification(lower),
        text::holds_text(lower, "use --cookies-from-browser"@) ==> asks_verification(lower),
        asks_verification(lower) ==> text::holds_text(lower, "sign in to confirm"@)
            || text::holds_text(lower, "not a bot"@) || text::holds_text(
            lower,
            "--cookies-from-browser"@,
        ) || text::holds_text(lower, "use --cookies-from-browser"@),
{
}

/// What an error is shown as: the request for verification where it holds one
/// of its phrases, else the remark on cookies where it speaks of them, else as
/// it stands.
pub proof fn lemma_shown_errors(message: Seq<char>, lower: Seq<char>)
    ensures
        text::holds_text(lower, "sign in to confirm"@) ==> shown_error_of(message, lower)
            == VERIFICATION_MESSAGE@,
        text::holds_text(lower, "not a bot"@) ==> shown_error_of(message, lower)
            == VERIFICATION_MESSAGE@,
        text::holds_text(lower, "--cookies-from-browser"@) ==> shown_error_of(message, lower)
            == VERIFICATION_MESSAGE@,
        text::holds_text(lower, "failed to decrypt with dpapi"@) && !asks_verification(lower)
            ==> shown_error_of(message, lower) == COOKIES_MESSAGE@,
        text::holds_text(lower, "cookies database"@) && !asks_verification(lower)
            ==> shown_error_of(message, lower) == COOKIES_MESSAGE@,
        text::holds_text(lower, "cookies"@) && text::holds_text(lower, "from-browser"@)
            && !asks_verification(lower) ==> shown_error_of(message, lower) == COOKIES_MESSAGE@,
        !text::holds_text(lower, "sign in to confirm"@) && !text::holds_text(lower, "not a bot"@)
            && !text::holds_text(lower, "--cookies-from-browser"@) && !text::holds_text(
            lower,
            "use --cookies-from-browser"@,
        ) && !text::holds_text(lower, "failed to decrypt with dpapi"@) && !text::holds_text(
            lower,
            "cookies database"@,
        ) && !(text::holds_text(lower, "cookies"@) && text::holds_text(lower, "from-browser"@))
            ==> shown_error_of(message, lower) == message,
{
}

/// Quotation marks around a path are taken away, and so is white space outside
/// and inside them; a path without either at its ends stays as it is.
pub proof fn lemma_quoted_path(path: Seq<char>)
    requires
        path.len() > 0,
        !text::is_white(path[0]),
        !text::is_white(path.last()),
        !CharClass::Quote.has(path[0]),
        !CharClass::Quote.has(path.last()),
    ensures
        cleaned_path(path) == path,
        cleaned_path(seq!['"'] + path + seq!['"']) == path,
        cleaned_path(seq!['\''] + path + seq!['\'']) == path,
        cleaned_path(seq![' ', '"'] + path + seq!['"', '\n']) == path,
        cleaned_path(seq!['"', ' '] + path + seq![' ', '"']) == path,
{
    let white = CharClass::Whitespace;
    let none = Seq::<char>::empty();
    text::lemma_trimmed_parts(none, path, none, white);
    text::lemma_trimmed_parts(none, path, none, CharClass::Quote);
    assert(none + path + none =~= path);
    let double = seq!['"'] + path + seq!['"'];
    text::lemma_trimmed_parts(none, double, none, white);
    assert(none + double + none =~= double);
    text::lemma_trimmed_parts(seq!['"'], path, seq!['"'], CharClass::Quote);
    let single = seq!['\''] + path + seq!['\''];
    text::lemma_trimmed_parts(none, single, none, white);
    assert(none + single + none =~= single);
    text::lemma_trimmed_parts(seq!['\''], path, seq!['\''], CharClass::Quote);
    let wide = seq![' ', '"'] + path + seq!['"', '\n'];
    assert(wide =~= seq![' '] + double + seq!['\n']);
    text::lemma_trimmed_parts(seq![' '], double, seq!['\n'], white);
    let padded = seq![' '] + path + seq![' '];
    let inside = seq!['"', ' '] + path + seq![' ', '"'];
    assert(inside =~= seq!['"'] + padded + seq!['"']);
    text::lemma_trimmed_parts(none, inside, none, white);
    assert(none + inside + none =~= inside);
    text::lemma_trimmed_parts(seq!['"'], padded, seq!['"'], CharClass::Quote);
    text::lemma_trimmed_parts(seq![' '], path, seq![' '], white);
}

/// A quality whose streams are merged into MP4.
pub open spec fn ends_in_mp4(quality: Seq<char>) -> bool {
    text::finishes_with(quality, "_mp4"@)
}

/// Where FFmpeg can merge streams, a quality named after MP4 is merged into MP4,
/// and MKV comes out of the one quality that asks for it.
pub proof fn lemma_merged_container(quality: Seq<char>, youtube: bool)
    ensures
        ({
            let args = merge_format_args(quality, youtube);
            let flag = "--merge-output-format"@;
            &&& ends_in_mp4(quality) ==> text::followed_by(args, flag, "mp4"@)
            &&& text::followed_by(args, flag, "mkv"@) <==> quality == "best_any_mkv"@
            &&& quality == "mp3"@ || quality == "m4a"@ <==> !args.contains(flag)
            &&& quality != "mp3"@ && quality != "m4a"@ && quality != "best_any_mkv"@
                ==> text::followed_by(args, flag, "mp4"@)
            &&& !(text::followed_by(args, flag, "mkv"@) && text::followed_by(args, flag, "mp4"@))
        }),
{
    reveal_strlit("_mp4");
    reveal_strlit("mp3");
    reveal_strlit("m4a");
    reveal_strlit("mp4");
    reveal_strlit("mkv");
    reveal_strlit("best_any_mkv");
    reveal_strlit("best");
    reveal_strlit("best_mp4");
    reveal_strlit("1080p_mp4");
    reveal_strlit("720p_mp4");
    reveal_strlit("-S");
    reveal_strlit("-f");
    reveal_strlit("-x");
    reveal_strlit("0");
    reveal_strlit("--merge-output-format");
    reveal_strlit("--audio-format");
    reveal_strlit("--audio-quality");
    reveal_strlit("--extract-audio");
    reveal_strlit("ba[ext=m4a]/ba");
    reveal_strlit("vcodec:h264,acodec:m4a,res,ext:mp4:m4a");
    reveal_strlit("bv*[ext=mp4]+ba[ext=m4a]/b[ext=mp4]/b");
    reveal_strlit(
        "bestvideo[height<=1080][vcodec^=avc1][ext=mp4]+bestaudio[ext=m4a]/best[height<=1080]",
    );
    reveal_strlit(
        "bestvideo[height<=720][vcodec^=avc1][ext=mp4]+bestaudio[ext=m4a]/best[height<=720]",
    );
    reveal_strlit("bestvideo+bestaudio/best");
    reveal_strlit("bestvideo[vcodec^=avc1][ext=mp4]+bestaudio[ext=m4a]/best[ext=mp4]/best");
    let args = merge_format_args(quality, youtube);
    let flag = "--merge-output-format"@;
    assert(flag.len() == 21 && "-S"@.len() == 2 && "-f"@.len() == 2 && "-x"@.len() == 2 && "mp4"@.len()
        == 3 && "mkv"@.len() == 3 && "mp3"@.len() == 3 && "m4a"@.len() == 3 && "0"@.len() == 1);
    assert("--audio-format"@.len() == 14 && "--audio-quality"@.len() == 15
        && "--extract-audio"@.len() == 15 && "ba[ext=m4a]/ba"@.len() == 14);
    assert("mp4"@[1] == 'p' && "mkv"@[1] == 'k');
    assert("mp3"@[2] == '3' && "m4a"@[2] == 'a' && "mp3"@[1] == 'p' && "m4a"@[1] == '4');
    assert("best_any_mkv"@.len() == 12 && "1080p_mp4"@.len() == 9 && "720p_mp4"@.len() == 8
        && "best_mp4"@.len() == 8 && "best"@.len() == 4);
    assert("best_any_mkv"@[10] == 'k' && "720p_mp4"@[0] == '7' && "best_mp4"@[0] == 'b');
    if ends_in_mp4(quality) {
        let n = quality.len() as int;
        assert(quality.subrange(n - 4, n)[2] == quality[n - 2]);
        assert(quality.subrange(n - 4, n)[1] == quality[n - 3]);
        assert(quality[n - 2] == 'p' && n >= 4);
    }
    let place = if (quality == "best"@ || quality == "best_mp4"@) && youtube {
        4int
    } else {
        2int
    };
    if quality != "mp3"@ && quality != "m4a"@ {
        assert(args[place] == flag);
        assert(args.len() == place + 2);
        assert(text::stands_behind(args, flag, args[place + 1], place));
        assert forall|i: int| 0 <= i < place implies #[trigger] args[i] != flag by {
            assert(args[i].len() == 2 || args[i][0] != '-');
        }
        lemma_only_one_flag(args, flag, place);
    } else {
        assert forall|i: int| 0 <= i < args.len() implies args[i] != flag by {
            assert(args.len() == 5);
            assert(args[i].len() < 21);
        }
    }
}

/// A flag in the last but one place of a short list is followed by the last
/// argument.
proof fn lemma_only_one_flag(args: Seq<Seq<char>>, flag: Seq<char>, place: int)
    requires
        0 <= place,
        args.len() == place + 2,
        args[place] == flag,
        args[place + 1] != flag,
        forall|i: int| 0 <= i < place ==> #[trigger] args[i] != flag,
    ensures
        forall|value: Seq<char>|
            text::followed_by(args, flag, value) <==> value == args[place + 1],
{
    assert forall|value: Seq<char>|
        text::followed_by(args, flag, value) <==> value == args[place + 1] by {
        if text::followed_by(args, flag, value) {
            let i = choose|i: int| text::stands_behind(args, flag, value, i);
            assert(i == place);
        }
        if value == args[place + 1] {
            assert(text::stands_behind(args, flag, value, place));
        }
    }
}

/// A height in the name of a quality limits the height of the video, and the
/// codecs that common players read are asked for wherever MP4 is.
pub proof fn lemma_formats_of_qualities(youtube: bool)
    ensures
        text::followed_by(
            merge_format_args("1080p_mp4"@, youtube),
            "-f"@,
            "bestvideo[height<=1080][vcodec^=avc1][ext=mp4]+bestaudio[ext=m4a]/best[height<=1080]"@,
        ),
        text::followed_by(
            merge_format_args("720p_mp4"@, youtube),
            "-f"@,
            "bestvideo[height<=720][vcodec^=avc1][ext=mp4]+bestaudio[ext=m4a]/best[height<=720]"@,
        ),
        text::followed_by(
            merge_format_args("best_any_mkv"@, youtube),
            "-f"@,
            "bestvideo+bestaudio/best"@,
        ),
        text::followed_by(
            merge_format_args("best_mp4"@, false),
            "-f"@,
            "bestvideo[vcodec^=avc1][ext=mp4]+bestaudio[ext=m4a]/best[ext=mp4]/best"@,
        ),
        text::followed_by(merge_format_args("best"@, false), "-f"@, "bestvideo+bestaudio/best"@),
        merge_format_args("best"@, true) == merge_format_args("best_mp4"@, true),
        text::followed_by(
            merge_format_args("best"@, true),
            "-S"@,
            "vcodec:h264,acodec:m4a,res,ext:mp4:m4a"@,
        ),
        text::followed_by(
            merge_format_args("best"@, true),
            "-f"@,
            "bv*[ext=mp4]+ba[ext=m4a]/b[ext=mp4]/b"@,
        ),
        merge_format_args("mp3"@, youtube).contains("-x"@),
        text::followed_by(merge_format_args("mp3"@, youtube), "--audio-format"@, "mp3"@),
        text::followed_by(merge_format_args("mp3"@, youtube), "--audio-quality"@, "0"@),
        merge_format_args("m4a"@, youtube).contains("--extract-audio"@),
        text::followed_by(merge_format_args("m4a"@, youtube), "--audio-format"@, "m4a"@),
        text::followed_by(merge_format_args("m4a"@, youtube), "-f"@, "ba[ext=m4a]/ba"@),
{
    reveal_strlit("mp3");
    reveal_strlit("m4a");
    reveal_strlit("best_any_mkv");
    reveal_strlit("best");
    reveal_strlit("best_mp4");
    reveal_strlit("1080p_mp4");
    reveal_strlit("720p_mp4");
    assert("best_any_mkv"@.len() == 12 && "1080p_mp4"@.len() == 9 && "720p_mp4"@.len() == 8
        && "best_mp4"@.len() == 8 && "best"@.len() == 4 && "mp3"@.len() == 3 && "m4a"@.len() == 3);
    assert("720p_mp4"@[0] == '7' && "best_mp4"@[0] == 'b' && "mp3"@[1] == 'p' && "m4a"@[1] == '4');
    let f = "-f"@;
    let hd = merge_format_args("1080p_mp4"@, youtube);
    assert(text::stands_behind(hd, f, hd[1], 0));
    let sd = merge_format_args("720p_mp4"@, youtube);
    assert(text::stands_behind(sd, f, sd[1], 0));
    let mkv = merge_format_args("best_any_mkv"@, youtube);
    assert(text::stands_behind(mkv, f, mkv[1], 0));
    let mp4 = merge_format_args("best_mp4"@, false);
    assert(text::stands_behind(mp4, f, mp4[1], 0));
    let best = merge_format_args("best"@, false);
    assert(text::stands_behind(best, f, best[1], 0));
    let tube = merge_format_args("best"@, true);
    assert(text::stands_behind(tube, "-S"@, tube[1], 0));
    assert(text::stands_behind(tube, f, tube[3], 2));
    let mp3 = merge_format_args("mp3"@, youtube);
    assert(mp3[0] == "-x"@);
    assert(text::stands_behind(mp3, "--audio-format"@, "mp3"@, 1));
    assert(text::stands_behind(mp3, "--audio-quality"@, "0"@, 3));
    let m4a = merge_format_args("m4a"@, youtube);
    assert(m4a[2] == "--extract-audio"@);
    assert(text::stands_behind(m4a, f, "ba[ext=m4a]/ba"@, 0));
    assert(text::stands_behind(m4a, "--audio-format"@, "m4a"@, 3));
}

/// With FFmpeg the merging formats are asked for, and YouTube's own for a URL
/// that names YouTube; without it one single file.
pub proof fn lemma_ffmpeg_decides_the_formats(quality: Seq<char>, url: Seq<char>)
    ensures
        text::holds_text(unicode::lowercase(url), "youtube.com"@) || text::holds_text(
            unicode::lowercase(url),
            "youtu.be"@,
        ) ==> format_args_for(quality, true, url) == merge_format_args(quality, true),
        !text::holds_text(unicode::lowercase(url), "youtube.com"@) && !text::holds_text(
            unicode::lowercase(url),
            "youtu.be"@,
        ) ==> format_args_for(quality, true, url) == merge_format_args(quality, false),
        text::followed_by(format_args_for("best_single"@, false, url), "-f"@, "best"@),
        quality != "best_single"@ ==> text::followed_by(
            format_args_for(quality, false, url),
            "-f"@,
            "best[ext=mp4]/best"@,
        ),
{
    lemma_youtube_names(unicode::lowercase(url));
    let single = format_args_for("best_single"@, false, url);
    assert(text::stands_behind(single, "-f"@, "best"@, 0));
    let other = format_args_for(quality, false, url);
    assert(text::stands_behind(other, "-f"@, other[1], 0));
}

/// The extra network arguments are TikTok's: a longer timeout, more attempts
/// and IPv4; and no other URL gets any.
pub proof fn lemma_network_args_are_for_tiktok(lower: Seq<char>)
    ensures
        network_args_of(lower).len() > 0 <==> text::holds_text(lower, "tiktok.com"@),
        text::holds_text(lower, "tiktok.com"@) ==> {
            let args = network_args_of(lower);
            &&& text::followed_by(args, "--socket-timeout"@, "60"@)
            &&& text::followed_by(args, "--retries"@, "5"@)
            &&& text::followed_by(args, "--fragment-retries"@, "5"@)
            &&& args.contains("--force-ipv4"@)
            &&& names_platform(lower)
        },
{
    reveal_strlit("tiktok.com");
    reveal_strlit("vm.tiktok.com");
    reveal_strlit("vt.tiktok.com");
    if text::holds_text(lower, "vm.tiktok.com"@) {
        let i = choose|i: int| text::occurs_at(lower, "vm.tiktok.com"@, i);
        let all = lower.subrange(i, i + 13);
        assert(all == "vm.tiktok.com"@);
        assert(lower.subrange(i + 3, i + 13) =~= all.subrange(3, 13));
        assert(all.subrange(3, 13) =~= "tiktok.com"@);
        assert(text::occurs_at(lower, "tiktok.com"@, i + 3));
    }
    if text::holds_text(lower, "vt.tiktok.com"@) {
        let i = choose|i: int| text::occurs_at(lower, "vt.tiktok.com"@, i);
        let all = lower.subrange(i, i + 13);
        assert(all == "vt.tiktok.com"@);
        assert(lower.subrange(i + 3, i + 13) =~= all.subrange(3, 13));
        assert(all.subrange(3, 13) =~= "tiktok.com"@);
        assert(text::occurs_at(lower, "tiktok.com"@, i + 3));
    }
    if text::holds_text(lower, "tiktok.com"@) {
        let args = network_args_of(lower);
        assert(text::stands_behind(args, "--socket-timeout"@, "60"@, 0));
        assert(text::stands_behind(args, "--retries"@, "5"@, 2));
        assert(text::stands_behind(args, "--fragment-retries"@, "5"@, 4));
        assert(args[6] == "--force-ipv4"@);
    }
}

} // verus!
