//! What depends on the platform: the names of the helper programs and the
//! places where they are looked for.
use vstd::prelude::*;
use crate::text;

verus! {

#[derive(Debug, Clone, Copy, PartialEq, Eq, Structural)]
pub enum Os {
    Windows,
    MacOs,
    Linux,
    OtherUnix,
    Other,
}

#[derive(Debug, Clone, Copy, PartialEq, Eq, Structural)]
pub enum Arch {
    X86_64,
    Aarch64,
    Other,
}

/// The toolchain's C library flavour, which names the Windows builds.
#[derive(Debug, Clone, Copy, PartialEq, Eq, Structural)]
pub enum Flavour {
    Msvc,
    Gnu,
    Other,
}

/// The platform that the program was built for.
#[derive(Debug, Clone, Copy, PartialEq, Eq, Structural)]
pub struct Target {
    pub os: Os,
    pub arch: Arch,
    pub flavour: Flavour,
}

/// `name`, with `.exe` on Windows.
pub open spec fn program_name(os: Os, name: Seq<char>) -> Seq<char> {
    if os == Os::Windows {
        name + ".exe"@
    } else {
        name
    }
}

/// The target triple that a bundled program's name carries, where programs are
/// bundled for the target.
pub open spec fn bundle_triple(target: Target) -> Option<Seq<char>> {
    match (target.os, target.arch, target.flavour) {
        (Os::Windows, Arch::X86_64, Flavour::Msvc) => Some("x86_64-pc-windows-msvc"@),
        (Os::Windows, Arch::X86_64, Flavour::Gnu) => Some("x86_64-pc-windows-gnu"@),
        (Os::MacOs, Arch::X86_64, _) => Some("x86_64-apple-darwin"@),
        (Os::MacOs, Arch::Aarch64, _) => Some("aarch64-apple-darwin"@),
        (Os::Linux, Arch::X86_64, _) => Some("x86_64-unknown-linux-gnu"@),
        (Os::Linux, Arch::Aarch64, _) => Some("aarch64-unknown-linux-gnu"@),
        _ => None,
    }
}

/// The file names under which a bundled program is looked for: the one with the
/// target triple, where there is one, and the plain one.
pub open spec fn bundle_names(target: Target, name: Seq<char>) -> Seq<Seq<char>> {
    match bundle_triple(target) {
        Some(triple) => seq![
            program_name(target.os, name + "-"@ + triple),
            program_name(target.os, name),
        ],
        None => seq![program_name(target.os, name)],
    }
}

/// The file name of a program.
pub fn binary_name(os: Os, name: &str) -> (r: String)
    ensures
        r@ == program_name(os, name@),
{
    if os == Os::Windows {
        text::concat2(name, ".exe")
    } else {
        name.to_owned()
    }
}

fn triple_of(target: Target) -> (r: Option<&'static str>)
    ensures
        text::opt_str(r) == bundle_triple(target),
{
    match (target.os, target.arch, target.flavour) {
        (Os::Windows, Arch::X86_64, Flavour::Msvc) => Some("x86_64-pc-windows-msvc"),
        (Os::Windows, Arch::X86_64, Flavour::Gnu) => Some("x86_64-pc-windows-gnu"),
        (Os::MacOs, Arch::X86_64, _) => Some("x86_64-apple-darwin"),
        (Os::MacOs, Arch::Aarch64, _) => Some("aarch64-apple-darwin"),
        (Os::Linux, Arch::X86_64, _) => Some("x86_64-unknown-linux-gnu"),
        (Os::Linux, Arch::Aarch64, _) => Some("aarch64-unknown-linux-gnu"),
        _ => None,
    }
}

fn bundled_names(target: Target, name: &str) -> (r: Vec<String>)
    ensures
        text::texts(r@) == bundle_names(target, name@),
{
    let mut names: Vec<String> = Vec::new();
    if let Some(triple) = triple_of(target) {
        let stem = text::concat3(name, "-", triple);
        names.push(binary_name(target.os, stem.as_str()));
    }
    names.push(binary_name(target.os, name));
    assert(text::texts(names@) =~= bundle_names(target, name@));
    names
}

/// The file name of aria2.
pub fn aria2_binary_name(os: Os) -> (r: String)
    ensures
        r@ == program_name(os, "aria2c"@),
{
    binary_name(os, "aria2c")
}

/// The file names under which a bundled aria2 is looked for.
pub fn bundled_aria2_names(target: Target) -> (r: Vec<String>)
    ensures
        text::texts(r@) == bundle_names(target, "aria2c"@),
{
    bundled_names(target, "aria2c")
}

/// The file name of yt-dlp.
pub fn yt_dlp_binary_name(os: Os) -> (r: String)
    ensures
        r@ == program_name(os, "yt-dlp"@),
{
    binary_name(os, "yt-dlp")
}

/// The file names under which a bundled yt-dlp is looked for.
pub fn bundled_yt_dlp_names(target: Target) -> (r: Vec<String>)
    ensures
        text::texts(r@) == bundle_names(target, "yt-dlp"@),
{
    bundled_names(target, "yt-dlp")
}

/// A directory that search places are given relative to.
#[derive(Debug, Clone, Copy, PartialEq, Eq, Structural)]
pub enum Base {
    /// The resource directory of the installed program.
    Resources,
    /// The directory of the running executable.
    Executable,
    /// The working directory.
    Working,
    /// The directory of the build manifest.
    Manifest,
    /// The parent of the directory of the build manifest.
    ManifestParent,
}

/// A place on disk: path components below a base directory.
#[derive(Debug)]
pub struct Place {
    pub base: Base,
    pub parts: Vec<String>,
}

/// A place by its contents.
#[verifier::ext_equal]
pub struct PlaceView {
    pub base: Base,
    pub parts: Seq<Seq<char>>,
}

impl View for Place {
    type V = PlaceView;

    open spec fn view(&self) -> PlaceView {
        PlaceView { base: self.base, parts: text::texts(self.parts@) }
    }
}

/// A list of places by its contents.
pub open spec fn place_views(list: Seq<Place>) -> Seq<PlaceView> {
    Seq::new(list.len(), |i: int| list[i]@)
}

/// The base directories that are known.
#[derive(Debug, Clone, Copy, PartialEq, Eq, Structural)]
pub struct KnownBases {
    pub resources: bool,
    pub executable: bool,
    pub working: bool,
    pub manifest: bool,
    pub manifest_parent: bool,
}

fn push_place(list: &mut Vec<Place>, base: Base, parts: &[&str])
    ensures
        place_views(final(list)@) == place_views(old(list)@).push(
            PlaceView { base, parts: text::slice_texts(parts@) },
        ),
{
    let mut owned: Vec<String> = Vec::new();
    text::push_texts(&mut owned, parts);
    assert(text::texts(owned@) =~= text::slice_texts(parts@));
    list.push(Place { base, parts: owned });
    assert(place_views(list@) =~= place_views(old(list)@).push(
        PlaceView { base, parts: text::slice_texts(parts@) },
    ));
}

pub open spec fn place(base: Base, parts: Seq<Seq<char>>) -> PlaceView {
    PlaceView { base, parts }
}

/// Where a bundled aria2 is looked for.
pub open spec fn aria2_places(known: KnownBases) -> Seq<PlaceView> {
    (if known.resources {
        seq![place(Base::Resources, seq![])]
    } else {
        seq![]
    }) + (if known.executable {
        seq![place(Base::Executable, seq![]), place(Base::Executable, seq!["bin"@])]
    } else {
        seq![]
    }) + (if known.working {
        seq![
            place(Base::Working, seq![]),
            place(Base::Working, seq!["bin"@]),
            place(Base::Working, seq!["src-tauri"@, "bin"@]),
            place(Base::Working, seq![".."@, "src-tauri"@, "bin"@]),
        ]
    } else {
        seq![]
    })
}

/// Lists where a bundled aria2 is looked for. What is found there is tried in
/// the order of the files' paths, whatever the order of this list.
pub fn bundled_aria2_places(known: KnownBases) -> (r: Vec<Place>)
    ensures
        place_views(r@) == aria2_places(known),
{
    let mut list: Vec<Place> = Vec::new();
    if known.resources {
        push_place(&mut list, Base::Resources, &[]);
    }
    if known.executable {
        push_place(&mut list, Base::Executable, &[]);
        push_place(&mut list, Base::Executable, &["bin"]);
    }
    if known.working {
        push_place(&mut list, Base::Working, &[]);
        push_place(&mut list, Base::Working, &["bin"]);
        push_place(&mut list, Base::Working, &["src-tauri", "bin"]);
        push_place(&mut list, Base::Working, &["..", "src-tauri", "bin"]);
    }
    assert(place_views(list@) =~~= aria2_places(known));
    list
}

/// Where a bundled FFmpeg is looked for, in order.
pub open spec fn ffmpeg_places(known: KnownBases) -> Seq<PlaceView> {
    (if known.resources {
        seq![
            place(Base::Resources, seq!["bin"@, "ffmpeg"@, "windows"@]),
            place(Base::Resources, seq!["resources"@, "bin"@, "ffmpeg"@, "windows"@]),
            place(Base::Resources, seq!["ffmpeg"@, "windows"@]),
            place(Base::Resources, seq!["bin"@]),
            place(Base::Resources, seq![]),
        ]
    } else {
        seq![]
    }) + (if known.executable {
        seq![
            place(Base::Executable, seq!["resources"@, "bin"@, "ffmpeg"@, "windows"@]),
            place(Base::Executable, seq!["bin"@, "ffmpeg"@, "windows"@]),
            place(Base::Executable, seq!["ffmpeg"@, "windows"@]),
            place(Base::Executable, seq!["bin"@]),
            place(Base::Executable, seq![]),
        ]
    } else {
        seq![]
    }) + (if known.manifest {
        seq![
            place(Base::Manifest, seq!["resources"@, "bin"@, "ffmpeg"@, "windows"@]),
            place(Base::Manifest, seq!["bin"@, "ffmpeg"@, "windows"@]),
        ]
    } else {
        seq![]
    }) + (if known.manifest && known.manifest_parent {
        seq![
            place(Base::ManifestParent, seq!["target"@, "release"@]),
            place(Base::ManifestParent, seq!["target"@, "debug"@]),
        ]
    } else {
        seq![]
    })
}

/// Lists where a bundled FFmpeg is looked for.
pub fn bundled_ffmpeg_places(known: KnownBases) -> (r: Vec<Place>)
    ensures
        place_views(r@) == ffmpeg_places(known),
{
    let mut list: Vec<Place> = Vec::new();
    if known.resources {
        push_place(&mut list, Base::Resources, &["bin", "ffmpeg", "windows"]);
        push_place(&mut list, Base::Resources, &["resources", "bin", "ffmpeg", "windows"]);
        push_place(&mut list, Base::Resources, &["ffmpeg", "windows"]);
        push_place(&mut list, Base::Resources, &["bin"]);
        push_place(&mut list, Base::Resources, &[]);
    }
    if known.executable {
        push_place(&mut list, Base::Executable, &["resources", "bin", "ffmpeg", "windows"]);
        push_place(&mut list, Base::Executable, &["bin", "ffmpeg", "windows"]);
        push_place(&mut list, Base::Executable, &["ffmpeg", "windows"]);
        push_place(&mut list, Base::Executable, &["bin"]);
        push_place(&mut list, Base::Executable, &[]);
    }
    if known.manifest {
        push_place(&mut list, Base::Manifest, &["resources", "bin", "ffmpeg", "windows"]);
        push_place(&mut list, Base::Manifest, &["bin", "ffmpeg", "windows"]);
        if known.manifest_parent {
            push_place(&mut list, Base::ManifestParent, &["target", "release"]);
            push_place(&mut list, Base::ManifestParent, &["target", "debug"]);
        }
    }
    assert(place_views(list@) =~~= ffmpeg_places(known));
    list
}

/// Where programs of the given names are looked for below a base: for each
/// name in the `bin` directory first, then in the base itself.
pub open spec fn program_places(base: Base, names: Seq<Seq<char>>) -> Seq<PlaceView>
    decreases names.len(),
{
    if names.len() == 0 {
        seq![]
    } else {
        program_places(base, names.drop_last()) + seq![
            place(base, seq!["bin"@, names.last()]),
            place(base, seq![names.last()]),
        ]
    }
}

/// Where a bundled yt-dlp is looked for, in order.
pub open spec fn yt_dlp_places(known: KnownBases, target: Target) -> Seq<PlaceView> {
    let names = bundle_names(target, "yt-dlp"@);
    (if known.resources {
        program_places(Base::Resources, names)
    } else {
        seq![]
    }) + (if known.executable {
        program_places(Base::Executable, names)
    } else {
        seq![]
    })
}

fn push_program_places(list: &mut Vec<Place>, base: Base, names: &Vec<String>)
    ensures
        place_views(final(list)@) == place_views(old(list)@) + program_places(
            base,
            text::texts(names@),
        ),
{
    let ghost all = text::texts(names@);
    let mut i: usize = 0;
    assert(all.take(0) =~= seq![]);
    while i < names.len()
        invariant
            i <= names@.len(),
            all == text::texts(names@),
            place_views(list@) == place_views(old(list)@) + program_places(
                base,
                all.take(i as int),
            ),
        decreases names@.len() - i,
    {
        let name = names[i].as_str();
        push_place(list, base, &["bin", name]);
        push_place(list, base, &[name]);
        assert(all.take(i + 1).drop_last() =~= all.take(i as int));
        assert(place_views(list@) =~~= place_views(old(list)@) + program_places(
            base,
            all.take(i + 1),
        ));
        i = i + 1;
    }
    assert(all.take(names@.len() as int) =~= all);
}

/// Lists where a bundled yt-dlp is looked for.
pub fn bundled_yt_dlp_places(known: KnownBases, target: Target) -> (r: Vec<Place>)
    ensures
        place_views(r@) == yt_dlp_places(known, target),
{
    let names = bundled_yt_dlp_names(target);
    let mut list: Vec<Place> = Vec::new();
    if known.resources {
        push_program_places(&mut list, Base::Resources, &names);
    }
    if known.executable {
        push_program_places(&mut list, Base::Executable, &names);
    }
    assert(place_views(list@) =~= yt_dlp_places(known, target));
    list
}

/// The file names that aria2 is looked for under in each directory of the
/// search path.
pub fn path_probe_names(os: Os, binary_name: &str) -> (r: Vec<String>)
    ensures
        text::texts(r@) == (if os == Os::Windows {
            seq![binary_name@, "aria2c.exe"@]
        } else {
            seq![binary_name@]
        }),
        text::texts(r@)[0] == binary_name@,
        os == Os::Windows ==> text::texts(r@).contains("aria2c.exe"@),
        os != Os::Windows ==> r@.len() == 1,
{
    let mut names: Vec<String> = Vec::new();
    text::push_text(&mut names, binary_name);
    if os == Os::Windows {
        text::push_text(&mut names, "aria2c.exe");
    }
    names
}

/// The program that opens a folder or a web page.
pub open spec fn opener_of(os: Os) -> Option<Seq<char>> {
    match os {
        Os::Windows => Some("explorer"@),
        Os::MacOs => Some("open"@),
        Os::Linux | Os::OtherUnix => Some("xdg-open"@),
        Os::Other => None,
    }
}

/// The program that opens a folder or a web page.
pub fn opener(os: Os) -> (r: Option<&'static str>)
    ensures
        text::opt_str(r) == opener_of(os),
{
    match os {
        Os::Windows => Some("explorer"),
        Os::MacOs => Some("open"),
        Os::Linux | Os::OtherUnix => Some("xdg-open"),
        Os::Other => None,
    }
}

/// What a path leads to.
#[derive(Debug, Clone, Copy, PartialEq, Eq, Structural)]
pub enum PathKind {
    Directory,
    File,
    Neither,
}

/// The outcome of a request by its contents.
pub open spec fn result_view(r: Result<String, String>) -> Result<Seq<char>, Seq<char>> {
    match r {
        Ok(s) => Ok(s@),
        Err(e) => Err(e@),
    }
}

/// The folder to open for a path: the path itself if it is a directory, the
/// parent of a file, else an error.
pub open spec fn folder_for(
    path: Seq<char>,
    kind: PathKind,
    parent: Option<Seq<char>>,
) -> Result<Seq<char>, Seq<char>> {
    let p = text::trimmed(path);
    match (kind, parent) {
        (PathKind::Directory, _) => Ok(p),
        (PathKind::File, Some(folder)) => Ok(folder),
        (PathKind::File, None) => Err("Could not resolve parent folder: "@ + p),
        (PathKind::Neither, _) => Err("Folder does not exist: "@ + p),
    }
}

/// Decides which folder to open for a path, given what the trimmed path leads
/// to and its parent.
pub fn open_download_folder(path: &str, kind: PathKind, parent: Option<&str>) -> (r: Result<
    String,
    String,
>)
    ensures
        result_view(r) == folder_for(path@, kind, text::opt_str(parent)),
{
    let p = text::trim(path);
    match (kind, parent) {
        (PathKind::Directory, _) => Ok(p),
        (PathKind::File, Some(folder)) => Ok(folder.to_owned()),
        (PathKind::File, None) => Err(text::concat2("Could not resolve parent folder: ", p.as_str())),
        (PathKind::Neither, _) => Err(text::concat2("Folder does not exist: ", p.as_str())),
    }
}

/// The address that the YouTube button opens.
pub const YOUTUBE_URL: &'static str = "https://www.youtube.com";

/// What is opened in another program.
#[derive(Debug, Clone, Copy, PartialEq, Eq, Structural)]
pub enum OpenWhat {
    Folder,
    YouTube,
}

/// How starting the other program went.
#[derive(Debug)]
pub enum Launch {
    Started,
    NoOpener,
    Failed(String),
}

/// The error of a launch, if it failed.
pub open spec fn launch_error(what: OpenWhat, launch: Launch) -> Option<Seq<char>> {
    match (launch, what) {
        (Launch::Started, _) => None,
        (Launch::NoOpener, OpenWhat::Folder) => Some(
            "Open folder is not supported on this platform"@,
        ),
        (Launch::NoOpener, OpenWhat::YouTube) => Some(
            "Opening YouTube is not supported on this platform"@,
        ),
        (Launch::Failed(e), OpenWhat::Folder) => Some("Failed to open folder: "@ + e@),
        (Launch::Failed(e), OpenWhat::YouTube) => Some("Failed to open YouTube: "@ + e@),
    }
}

/// Reports how opening something in another program went.
pub fn launch_result(what: OpenWhat, launch: Launch) -> (r: Result<(), String>)
    ensures
        match r {
            Ok(()) => launch_error(what, launch) is None,
            Err(e) => launch_error(what, launch) == Some(e@),
        },
{
    match (launch, what) {
        (Launch::Started, _) => Ok(()),
        (Launch::NoOpener, OpenWhat::Folder) => Err(
            "Open folder is not supported on this platform".to_owned(),
        ),
        (Launch::NoOpener, OpenWhat::YouTube) => Err(
            "Opening YouTube is not supported on this platform".to_owned(),
        ),
        (Launch::Failed(e), OpenWhat::Folder) => Err(
            text::concat2("Failed to open folder: ", e.as_str()),
        ),
        (Launch::Failed(e), OpenWhat::YouTube) => Err(
            text::concat2("Failed to open YouTube: ", e.as_str()),
        ),
    }
}

/// A Windows path that is taken as it stands, and is normalised when it is
/// extended.
pub open spec fn is_verbatim(path: Seq<char>) -> bool {
    text::begins_with(path, r"\\?\"@)
}

/// `r` is the path of `name` below `base`: the two with a separator between
/// them, or one behind the other where `base` is empty or already ends with a
/// separator or with the colon of a drive.
pub open spec fn is_joined(base: Seq<char>, name: Seq<char>, r: Seq<char>) -> bool {
    ||| r == base + seq!['/'] + name
    ||| r == base + seq!['\\'] + name
    ||| r == base + name && (base.len() == 0 || base.last() == '/' || base.last() == '\\'
        || base.last() == ':')
}

/// `r` leads to `name` in some directory.
pub open spec fn leads_to(name: Seq<char>, r: Seq<char>) -> bool {
    text::finishes_with(r, seq!['/'] + name) || text::finishes_with(r, seq!['\\'] + name)
}

/// `r` is the default download directory, given the user's download directory
/// and their home: the former, else `Downloads` below the home, else an error.
pub open spec fn is_default_dir(
    download_dir: Option<Seq<char>>,
    home: Option<Seq<char>>,
    r: Result<Seq<char>, Seq<char>>,
) -> bool {
    match (download_dir, home) {
        (Some(d), _) => r == Ok::<Seq<char>, Seq<char>>(d),
        (None, Some(h)) => {
            &&& r matches Ok(p)
            &&& if is_verbatim(h) {
                leads_to("Downloads"@, p)
            } else {
                is_joined(h, "Downloads"@, p)
            }
        },
        (None, None) => r == Err::<Seq<char>, Seq<char>>("Could not resolve Downloads directory"@),
    }
}

/// A name of one component that leads below a directory.
pub open spec fn is_plain_name(name: Seq<char>) -> bool {
    &&& name.len() > 0
    &&& !name.contains('/')
    &&& !name.contains('\\')
    &&& !name.contains(':')
    &&& name != "."@
    &&& name != ".."@
}

/// Calls `Path::join` of std. The name stands behind the base, with the
/// platform's separator between them unless the base needs none. A verbatim
/// Windows path is normalised when it is joined; of that case no more is said
/// than that the name is the last component.
#[verifier::external_body]
fn join_path(base: &str, name: &str) -> (r: String)
    requires
        is_plain_name(name@),
    ensures
        is_verbatim(base@) ==> leads_to(name@, r@),
        !is_verbatim(base@) ==> is_joined(base@, name@, r@),
{
    std::path::Path::new(base).join(name).to_string_lossy().to_string()
}

proof fn lemma_downloads_is_plain()
    ensures
        is_plain_name("Downloads"@),
{
    reveal_strlit("Downloads");
    reveal_strlit(".");
    reveal_strlit("..");
    let name = "Downloads"@;
    assert forall|i: int| 0 <= i < name.len() implies name[i] != '/' && name[i] != '\\' && name[i]
        != ':' by {
        assert(i == 0 || i == 1 || i == 2 || i == 3 || i == 4 || i == 5 || i == 6 || i == 7 || i
            == 8);
    }
    assert(name.len() == 9 && "."@.len() == 1 && ".."@.len() == 2);
}

/// Picks the default download directory: the user's download directory, else
/// the `Downloads` directory of their home.
pub fn get_default_download_dir(download_dir: Option<String>, home: Option<String>) -> (r: Result<
    String,
    String,
>)
    ensures
        is_default_dir(text::opt_text(download_dir), text::opt_text(home), result_view(r)),
{
    match (download_dir, home) {
        (Some(d), _) => Ok(d),
        (None, Some(h)) => {
            proof {
                lemma_downloads_is_plain();
            }
            Ok(join_path(h.as_str(), "Downloads"))
        },
        (None, None) => Err("Could not resolve Downloads directory".to_owned()),
    }
}

/// Programs end in `.exe` on Windows and nowhere else get an ending; a bundled
/// program is looked for under the name with the target's triple first, where
/// programs are bundled for the target, and last under its plain name.
pub proof fn lemma_names_of_programs(target: Target, name: Seq<char>)
    ensures
        target.os == Os::Windows ==> program_name(target.os, name) == name + ".exe"@,
        target.os != Os::Windows ==> program_name(target.os, name) == name,
        bundle_names(target, name).last() == program_name(target.os, name),
        target.arch == Arch::X86_64 ==> {
            &&& target.os == Os::Windows && target.flavour == Flavour::Msvc ==> bundle_names(
                target,
                name,
            )[0] == name + "-"@ + "x86_64-pc-windows-msvc"@ + ".exe"@
            &&& target.os == Os::Windows && target.flavour == Flavour::Gnu ==> bundle_names(
                target,
                name,
            )[0] == name + "-"@ + "x86_64-pc-windows-gnu"@ + ".exe"@
            &&& target.os == Os::MacOs ==> bundle_names(target, name)[0] == name + "-"@
                + "x86_64-apple-darwin"@
            &&& target.os == Os::Linux ==> bundle_names(target, name)[0] == name + "-"@
                + "x86_64-unknown-linux-gnu"@
        },
        target.arch == Arch::Aarch64 ==> {
            &&& target.os == Os::MacOs ==> bundle_names(target, name)[0] == name + "-"@
                + "aarch64-apple-darwin"@
            &&& target.os == Os::Linux ==> bundle_names(target, name)[0] == name + "-"@
                + "aarch64-unknown-linux-gnu"@
            &&& target.os == Os::Windows ==> bundle_names(target, name).len() == 1
        },
        target.arch == Arch::Other || target.os == Os::OtherUnix || target.os == Os::Other
            ==> bundle_names(target, name).len() == 1,
        bundle_names(target, name).len() <= 2,
{
}

/// Every name is looked for in the `bin` directory and, after that, in the base
/// itself, and the names come one after the other.
pub proof fn lemma_places_of_programs(base: Base, names: Seq<Seq<char>>, i: int)
    requires
        0 <= i < names.len(),
    ensures
        program_places(base, names).len() == 2 * names.len(),
        program_places(base, names)[2 * i] == place(base, seq!["bin"@, names[i]]),
        program_places(base, names)[2 * i + 1] == place(base, seq![names[i]]),
    decreases names.len(),
{
    let before = names.drop_last();
    if i < before.len() {
        lemma_places_of_programs(base, before, i);
        assert(before[i] == names[i]);
    } else if before.len() > 0 {
        lemma_places_of_programs(base, before, 0);
    } else {
        assert(program_places(base, before).len() == 0);
    }
}

/// yt-dlp is looked for below the resources first, then beside the executable,
/// and nowhere below a base that is not known.
pub proof fn lemma_places_of_yt_dlp(known: KnownBases, target: Target, i: int)
    requires
        0 <= i < yt_dlp_places(known, target).len(),
    ensures
        ({
            let places = yt_dlp_places(known, target);
            let names = bundle_names(target, "yt-dlp"@);
            let n = 2 * names.len();
            &&& known.resources && known.executable ==> places.len() == 2 * n
            &&& known.resources != known.executable ==> places.len() == n
            &&& known.resources ==> places[0] == place(Base::Resources, seq!["bin"@, names[0]])
                && places[1] == place(Base::Resources, seq![names[0]])
            &&& known.executable ==> places[places.len() - n] == place(
                Base::Executable,
                seq!["bin"@, names[0]],
            ) && places[places.len() - n + 1] == place(Base::Executable, seq![names[0]])
            &&& known.resources || known.executable
        }),
{
    let names = bundle_names(target, "yt-dlp"@);
    lemma_places_of_programs(Base::Resources, names, 0);
    lemma_places_of_programs(Base::Executable, names, 0);
}

/// The base directories in the order in which they are searched.
pub open spec fn base_order(base: Base) -> int {
    match base {
        Base::Resources => 0,
        Base::Executable => 1,
        Base::Working => 2,
        Base::Manifest => 3,
        Base::ManifestParent => 4,
    }
}

/// Whether a base directory is known.
pub open spec fn is_known(known: KnownBases, base: Base) -> bool {
    match base {
        Base::Resources => known.resources,
        Base::Executable => known.executable,
        Base::Working => known.working,
        Base::Manifest => known.manifest,
        Base::ManifestParent => known.manifest && known.manifest_parent,
    }
}

/// aria2 is looked for below known bases only, the resources before the
/// directory of the executable and that before the working directory; where a
/// base is known its `bin` directory is searched too.
pub proof fn lemma_places_of_aria2(known: KnownBases, i: int, j: int)
    requires
        0 <= i < j < aria2_places(known).len(),
    ensures
        is_known(known, aria2_places(known)[i].base),
        is_known(known, aria2_places(known)[j].base),
        base_order(aria2_places(known)[i].base) <= base_order(aria2_places(known)[j].base),
        known.resources ==> aria2_places(known)[0] == place(Base::Resources, seq![]),
        known.executable ==> aria2_places(known).contains(place(Base::Executable, seq![])),
        known.executable ==> aria2_places(known).contains(place(Base::Executable, seq!["bin"@])),
        known.working ==> aria2_places(known).contains(place(Base::Working, seq!["bin"@])),
        known.working ==> aria2_places(known).contains(
            place(Base::Working, seq!["src-tauri"@, "bin"@]),
        ),
        known.working ==> aria2_places(known).contains(
            place(Base::Working, seq![".."@, "src-tauri"@, "bin"@]),
        ),
        known.working ==> aria2_places(known).contains(place(Base::Working, seq![])),
{
    let a = aria2_places(known);
    let m: int = if known.resources {
        1
    } else {
        0
    };
    let w: int = if known.executable {
        m + 2
    } else {
        m
    };
    if known.executable {
        assert(a[m] == place(Base::Executable, seq![]));
        assert(a[m + 1] == place(Base::Executable, seq!["bin"@]));
    }
    if known.working {
        assert(a[w] == place(Base::Working, seq![]));
        assert(a[w + 1] == place(Base::Working, seq!["bin"@]));
        assert(a[w + 3] == place(Base::Working, seq![".."@, "src-tauri"@, "bin"@]));
        assert(a[w + 2] == place(Base::Working, seq!["src-tauri"@, "bin"@]));
    }
}

/// FFmpeg is looked for below known bases only, the resources before the
/// directory of the executable; where a base is known its `bin` directory, and
/// the one for Windows below it, are searched too.
#[verifier::rlimit(40)]
pub proof fn lemma_places_of_ffmpeg(known: KnownBases, i: int, j: int)
    requires
        0 <= i < j < ffmpeg_places(known).len(),
    ensures
        is_known(known, ffmpeg_places(known)[i].base),
        is_known(known, ffmpeg_places(known)[j].base),
        base_order(ffmpeg_places(known)[i].base) <= base_order(ffmpeg_places(known)[j].base),
        known.resources ==> ffmpeg_places(known)[0] == place(
            Base::Resources,
            seq!["bin"@, "ffmpeg"@, "windows"@],
        ),
        known.resources ==> ffmpeg_places(known).contains(place(Base::Resources, seq!["bin"@])),
        known.executable ==> ffmpeg_places(known).contains(place(Base::Executable, seq!["bin"@])),
        known.executable ==> ffmpeg_places(known).contains(
            place(Base::Executable, seq!["bin"@, "ffmpeg"@, "windows"@]),
        ),
{
    let f = ffmpeg_places(known);
    let k: int = if known.resources {
        5
    } else {
        0
    };
    if known.resources {
        assert(f[3] == place(Base::Resources, seq!["bin"@]));
    }
    if known.executable {
        assert(f[k + 3] == place(Base::Executable, seq!["bin"@]));
        assert(f[k + 1] == place(Base::Executable, seq!["bin"@, "ffmpeg"@, "windows"@]));
    }
}

/// The directories in which FFmpeg is looked for below a base.
#[verifier::rlimit(40)]
pub proof fn lemma_directories_of_ffmpeg(known: KnownBases)
    ensures
        known.resources ==> {
            let f = ffmpeg_places(known);
            &&& f.contains(place(Base::Resources, seq!["bin"@, "ffmpeg"@, "windows"@]))
            &&& f.contains(
                place(Base::Resources, seq!["resources"@, "bin"@, "ffmpeg"@, "windows"@]),
            )
            &&& f.contains(place(Base::Resources, seq!["ffmpeg"@, "windows"@]))
            &&& f.contains(place(Base::Resources, seq!["bin"@]))
            &&& f.contains(place(Base::Resources, seq![]))
        },
        known.executable ==> {
            let f = ffmpeg_places(known);
            &&& f.contains(
                place(Base::Executable, seq!["resources"@, "bin"@, "ffmpeg"@, "windows"@]),
            )
            &&& f.contains(place(Base::Executable, seq!["bin"@, "ffmpeg"@, "windows"@]))
            &&& f.contains(place(Base::Executable, seq!["ffmpeg"@, "windows"@]))
            &&& f.contains(place(Base::Executable, seq!["bin"@]))
            &&& f.contains(place(Base::Executable, seq![]))
        },
        known.manifest ==> {
            let f = ffmpeg_places(known);
            &&& f.contains(
                place(Base::Manifest, seq!["resources"@, "bin"@, "ffmpeg"@, "windows"@]),
            )
            &&& f.contains(place(Base::Manifest, seq!["bin"@, "ffmpeg"@, "windows"@]))
        },
        known.manifest && known.manifest_parent ==> {
            let f = ffmpeg_places(known);
            &&& f.contains(place(Base::ManifestParent, seq!["target"@, "release"@]))
            &&& f.contains(place(Base::ManifestParent, seq!["target"@, "debug"@]))
        },
{
    let f = ffmpeg_places(known);
    let k: int = if known.resources {
        5
    } else {
        0
    };
    let n: int = if known.executable {
        k + 5
    } else {
        k
    };
    if known.resources {
        assert(f[0] == place(Base::Resources, seq!["bin"@, "ffmpeg"@, "windows"@]));
        assert(f[1] == place(
            Base::Resources,
            seq!["resources"@, "bin"@, "ffmpeg"@, "windows"@],
        ));
        assert(f[2] == place(Base::Resources, seq!["ffmpeg"@, "windows"@]));
        assert(f[3] == place(Base::Resources, seq!["bin"@]));
        assert(f[4] == place(Base::Resources, seq![]));
    }
    if known.executable {
        assert(f[k] == place(
            Base::Executable,
            seq!["resources"@, "bin"@, "ffmpeg"@, "windows"@],
        ));
        assert(f[k + 1] == place(Base::Executable, seq!["bin"@, "ffmpeg"@, "windows"@]));
        assert(f[k + 2] == place(Base::Executable, seq!["ffmpeg"@, "windows"@]));
        assert(f[k + 3] == place(Base::Executable, seq!["bin"@]));
        assert(f[k + 4] == place(Base::Executable, seq![]));
    }
    if known.manifest {
        assert(f[n] == place(
            Base::Manifest,
            seq!["resources"@, "bin"@, "ffmpeg"@, "windows"@],
        ));
        assert(f[n + 1] == place(Base::Manifest, seq!["bin"@, "ffmpeg"@, "windows"@]));
    }
    if known.manifest && known.manifest_parent {
        assert(f[n + 2] == place(Base::ManifestParent, seq!["target"@, "release"@]));
        assert(f[n + 3] == place(Base::ManifestParent, seq!["target"@, "debug"@]));
    }
}

/// The folder of a path: a directory is opened itself and a file's parent in its
/// place, and what does not exist is refused by name; white space around the
/// path makes no difference.
pub proof fn lemma_folders_of_paths(
    before: Seq<char>,
    path: Seq<char>,
    after: Seq<char>,
    parent: Option<Seq<char>>,
)
    requires
        forall|i: int| 0 <= i < before.len() ==> text::is_white(#[trigger] before[i]),
        forall|i: int| 0 <= i < after.len() ==> text::is_white(#[trigger] after[i]),
        path.len() > 0,
        !text::is_white(path[0]) && !text::is_white(path.last()),
    ensures
        folder_for(before + path + after, PathKind::Directory, parent) == Ok::<
            Seq<char>,
            Seq<char>,
        >(path),
        folder_for(before + path + after, PathKind::Neither, parent) == Err::<Seq<char>, Seq<char>>(
            "Folder does not exist: "@ + path,
        ),
        parent matches Some(folder) ==> folder_for(before + path + after, PathKind::File, parent)
            == Ok::<Seq<char>, Seq<char>>(folder),
        parent is None ==> folder_for(before + path + after, PathKind::File, parent) == Err::<
            Seq<char>,
            Seq<char>,
        >("Could not resolve parent folder: "@ + path),
{
    text::lemma_trimmed_parts(before, path, after, text::CharClass::Whitespace);
}

/// Each system has its own program to open things with, and a launch is an error
/// exactly if nothing was started.
pub proof fn lemma_openers(what: OpenWhat, launch: Launch)
    ensures
        opener_of(Os::Windows) == Some("explorer"@),
        opener_of(Os::MacOs) == Some("open"@),
        opener_of(Os::Linux) == Some("xdg-open"@),
        opener_of(Os::OtherUnix) == Some("xdg-open"@),
        opener_of(Os::Other) is None,
        launch_error(what, launch) is None <==> launch is Started,
        launch matches Launch::Failed(e) ==> text::finishes_with(launch_error(what, launch)->0, e@),
        launch_error(OpenWhat::Folder, Launch::NoOpener) == Some(
            "Open folder is not supported on this platform"@,
        ),
        launch_error(OpenWhat::YouTube, Launch::NoOpener) == Some(
            "Opening YouTube is not supported on this platform"@,
        ),
{
    if let Launch::Failed(e) = launch {
        let t = launch_error(what, launch)->0;
        assert(t.subrange(t.len() - e@.len(), t.len() as int) =~= e@);
    }
}

/// The user's download directory is used wherever it is known, whatever the home
/// is, and there is an error only where neither is known.
pub proof fn lemma_default_dir(
    download_dir: Option<Seq<char>>,
    home: Option<Seq<char>>,
    r: Result<Seq<char>, Seq<char>>,
)
    requires
        is_default_dir(download_dir, home, r),
    ensures
        download_dir matches Some(d) ==> r == Ok::<Seq<char>, Seq<char>>(d),
        r is Err <==> download_dir is None && home is None,
        r matches Err(e) ==> e == "Could not resolve Downloads directory"@,
        download_dir is None && home is Some ==> (r matches Ok(p) && text::finishes_with(
            p,
            "Downloads"@,
        )),
        download_dir is None ==> (home matches Some(h) ==> (!is_verbatim(h) ==> text::begins_with(
            r->Ok_0,
            h,
        ))),
{
    if download_dir is None {
        if let Some(h) = home {
            let p = r->Ok_0;
            let d = "Downloads"@;
            if is_verbatim(h) {
                let n = p.len() as int;
                if text::finishes_with(p, seq!['/'] + d) {
                    assert(p.subrange(n - d.len() - 1, n).skip(1) =~= d);
                } else {
                    assert(p.subrange(n - d.len() - 1, n).skip(1) =~= d);
                }
                assert(p.subrange(n - d.len(), n) =~= p.subrange(n - d.len() - 1, n).skip(1));
            } else {
                assert(p.subrange(p.len() - d.len(), p.len() as int) =~= d);
                assert(p.subrange(0, h.len() as int) =~= h);
            }
        }
    }
}

} // verus!
