//! Reads the progress out of aria2's console readout.
use vstd::prelude::*;
use vstd::string::*;
use crate::aria2;
use crate::regexes;
use crate::text;

verus! {

/// A size as it is written: the digits, and the number of bytes of its unit.
#[derive(Debug)]
pub struct SizeText {
    pub number: String,
    pub factor: u64,
}

/// A written size by its contents.
pub struct SizeView {
    pub number: Seq<char>,
    pub factor: u64,
}

/// An optional written size by its contents.
pub open spec fn size_view(o: Option<SizeText>) -> Option<SizeView> {
    match o {
        Some(s) => Some(SizeView { number: s.number@, factor: s.factor }),
        None => None,
    }
}

/// The number of bytes of a unit, whatever the case of its letters; 1 for an
/// unknown unit.
pub open spec fn unit_factor(unit: Seq<char>) -> u64 {
    let u = text::ascii_lower(unit);
    if u == "b"@ {
        1
    } else if u == "kb"@ {
        1_000
    } else if u == "kib"@ {
        1_024
    } else if u == "mb"@ {
        1_000_000
    } else if u == "mib"@ {
        1_048_576
    } else if u == "gb"@ {
        1_000_000_000
    } else if u == "gib"@ {
        1_073_741_824
    } else if u == "tb"@ {
        1_000_000_000_000
    } else if u == "tib"@ {
        1_099_511_627_776
    } else if u == "pb"@ {
        1_000_000_000_000_000
    } else if u == "pib"@ {
        1_125_899_906_842_624
    } else {
        1
    }
}

/// The number of bytes of a unit.
pub fn factor_of_unit(unit: &str) -> (r: u64)
    ensures
        r == unit_factor(unit@),
{
    let lowered = text::to_ascii_lowercase(unit);
    let u = lowered.as_str();
    if text::same_text(u, "b") {
        1
    } else if text::same_text(u, "kb") {
        1_000
    } else if text::same_text(u, "kib") {
        1_024
    } else if text::same_text(u, "mb") {
        1_000_000
    } else if text::same_text(u, "mib") {
        1_048_576
    } else if text::same_text(u, "gb") {
        1_000_000_000
    } else if text::same_text(u, "gib") {
        1_073_741_824
    } else if text::same_text(u, "tb") {
        1_000_000_000_000
    } else if text::same_text(u, "tib") {
        1_099_511_627_776
    } else if text::same_text(u, "pb") {
        1_000_000_000_000_000
    } else if text::same_text(u, "pib") {
        1_125_899_906_842_624
    } else {
        1
    }
}

/// A size out of the groups of the size pattern: the digits and the unit.
pub open spec fn size_of_groups(groups: Option<Seq<Option<Seq<char>>>>) -> Option<SizeView> {
    match groups {
        Some(g) => match (regexes::group_of(g, 1), regexes::group_of(g, 2)) {
            (Some(number), Some(unit)) => Some(SizeView { number, factor: unit_factor(unit) }),
            _ => None,
        },
        None => None,
    }
}

/// A written size, where the text is one; spaces in it do not count.
pub open spec fn size_of(value: Seq<char>) -> Option<SizeView> {
    size_of_groups(
        regexes::found_groups(aria2::BYTES_RE@, text::without_spaces(text::trimmed(value))),
    )
}

/// Reads a size out of the groups of the size pattern.
pub fn size_from_groups(groups: Option<Vec<Option<String>>>) -> (r: Option<SizeText>)
    ensures
        size_view(r) == size_of_groups(regexes::captures_view(groups)),
{
    match groups {
        Some(g) => {
            let number = regexes::group(&g, 1);
            let unit = regexes::group(&g, 2);
            match (number, unit) {
                (Some(number), Some(unit)) => {
                    let factor = factor_of_unit(unit.as_str());
                    Some(SizeText { number, factor })
                },
                _ => None,
            }
        },
        None => None,
    }
}

/// Reads a written size. The number of bytes is the digits, as a decimal
/// fraction, times the factor, rounded.
pub fn parse_bytes(value: &str) -> (r: Option<SizeText>)
    ensures
        size_view(r) == size_of(value@),
{
    let trimmed = text::trim(value);
    let compact = text::remove_spaces(trimmed.as_str());
    let groups = regexes::find_groups(aria2::BYTES_RE, compact.as_str());
    size_from_groups(groups)
}

/// What aria2's console last said of the transfer.
#[derive(Debug)]
pub struct ProgressSnapshot {
    pub pct: u32,
    pub downloaded: String,
    pub total: String,
    pub speed: String,
    pub eta: String,
}

/// A snapshot by its contents.
pub struct SnapshotView {
    pub pct: u32,
    pub downloaded: Seq<char>,
    pub total: Seq<char>,
    pub speed: Seq<char>,
    pub eta: Seq<char>,
}

impl View for ProgressSnapshot {
    type V = SnapshotView;

    open spec fn view(&self) -> SnapshotView {
        SnapshotView {
            pct: self.pct,
            downloaded: self.downloaded@,
            total: self.total@,
            speed: self.speed@,
            eta: self.eta@,
        }
    }
}

/// The snapshot before the console said anything.
pub open spec fn no_progress() -> SnapshotView {
    SnapshotView { pct: 0, downloaded: "-"@, total: "-"@, speed: "-"@, eta: "-"@ }
}

impl Default for ProgressSnapshot {
    fn default() -> (r: Self)
        ensures
            r@ == no_progress(),
    {
        ProgressSnapshot {
            pct: 0,
            downloaded: "-".to_owned(),
            total: "-".to_owned(),
            speed: "-".to_owned(),
            eta: "-".to_owned(),
        }
    }
}

/// The fields of a progress line, as they are written.
#[derive(Debug)]
pub struct ProgressFields {
    pub downloaded: String,
    pub total: Option<String>,
    pub pct: Option<String>,
    pub speed: Option<String>,
    pub eta: Option<String>,
}

/// The fields of a progress line by their contents.
pub struct FieldsView {
    pub downloaded: Seq<char>,
    pub total: Option<Seq<char>>,
    pub pct: Option<Seq<char>>,
    pub speed: Option<Seq<char>>,
    pub eta: Option<Seq<char>>,
}

impl View for ProgressFields {
    type V = FieldsView;

    open spec fn view(&self) -> FieldsView {
        FieldsView {
            downloaded: self.downloaded@,
            total: text::opt_text(self.total),
            pct: text::opt_text(self.pct),
            speed: text::opt_text(self.speed),
            eta: text::opt_text(self.eta),
        }
    }
}

/// Optional fields by their contents.
pub open spec fn opt_fields(o: Option<ProgressFields>) -> Option<FieldsView> {
    match o {
        Some(f) => Some(f@),
        None => None,
    }
}

/// A group's text without spaces.
pub open spec fn compact_group(groups: Seq<Option<Seq<char>>>, i: int) -> Option<Seq<char>> {
    match regexes::group_of(groups, i) {
        Some(s) => Some(text::without_spaces(s)),
        None => None,
    }
}

/// The first group of a pattern that may not match.
pub open spec fn first_group(groups: Option<Seq<Option<Seq<char>>>>) -> Option<Seq<char>> {
    match groups {
        Some(g) => regexes::group_of(g, 1),
        None => None,
    }
}

/// The fields that the patterns' groups hold: `sizes` are those of the size
/// pattern, `speed` and `eta` those of the two patterns that may not match.
pub open spec fn fields_of_groups(
    sizes: Option<Seq<Option<Seq<char>>>>,
    speed: Option<Seq<Option<Seq<char>>>>,
    eta: Option<Seq<Option<Seq<char>>>>,
) -> Option<FieldsView> {
    match sizes {
        None => None,
        Some(g) => match compact_group(g, 1) {
            None => None,
            Some(downloaded) => Some(
                FieldsView {
                    downloaded,
                    total: compact_group(g, 2),
                    pct: regexes::group_of(g, 3),
                    speed: match first_group(speed) {
                        Some(s) => Some(text::without_spaces(s)),
                        None => None,
                    },
                    eta: first_group(eta),
                },
            ),
        },
    }
}

/// The fields of a progress line; `None` where the line is none.
pub open spec fn progress_fields(line: Seq<char>) -> Option<FieldsView> {
    match regexes::found_groups(aria2::PROGRESS_RE@, line) {
        None => None,
        Some(g) => match regexes::group_of(g, 2) {
            None => None,
            Some(body) => fields_of_groups(
                regexes::found_groups(aria2::SIZE_PAIR_RE@, body),
                regexes::found_groups(aria2::SPEED_RE@, body),
                regexes::found_groups(aria2::ETA_RE@, body),
            ),
        },
    }
}

fn compact_group_of(groups: &Vec<Option<String>>, i: usize) -> (r: Option<String>)
    ensures
        text::opt_text(r) == compact_group(regexes::group_texts(groups@), i as int),
{
    match regexes::group(groups, i) {
        Some(s) => Some(text::remove_spaces(s.as_str())),
        None => None,
    }
}

/// Collects the fields of a progress line out of the patterns' groups.
pub fn fields_from_groups(
    sizes: Option<Vec<Option<String>>>,
    speed: Option<Vec<Option<String>>>,
    eta: Option<Vec<Option<String>>>,
) -> (r: Option<ProgressFields>)
    ensures
        opt_fields(r) == fields_of_groups(
            regexes::captures_view(sizes),
            regexes::captures_view(speed),
            regexes::captures_view(eta),
        ),
{
    match sizes {
        None => None,
        Some(g) => match compact_group_of(&g, 1) {
            None => None,
            Some(downloaded) => Some(
                ProgressFields {
                    downloaded,
                    total: compact_group_of(&g, 2),
                    pct: regexes::group(&g, 3),
                    speed: match speed {
                        Some(s) => compact_group_of(&s, 1),
                        None => None,
                    },
                    eta: match eta {
                        Some(e) => regexes::group(&e, 1),
                        None => None,
                    },
                },
            ),
        },
    }
}

/// Reads the fields of a progress line.
pub fn read_progress(line: &str) -> (r: Option<ProgressFields>)
    ensures
        opt_fields(r) == progress_fields(line@),
{
    match regexes::find_groups(aria2::PROGRESS_RE, line) {
        None => None,
        Some(g) => match regexes::group(&g, 2) {
            None => None,
            Some(body) => {
                let sizes = regexes::find_groups(aria2::SIZE_PAIR_RE, body.as_str());
                let speed = regexes::find_groups(aria2::SPEED_RE, body.as_str());
                let eta = regexes::find_groups(aria2::ETA_RE, body.as_str());
                fields_from_groups(sizes, speed, eta)
            },
        },
    }
}

/// The total that a progress line leaves in force: its own, else the last one.
pub open spec fn total_after(fields: FieldsView, last: SnapshotView) -> Seq<char> {
    match fields.total {
        Some(total) => total,
        None => last.total,
    }
}

/// The total that a progress line leaves in force.
pub fn total_in_force(fields: &ProgressFields, last: &ProgressSnapshot) -> (r: String)
    ensures
        r@ == total_after(fields@, last@),
{
    match &fields.total {
        Some(total) => total.clone(),
        None => last.total.clone(),
    }
}

/// The sizes of which a percentage can be made: both are known, and the total
/// is not zero.
pub fn comparable_sizes(done: Option<u64>, total: Option<u64>) -> (r: Option<(u64, u64)>)
    ensures
        r == (match (done, total) {
            (Some(d), Some(t)) => if t == 0 {
                None
            } else {
                Some((d, t))
            },
            _ => None,
        }),
        r matches Some((d, t)) ==> t > 0 && done == Some(d) && total == Some(t),
        r is None ==> done is None || total is None || total == Some(0u64),
{
    match (done, total) {
        (Some(d), Some(t)) => if t == 0 {
            None
        } else {
            Some((d, t))
        },
        _ => None,
    }
}

/// The percentage to show: the one the line gives, else the one that its sizes
/// give, else the last one; at most 100.
pub open spec fn percent_after(given: Option<u32>, from_sizes: Option<u32>, last: u32) -> u32 {
    let p = match (given, from_sizes) {
        (Some(n), _) => n,
        (None, Some(n)) => n,
        (None, None) => last,
    };
    if p > 100 {
        100
    } else {
        p
    }
}

/// The snapshot after a progress line with the given fields. `given` is the
/// percentage that the line gives, `from_sizes` the one that its sizes give.
pub open spec fn snapshot_after(
    fields: FieldsView,
    given: Option<u32>,
    from_sizes: Option<u32>,
    last: SnapshotView,
) -> SnapshotView {
    SnapshotView {
        pct: percent_after(given, from_sizes, last.pct),
        downloaded: fields.downloaded,
        total: total_after(fields, last),
        speed: match fields.speed {
            Some(s) => if text::finishes_with(s, "/s"@) {
                s
            } else {
                s + "/s"@
            },
            None => last.speed,
        },
        eta: match fields.eta {
            Some(e) => e,
            None => last.eta,
        },
    }
}

/// Moves on from the last snapshot to the one that the fields give.
pub fn next_snapshot(
    fields: &ProgressFields,
    given: Option<u32>,
    from_sizes: Option<u32>,
    last: &ProgressSnapshot,
) -> (r: ProgressSnapshot)
    ensures
        r@ == snapshot_after(fields@, given, from_sizes, last@),
        r.pct <= 100,
        given matches Some(n) ==> (n <= 100 ==> r.pct == n),
{
    let p: u32 = match (given, from_sizes) {
        (Some(n), _) => n,
        (None, Some(n)) => n,
        (None, None) => last.pct,
    };
    ProgressSnapshot {
        pct: if p > 100 {
            100
        } else {
            p
        },
        downloaded: fields.downloaded.clone(),
        total: total_in_force(fields, last),
        speed: match &fields.speed {
            Some(s) => if text::ends_with(s.as_str(), "/s") {
                s.clone()
            } else {
                text::concat2(s.as_str(), "/s")
            },
            None => last.speed.clone(),
        },
        eta: match &fields.eta {
            Some(e) => e.clone(),
            None => last.eta.clone(),
        },
    }
}

/// Reads a progress line. `given` and `from_sizes` are the two percentages that
/// the line's fields give.
pub fn parse_progress_line(
    line: &str,
    given: Option<u32>,
    from_sizes: Option<u32>,
    last: &ProgressSnapshot,
) -> (r: Option<ProgressSnapshot>)
    ensures
        match progress_fields(line@) {
            Some(fields) => r matches Some(next) && next@ == snapshot_after(
                fields,
                given,
                from_sizes,
                last@,
            ),
            None => r is None,
        },
{
    match read_progress(line) {
        Some(fields) => Some(next_snapshot(&fields, given, from_sizes, last)),
        None => None,
    }
}

/// The percentage that is shown is the one that the line gives, whatever its
/// sizes give and whatever was shown before; without one it is that of the
/// sizes, and without those the last one stays. What is above one hundred is
/// shown as one hundred.
pub proof fn lemma_shown_percentage(
    fields: FieldsView,
    given: Option<u32>,
    from_sizes: Option<u32>,
    last: SnapshotView,
)
    ensures
        ({
            let pct = snapshot_after(fields, given, from_sizes, last).pct;
            &&& given matches Some(n) ==> (n <= 100 ==> pct == n) && (n > 100 ==> pct == 100)
            &&& given is None ==> (from_sizes matches Some(n) ==> (n <= 100 ==> pct == n) && (n
                > 100 ==> pct == 100))
            &&& given is None && from_sizes is None && last.pct <= 100 ==> pct == last.pct
            &&& pct <= 100
        }),
{
}

/// What a progress line gives is shown, and what it leaves out stays; a speed
/// is always shown per second.
pub proof fn lemma_shown_fields(
    fields: FieldsView,
    given: Option<u32>,
    from_sizes: Option<u32>,
    last: SnapshotView,
)
    ensures
        ({
            let next = snapshot_after(fields, given, from_sizes, last);
            &&& next.downloaded == fields.downloaded
            &&& fields.total matches Some(t) ==> next.total == t
            &&& fields.total is None ==> next.total == last.total
            &&& fields.eta matches Some(e) ==> next.eta == e
            &&& fields.eta is None ==> next.eta == last.eta
            &&& fields.speed is None ==> next.speed == last.speed
            &&& fields.speed matches Some(s) ==> {
                &&& text::finishes_with(next.speed, "/s"@)
                &&& text::begins_with(next.speed, s)
                &&& next.speed.len() == s.len() <==> text::finishes_with(s, "/s"@)
                &&& next.speed.len() <= s.len() + 2
            }
        }),
{
    reveal_strlit("/s");
    if let Some(s) = fields.speed {
        let joined = s + "/s"@;
        assert(joined.subrange(joined.len() - 2, joined.len() as int) =~= "/s"@);
        assert(joined.subrange(0, s.len() as int) =~= s);
        assert(s.subrange(0, s.len() as int) =~= s);
    }
}

/// The decimal units go in steps of one thousand, the binary ones in steps of
/// 1024, and a unit's letters count whatever their case.
pub proof fn lemma_units_go_in_steps(unit: Seq<char>)
    ensures
        unit_factor("b"@) == 1,
        unit_factor("kb"@) == 1000 * unit_factor("b"@),
        unit_factor("mb"@) == 1000 * unit_factor("kb"@),
        unit_factor("gb"@) == 1000 * unit_factor("mb"@),
        unit_factor("tb"@) == 1000 * unit_factor("gb"@),
        unit_factor("pb"@) == 1000 * unit_factor("tb"@),
        unit_factor("kib"@) == 1024 * unit_factor("b"@),
        unit_factor("mib"@) == 1024 * unit_factor("kib"@),
        unit_factor("gib"@) == 1024 * unit_factor("mib"@),
        unit_factor("tib"@) == 1024 * unit_factor("gib"@),
        unit_factor("pib"@) == 1024 * unit_factor("tib"@),
        unit_factor(text::ascii_lower(unit)) == unit_factor(unit),
{
    reveal_strlit("b");
    reveal_strlit("kb");
    reveal_strlit("mb");
    reveal_strlit("gb");
    reveal_strlit("tb");
    reveal_strlit("pb");
    reveal_strlit("kib");
    reveal_strlit("mib");
    reveal_strlit("gib");
    reveal_strlit("tib");
    reveal_strlit("pib");
    assert(text::ascii_lower("b"@) =~= "b"@);
    assert(text::ascii_lower("kb"@) =~= "kb"@);
    assert(text::ascii_lower("mb"@) =~= "mb"@);
    assert(text::ascii_lower("gb"@) =~= "gb"@);
    assert(text::ascii_lower("tb"@) =~= "tb"@);
    assert(text::ascii_lower("pb"@) =~= "pb"@);
    assert(text::ascii_lower("kib"@) =~= "kib"@);
    assert(text::ascii_lower("mib"@) =~= "mib"@);
    assert(text::ascii_lower("gib"@) =~= "gib"@);
    assert(text::ascii_lower("tib"@) =~= "tib"@);
    assert(text::ascii_lower("pib"@) =~= "pib"@);
    assert("kb"@[0] == 'k' && "mb"@[0] == 'm' && "gb"@[0] == 'g' && "tb"@[0] == 't' && "pb"@[0]
        == 'p');
    assert("kib"@[0] == 'k' && "mib"@[0] == 'm' && "gib"@[0] == 'g' && "tib"@[0] == 't' && "pib"@[0]
        == 'p');
    assert("b"@.len() == 1 && "kb"@.len() == 2 && "mb"@.len() == 2 && "gb"@.len() == 2 && "tb"@.len()
        == 2 && "pb"@.len() == 2 && "kib"@.len() == 3 && "mib"@.len() == 3 && "gib"@.len() == 3
        && "tib"@.len() == 3 && "pib"@.len() == 3);
    assert(text::ascii_lower(text::ascii_lower(unit)) =~= text::ascii_lower(unit));
}

/// The fields of a progress line are what the groups of the patterns hold, the
/// sizes and the speed without their spaces.
pub proof fn lemma_fields_are_the_groups(
    g: Seq<Option<Seq<char>>>,
    speed: Option<Seq<Option<Seq<char>>>>,
    eta: Option<Seq<Option<Seq<char>>>>,
    done: Seq<char>,
)
    requires
        g.len() == 4,
        g[1] == Some(done),
    ensures
        fields_of_groups(Some(g), speed, eta) matches Some(f) && {
            &&& f.downloaded == text::without_spaces(done)
            &&& g[2] matches Some(t) ==> f.total == Some(text::without_spaces(t))
            &&& g[2] is None ==> f.total is None
            &&& f.pct == g[3]
            &&& speed matches Some(s) ==> (s.len() == 2 ==> (s[1] matches Some(x) ==> f.speed
                == Some(text::without_spaces(x))))
            &&& speed is None ==> f.speed is None
            &&& eta matches Some(e) ==> (e.len() == 2 ==> f.eta == e[1])
            &&& eta is None ==> f.eta is None
        },
        fields_of_groups(None, speed, eta) is None,
{
}

/// A written size is the digits and the unit of the pattern; a text without
/// them is none.
pub proof fn lemma_sizes_of_groups(g: Seq<Option<Seq<char>>>, number: Seq<char>, unit: Seq<char>)
    requires
        g.len() == 3,
        g[1] == Some(number),
        g[2] == Some(unit),
    ensures
        size_of_groups(Some(g)) == Some(SizeView { number, factor: unit_factor(unit) }),
        size_of_groups(None) is None,
        text::ascii_lower(unit) == "mib"@ ==> (size_of_groups(Some(g)) matches Some(size)
            && size.factor == 1024 * 1024),
        text::ascii_lower(unit) == "mb"@ ==> (size_of_groups(Some(g)) matches Some(size)
            && size.factor == 1000 * 1000),
{
    lemma_units_go_in_steps(unit);
}

/// Before the console has said anything, nothing is known and nothing has come.
pub proof fn lemma_nothing_is_known_at_first()
    ensures
        no_progress().pct == 0,
        no_progress().downloaded == "-"@,
        no_progress().total == "-"@,
        no_progress().speed == "-"@,
        no_progress().eta == "-"@,
{
}

/// A progress line is read in two steps: the readout's body, and in it the sizes
/// with the percentage, the speed and the remaining time.
pub proof fn lemma_readouts(line: Seq<char>, g: Seq<Option<Seq<char>>>, body: Seq<char>)
    requires
        g.len() == 3,
        g[2] == Some(body),
    ensures
        regexes::found_groups(r"\[#(?P<gid>\S+)\s+(?P<body>[^\]]+)\]"@, line) == Some(g)
            ==> progress_fields(line) == fields_of_groups(
            regexes::found_groups(
                r"(?P<done>[\d.]+\s*(?:[KMGTP]?i?B|[KMGTP]?B|B))(?:/(?P<total>[\d.]+\s*(?:[KMGTP]?i?B|[KMGTP]?B|B)|\?+))?(?:\((?P<pct>[\d.]+)%\))?"@,
                body,
            ),
            regexes::found_groups(
                r"\bDL:(?P<speed>[\d.]+\s*(?:[KMGTP]?i?B|[KMGTP]?B|B))"@,
                body,
            ),
            regexes::found_groups(r"\bETA:(?P<eta>[^\s\]]+)"@, body),
        ),
        regexes::found_groups(r"\[#(?P<gid>\S+)\s+(?P<body>[^\]]+)\]"@, line) is None
            ==> progress_fields(line) is None,
{
}

/// Spaces inside a written size make no difference, and a size without any is
/// what the pattern finds in it.
pub proof fn lemma_spaces_in_sizes(number: Seq<char>, unit: Seq<char>)
    requires
        number.len() > 0,
        unit.len() > 0,
        !text::is_white(number[0]) && !text::is_white(number.last()),
        !text::is_white(unit[0]) && !text::is_white(unit.last()),
    ensures
        size_of(number + seq![' '] + unit) == size_of(number + unit),
        !(number + unit).contains(' ') ==> size_of(number + unit) == size_of_groups(
            regexes::found_groups(
                r"(?i)^([\d.]+)([KMGTP]?i?B|[KMGTP]?B|B)$"@,
                number + unit,
            ),
        ),
{
    let none = Seq::<char>::empty();
    let wide = number + seq![' '] + unit;
    let narrow = number + unit;
    text::lemma_trimmed_parts(none, wide, none, text::CharClass::Whitespace);
    text::lemma_trimmed_parts(none, narrow, none, text::CharClass::Whitespace);
    assert(none + wide + none =~= wide);
    assert(none + narrow + none =~= narrow);
    let keep = |c: char| c != ' ';
    Seq::filter_distributes_over_add(number + seq![' '], unit, keep);
    Seq::filter_distributes_over_add(number, seq![' '], keep);
    Seq::filter_distributes_over_add(number, unit, keep);
    assert(seq![' '].filter(keep) =~= none) by {
        reveal(Seq::filter);
        assert(seq![' '].drop_last() =~= none);
    }
    assert(number.filter(keep) + none =~= number.filter(keep));
    if !narrow.contains(' ') {
        text::lemma_spaces_are_taken_out(narrow, 0);
    }
}

} // verus!
