//! Builds progressively more permissive sets of extra aria2 CLI flags.
//! Each attempt uses one strategy from the ordered list until one succeeds.
use vstd::prelude::*;
use vstd::string::*;
use crate::text;
use crate::text::CharClass;

verus! {

/// One set of extra aria2 flags.
#[derive(Debug)]
pub struct Strategy {
    pub name: String,
    pub description: String,
    pub args: Vec<String>,
}

/// A strategy by its contents.
pub struct StrategyView {
    pub name: Seq<char>,
    pub description: Seq<char>,
    pub args: Seq<Seq<char>>,
}

impl View for Strategy {
    type V = StrategyView;

    open spec fn view(&self) -> StrategyView {
        StrategyView {
            name: self.name@,
            description: self.description@,
            args: text::texts(self.args@),
        }
    }
}

impl Clone for Strategy {
    fn clone(&self) -> (r: Self)
        ensures
            r@ == self@,
    {
        let args = text::clone_texts(&self.args);
        Strategy { name: self.name.clone(), description: self.description.clone(), args }
    }
}

/// A list of strategies by its contents.
pub open spec fn strategy_views(list: Seq<Strategy>) -> Seq<StrategyView> {
    Seq::new(list.len(), |i: int| list[i]@)
}

pub const UA_DESKTOP: &'static str = "Mozilla/5.0 (Windows NT 10.0; Win64; x64) AppleWebKit/537.36 (KHTML, like Gecko) Safari/537.36";

pub const UA_SAFARI: &'static str = "Mozilla/5.0 (Macintosh; Intel Mac OS X 14_4_1) AppleWebKit/605.1.15 (KHTML, like Gecko) Version/17.4.1 Safari/605.1.15";

/// `scheme://host` of a URL; empty where the URL has no `://`.
pub open spec fn origin(url: Seq<char>) -> Seq<char> {
    match text::split_first(url, "://"@) {
        Some((scheme, rest)) => scheme + "://"@ + text::before_first(rest, CharClass::Exactly('/')),
        None => Seq::empty(),
    }
}

/// `scheme://host/` of a URL; empty where the URL has no `://`.
pub open spec fn referer(url: Seq<char>) -> Seq<char> {
    if text::holds_text(url, "://"@) {
        origin(url) + "/"@
    } else {
        Seq::empty()
    }
}

/// The header flags of a browser that shows the user agent `ua`.
pub open spec fn header_args(ua: Seq<char>, url: Seq<char>) -> Seq<Seq<char>> {
    seq![
        "--user-agent="@ + ua,
        "--header=Accept: */*"@,
        "--header=Accept-Language: en-US,en;q=0.9,ar;q=0.8"@,
        "--header=Accept-Encoding: gzip, deflate, br"@,
        "--header=Referer: "@ + referer(url),
        "--header=Origin: "@ + origin(url),
        "--header=Connection: keep-alive"@,
        "--header=DNT: 1"@,
        "--header=Sec-Fetch-Dest: video"@,
        "--header=Sec-Fetch-Mode: no-cors"@,
        "--header=Sec-Fetch-Site: same-origin"@,
        "--header=Cache-Control: no-cache"@,
        "--header=Pragma: no-cache"@,
    ]
}

/// The ordered list of strategies for a URL.
pub open spec fn strategies(url: Seq<char>) -> Seq<StrategyView> {
    let desktop = header_args(UA_DESKTOP@, url);
    let safari = header_args(UA_SAFARI@, url);
    seq![
        StrategyView {
            name: "Default"@,
            description: "Single connection — safest starting point; avoids CDN range stalls"@,
            args: seq!["-x"@, "1"@, "-s"@, "1"@],
        },
        StrategyView {
            name: "Single Connection"@,
            description: "Single connection + explicit IPv4 — explicit range-stall bypass"@,
            args: seq!["-x"@, "1"@, "-s"@, "1"@, "--disable-ipv6=true"@],
        },
        StrategyView {
            name: "IPv4 Only"@,
            description: "Explicit IPv4, default connection count — isolates IPv6 routing issues"@,
            args: seq!["--disable-ipv6=true"@],
        },
        StrategyView {
            name: "Reduced Split"@,
            description: "4 connections, 4 splits — standard parallel download attempt"@,
            args: seq!["-x"@, "4"@, "-s"@, "4"@],
        },
        StrategyView {
            name: "Desktop Headers"@,
            description: "Desktop UA + Origin/Referer spoof (hotlink bypass)"@,
            args: desktop,
        },
        StrategyView {
            name: "Desktop / 1-conn"@,
            description: "Desktop headers + single connection to avoid CDN rate-limits"@,
            args: desktop + seq!["-x"@, "1"@, "-s"@, "1"@],
        },
        StrategyView {
            name: "Desktop / Skip-TLS"@,
            description: "Desktop headers + TLS certificate check disabled"@,
            args: desktop + seq!["--check-certificate=false"@],
        },
        StrategyView {
            name: "Desktop / HTTP1.1"@,
            description: "Desktop headers + HTTP/1.1 forced, no keep-alive"@,
            args: desktop + seq!["--http-no-cache=true"@, "--header=Connection: close"@],
        },
        StrategyView {
            name: "Safari / Relaxed"@,
            description: "Safari macOS UA + TLS disabled + 4 connections (last resort)"@,
            args: safari + seq!["--check-certificate=false"@, "-x"@, "4"@, "-s"@, "4"@],
        },
    ]
}

/// Extracts `scheme://host` and `scheme://host/` from a URL.
pub fn url_origin_referer(url: &str) -> (r: (String, String))
    ensures
        r.0@ == origin(url@),
        r.1@ == referer(url@),
{
    match text::split_once(url, "://") {
        Some((scheme, rest)) => {
            let host = text::before_first_of(rest.as_str(), CharClass::Exactly('/'));
            let origin = text::concat3(scheme.as_str(), "://", host.as_str());
            let referer = text::concat2(origin.as_str(), "/");
            (origin, referer)
        },
        None => (String::new(), String::new()),
    }
}

/// Builds the header flags of a browser that shows the user agent `ua`.
pub fn http_headers(ua: &str, url: &str) -> (r: Vec<String>)
    ensures
        text::texts(r@) == header_args(ua@, url@),
{
    let (origin, referer) = url_origin_referer(url);
    let agent = text::concat2("--user-agent=", ua);
    let referer_arg = text::concat2("--header=Referer: ", referer.as_str());
    let origin_arg = text::concat2("--header=Origin: ", origin.as_str());
    let mut args: Vec<String> = Vec::new();
    text::push_texts(
        &mut args,
        &[
            agent.as_str(),
            "--header=Accept: */*",
            "--header=Accept-Language: en-US,en;q=0.9,ar;q=0.8",
            "--header=Accept-Encoding: gzip, deflate, br",
            referer_arg.as_str(),
            origin_arg.as_str(),
            "--header=Connection: keep-alive",
            "--header=DNT: 1",
            "--header=Sec-Fetch-Dest: video",
            "--header=Sec-Fetch-Mode: no-cors",
            "--header=Sec-Fetch-Site: same-origin",
            "--header=Cache-Control: no-cache",
            "--header=Pragma: no-cache",
        ],
    );
    args
}

/// A strategy whose flags are `base` and then `extra`.
fn make_strategy(name: &str, description: &str, base: &Vec<String>, extra: &[&str]) -> (r: Strategy)
    ensures
        r@.name == name@,
        r@.description == description@,
        r@.args == text::texts(base@) + text::slice_texts(extra@),
{
    let mut args = text::clone_texts(base);
    text::push_texts(&mut args, extra);
    Strategy { name: name.to_owned(), description: description.to_owned(), args }
}

/// Builds the ordered list of strategies for a URL.
pub fn build_strategies(url: &str) -> (r: Vec<Strategy>)
    ensures
        strategy_views(r@) == strategies(url@),
{
    let plain: Vec<String> = Vec::new();
    let desktop = http_headers(UA_DESKTOP, url);
    let safari = http_headers(UA_SAFARI, url);
    let mut list: Vec<Strategy> = Vec::new();

    // A single connection avoids the range-request stalls of CDNs that parallel
    // splits cause.
    list.push(
        make_strategy(
            "Default",
            "Single connection — safest starting point; avoids CDN range stalls",
            &plain,
            &["-x", "1", "-s", "1"],
        ),
    );
    assert(list@[0]@.args =~= strategies(url@)[0].args);
    list.push(
        make_strategy(
            "Single Connection",
            "Single connection + explicit IPv4 — explicit range-stall bypass",
            &plain,
            &["-x", "1", "-s", "1", "--disable-ipv6=true"],
        ),
    );
    assert(list@[1]@.args =~= strategies(url@)[1].args);
    list.push(
        make_strategy(
            "IPv4 Only",
            "Explicit IPv4, default connection count — isolates IPv6 routing issues",
            &plain,
            &["--disable-ipv6=true"],
        ),
    );
    assert(list@[2]@.args =~= strategies(url@)[2].args);
    list.push(
        make_strategy(
            "Reduced Split",
            "4 connections, 4 splits — standard parallel download attempt",
            &plain,
            &["-x", "4", "-s", "4"],
        ),
    );
    assert(list@[3]@.args =~= strategies(url@)[3].args);

    // Header and user-agent variants.
    list.push(
        make_strategy(
            "Desktop Headers",
            "Desktop UA + Origin/Referer spoof (hotlink bypass)",
            &desktop,
            &[],
        ),
    );
    assert(list@[4]@.args =~= strategies(url@)[4].args);
    list.push(
        make_strategy(
            "Desktop / 1-conn",
            "Desktop headers + single connection to avoid CDN rate-limits",
            &desktop,
            &["-x", "1", "-s", "1"],
        ),
    );
    assert(list@[5]@.args =~= strategies(url@)[5].args);
    list.push(
        make_strategy(
            "Desktop / Skip-TLS",
            "Desktop headers + TLS certificate check disabled",
            &desktop,
            &["--check-certificate=false"],
        ),
    );
    assert(list@[6]@.args =~= strategies(url@)[6].args);
    list.push(
        make_strategy(
            "Desktop / HTTP1.1",
            "Desktop headers + HTTP/1.1 forced, no keep-alive",
            &desktop,
            &["--http-no-cache=true", "--header=Connection: close"],
        ),
    );
    assert(list@[7]@.args =~= strategies(url@)[7].args);
    list.push(
        make_strategy(
            "Safari / Relaxed",
            "Safari macOS UA + TLS disabled + 4 connections (last resort)",
            &safari,
            &["--check-certificate=false", "-x", "4", "-s", "4"],
        ),
    );
    assert(list@[8]@.args =~= strategies(url@)[8].args);
    assert(strategy_views(list@) =~= strategies(url@));
    list
}

/// Where a URL has a `://`, the origin is a prefix of the URL, what follows its
/// `://` holds no slash, and the referer is the origin with a slash behind it.
pub proof fn lemma_origin_is_url_prefix(url: Seq<char>)
    requires
        text::holds_text(url, "://"@),
    ensures
        text::begins_with(url, origin(url)),
        referer(url) == origin(url) + "/"@,
        text::split_first(url, "://"@) matches Some((scheme, rest)) && forall|i: int|
            scheme.len() + 3 <= i < origin(url).len() ==> origin(url)[i] != '/',
{
    reveal_strlit("://");
    let pat = "://"@;
    text::lemma_first_exists(url, pat);
    let k = choose|i: int| text::first_at(url, pat, i);
    let rest = url.skip(k + 3);
    let class = CharClass::Exactly('/');
    let n = text::span(rest, class, false);
    text::lemma_span_bound(rest, class, false);
    text::lemma_span_members(rest, class, false);
    assert(origin(url) =~= url.take(k + 3 + n));
    assert(url.subrange(0, origin(url).len() as int) =~= origin(url));
    assert forall|i: int| k + 3 <= i < origin(url).len() implies origin(url)[i] != '/' by {
        assert(origin(url)[i] == rest[i - k - 3]);
    }
}

proof fn lemma_first_is_unique(s: Seq<char>, pat: Seq<char>, i: int, j: int)
    requires
        text::first_at(s, pat, i),
        text::first_at(s, pat, j),
    ensures
        i == j,
{
}

proof fn lemma_origin_of_start(url: Seq<char>, tail: Seq<char>)
    requires
        text::holds_text(url, "://"@),
        tail.len() == 0 || tail[0] == '/',
    ensures
        text::holds_text(origin(url) + tail, "://"@),
        origin(origin(url) + tail) == origin(url),
{
    reveal_strlit("://");
    let pat = "://"@;
    let class = CharClass::Exactly('/');
    text::lemma_first_exists(url, pat);
    let k = choose|i: int| text::first_at(url, pat, i);
    let rest = url.skip(k + 3);
    let n = text::span(rest, class, false);
    text::lemma_span_bound(rest, class, false);
    text::lemma_span_members(rest, class, false);
    let start = origin(url);
    assert(start =~= url.take(k + 3 + n));
    let t = start + tail;
    assert(t.subrange(k, k + 3) =~= url.subrange(k, k + 3));
    assert(text::occurs_at(t, pat, k));
    assert forall|j: int| 0 <= j < k implies !text::occurs_at(t, pat, j) by {
        assert(t.subrange(j, j + 3) =~= url.subrange(j, j + 3));
        assert(!text::occurs_at(url, pat, j));
    }
    assert(text::first_at(t, pat, k));
    let k2 = choose|i: int| text::first_at(t, pat, i);
    lemma_first_is_unique(t, pat, k, k2);
    let host = t.skip(k + 3);
    let m = text::span(host, class, false);
    text::lemma_span_bound(host, class, false);
    text::lemma_span_members(host, class, false);
    assert forall|i: int| 0 <= i < n implies host[i] == rest[i] by {}
    if m < n {
        assert(class.has(host[m as int]));
        assert(!class.has(rest[m as int]));
    }
    if m > n {
        assert(!class.has(host[n as int]));
        assert(host[n as int] == tail[0]);
    }
    assert(t.take(k) + pat + host.take(m as int) =~= start);
}

/// The origin and the referer of a URL have themselves the same origin and the
/// same referer.
pub proof fn lemma_origin_is_a_fixed_point(url: Seq<char>)
    ensures
        origin(origin(url)) == origin(url),
        referer(origin(url)) == referer(url),
        origin(referer(url)) == origin(url),
        referer(referer(url)) == referer(url),
{
    reveal_strlit("://");
    reveal_strlit("/");
    if text::holds_text(url, "://"@) {
        lemma_origin_of_start(url, Seq::empty());
        lemma_origin_of_start(url, "/"@);
        assert(origin(url) + Seq::<char>::empty() =~= origin(url));
    } else {
        assert(!text::holds_text(Seq::empty(), "://"@));
    }
}

proof fn lemma_header_flags(ua: Seq<char>, url: Seq<char>)
    ensures
        header_args(ua, url).len() == 13,
        forall|i: int|
            0 <= i < 13 ==> {
                let flag = #[trigger] header_args(ua, url)[i];
                flag.len() > 2 && flag[0] == '-' && flag[1] == '-' && (flag[2] == 'h' || flag[2]
                    == 'u')
            },
{
    reveal_strlit("--user-agent=");
    reveal_strlit("--header=Accept: */*");
    reveal_strlit("--header=Accept-Language: en-US,en;q=0.9,ar;q=0.8");
    reveal_strlit("--header=Accept-Encoding: gzip, deflate, br");
    reveal_strlit("--header=Referer: ");
    reveal_strlit("--header=Origin: ");
    reveal_strlit("--header=Connection: keep-alive");
    reveal_strlit("--header=DNT: 1");
    reveal_strlit("--header=Sec-Fetch-Dest: video");
    reveal_strlit("--header=Sec-Fetch-Mode: no-cors");
    reveal_strlit("--header=Sec-Fetch-Site: same-origin");
    reveal_strlit("--header=Cache-Control: no-cache");
    reveal_strlit("--header=Pragma: no-cache");
}

/// A flag that sets the user agent.
pub open spec fn sets_user_agent(args: Seq<Seq<char>>) -> bool {
    exists|i: int| 0 <= i < args.len() && text::begins_with(#[trigger] args[i], "--user-agent="@)
}

/// The strategies become more permissive: the first four show no user agent,
/// the others do; IPv6 is switched off by the second and the third alone, and
/// the check of certificates by the seventh and the last alone.
pub proof fn lemma_strategies_become_more_permissive(url: Seq<char>, k: int)
    requires
        0 <= k < strategies(url).len(),
    ensures
        strategies(url).len() == 9,
        sets_user_agent(strategies(url)[k].args) <==> k >= 4,
        strategies(url)[k].args.contains("--disable-ipv6=true"@) <==> k == 1 || k == 2,
        strategies(url)[k].args.contains("--check-certificate=false"@) <==> k == 6 || k == 8,
{
    reveal_strlit("--user-agent=");
    reveal_strlit("--disable-ipv6=true");
    reveal_strlit("--check-certificate=false");
    reveal_strlit("--http-no-cache=true");
    reveal_strlit("--header=Connection: close");
    reveal_strlit("-x");
    reveal_strlit("-s");
    reveal_strlit("1");
    reveal_strlit("4");
    lemma_header_flags(UA_DESKTOP@, url);
    lemma_header_flags(UA_SAFARI@, url);
    let args = strategies(url)[k].args;
    let ipv6 = "--disable-ipv6=true"@;
    let certificate = "--check-certificate=false"@;
    assert(ipv6[2] == 'd' && certificate[2] == 'c' && "--user-agent="@[2] == 'u');
    let headers = if k == 8 {
        header_args(UA_SAFARI@, url)
    } else {
        header_args(UA_DESKTOP@, url)
    };
    if k >= 4 {
        assert(args.take(13) =~= headers);
        assert forall|i: int| 0 <= i < 13 implies args[i] == headers[i] by {
            assert(args.take(13)[i] == args[i]);
        }
        let agent = if k == 8 {
            UA_SAFARI@
        } else {
            UA_DESKTOP@
        };
        assert(args[0] == "--user-agent="@ + agent);
        assert(args[0].subrange(0, 13) =~= "--user-agent="@);
        assert(text::begins_with(args[0], "--user-agent="@));
    } else {
        assert forall|i: int| 0 <= i < args.len() implies !text::begins_with(
            #[trigger] args[i],
            "--user-agent="@,
        ) by {
            if text::begins_with(args[i], "--user-agent="@) {
                assert(args[i].subrange(0, 13)[2] == args[i][2]);
            }
        }
    }
    if k == 1 {
        assert(args[4] == ipv6);
    } else if k == 2 {
        assert(args[0] == ipv6);
    } else {
        assert forall|i: int| 0 <= i < args.len() implies args[i] != ipv6 by {
            assert(args[i].len() <= 2 || args[i][2] == 'h' || args[i][2] == 'u' || args[i][2]
                == 'c');
        }
    }
    if k == 6 || k == 8 {
        assert(args[13] == certificate);
    } else {
        assert forall|i: int| 0 <= i < args.len() implies args[i] != certificate by {
            assert(args[i].len() <= 2 || args[i][2] == 'h' || args[i][2] == 'u' || args[i][2]
                == 'd');
        }
    }
}

/// How many connections a strategy asks for: one for the first two and the
/// sixth, four for the fourth and the last.
pub proof fn lemma_connections_of_strategies(url: Seq<char>)
    ensures
        text::followed_by(strategies(url)[0].args, "-x"@, "1"@),
        text::followed_by(strategies(url)[0].args, "-s"@, "1"@),
        text::followed_by(strategies(url)[1].args, "-x"@, "1"@),
        text::followed_by(strategies(url)[1].args, "-s"@, "1"@),
        text::followed_by(strategies(url)[3].args, "-x"@, "4"@),
        text::followed_by(strategies(url)[3].args, "-s"@, "4"@),
        text::followed_by(strategies(url)[5].args, "-x"@, "1"@),
        text::followed_by(strategies(url)[5].args, "-s"@, "1"@),
        text::followed_by(strategies(url)[8].args, "-x"@, "4"@),
        text::followed_by(strategies(url)[8].args, "-s"@, "4"@),
        strategies(url)[7].args.contains("--http-no-cache=true"@),
        strategies(url)[7].args.contains("--header=Connection: close"@),
{
    let s = strategies(url);
    assert(text::stands_behind(s[0].args, "-x"@, "1"@, 0));
    assert(text::stands_behind(s[0].args, "-s"@, "1"@, 2));
    assert(text::stands_behind(s[1].args, "-x"@, "1"@, 0));
    assert(text::stands_behind(s[1].args, "-s"@, "1"@, 2));
    assert(text::stands_behind(s[3].args, "-x"@, "4"@, 0));
    assert(text::stands_behind(s[3].args, "-s"@, "4"@, 2));
    assert(text::stands_behind(s[5].args, "-x"@, "1"@, 13));
    assert(text::stands_behind(s[5].args, "-s"@, "1"@, 15));
    assert(text::stands_behind(s[8].args, "-x"@, "4"@, 14));
    assert(text::stands_behind(s[8].args, "-s"@, "4"@, 16));
    assert(s[7].args[13] == "--http-no-cache=true"@);
    assert(s[7].args[14] == "--header=Connection: close"@);
}

/// From the fifth strategy on, the site is told that the request comes from
/// itself and from a browser: the desktop one, and Safari in the last.
pub proof fn lemma_browser_strategies_name_the_site(url: Seq<char>, k: int)
    requires
        4 <= k < strategies(url).len(),
        text::holds_text(url, "://"@),
    ensures
        strategies(url)[k].args.contains("--header=Referer: "@ + origin(url) + "/"@),
        strategies(url)[k].args.contains("--header=Origin: "@ + origin(url)),
        strategies(url)[k].args.contains(
            "--user-agent="@ + (if k == 8 {
                UA_SAFARI@
            } else {
                UA_DESKTOP@
            }),
        ),
{
    let args = strategies(url)[k].args;
    assert("--header=Referer: "@ + (origin(url) + "/"@) =~= "--header=Referer: "@ + origin(url)
        + "/"@);
    assert(args[0] == "--user-agent="@ + (if k == 8 {
        UA_SAFARI@
    } else {
        UA_DESKTOP@
    }));
    assert(args[4] == "--header=Referer: "@ + origin(url) + "/"@);
    assert(args[5] == "--header=Origin: "@ + origin(url));
}

/// The origin of `scheme://host`, whatever follows from the next slash on, is
/// `scheme://host`.
pub proof fn lemma_origin_of_parts(scheme: Seq<char>, host: Seq<char>, tail: Seq<char>)
    requires
        !scheme.contains(':'),
        !host.contains('/'),
        tail.len() == 0 || tail[0] == '/',
    ensures
        origin(scheme + "://"@ + host + tail) == scheme + "://"@ + host,
        referer(scheme + "://"@ + host + tail) == scheme + "://"@ + host + "/"@,
{
    reveal_strlit("://");
    let pat = "://"@;
    let class = CharClass::Exactly('/');
    let url = scheme + pat + host + tail;
    let k = scheme.len() as int;
    assert(url.subrange(k, k + 3) =~= pat);
    assert(text::occurs_at(url, pat, k));
    assert forall|j: int| 0 <= j < k implies !text::occurs_at(url, pat, j) by {
        if text::occurs_at(url, pat, j) {
            assert(url.subrange(j, j + 3)[0] == url[j]);
            assert(url[j] == scheme[j]);
            assert(scheme.contains(scheme[j]));
        }
    }
    assert(text::first_at(url, pat, k));
    let k2 = choose|i: int| text::first_at(url, pat, i);
    lemma_first_is_unique(url, pat, k, k2);
    let rest = url.skip(k + 3);
    assert(rest =~= host + tail);
    let m = text::span(rest, class, false);
    text::lemma_span_bound(rest, class, false);
    text::lemma_span_members(rest, class, false);
    if m < host.len() {
        assert(rest[m as int] == host[m as int]);
        assert(host.contains(host[m as int]));
    }
    if m > host.len() {
        assert(rest[host.len() as int] == tail[0]);
    }
    assert(url.take(k) =~= scheme);
    assert(rest.take(m as int) =~= host);
}

/// The strategies by their names, in the order in which they are tried.
pub proof fn lemma_names_of_strategies(url: Seq<char>)
    ensures
        strategies(url).len() == 9,
        strategies(url)[0].name == "Default"@,
        strategies(url)[1].name == "Single Connection"@,
        strategies(url)[2].name == "IPv4 Only"@,
        strategies(url)[3].name == "Reduced Split"@,
        strategies(url)[4].name == "Desktop Headers"@,
        strategies(url)[5].name == "Desktop / 1-conn"@,
        strategies(url)[6].name == "Desktop / Skip-TLS"@,
        strategies(url)[7].name == "Desktop / HTTP1.1"@,
        strategies(url)[8].name == "Safari / Relaxed"@,
{
}

} // verus!
