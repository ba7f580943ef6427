//! Alerts: whether there is something to tell, and the requests that tell it.

use vstd::prelude::*;
use vstd::string::*;
use crate::config::NtfyConfig;
use crate::numbers::{decimal, decimal_text, push_decimal, push_signed, signed_decimal};
use crate::paths::opt_text;
use crate::sync::SyncStats;
use crate::text::{
    has_part, has_suffix, join, joined, law_part_is_surrounded, law_suffix_is_an_ending,
    law_trimming_a_character, lemma_text_goes_on, texts, trim, trim_end_matches, trimmed,
    trimmed_end_of,
};

verus! {

/// A request to the alert service. Sending it is best effort: a failure is never passed on.
#[derive(Debug)]
pub struct NtfyRequest {
    pub url: String,
    pub headers: Vec<(String, String)>,
    pub body: String,
}

/// The characters of an `NtfyRequest`.
pub struct NtfyRequestView {
    pub url: Seq<char>,
    pub headers: Seq<(Seq<char>, Seq<char>)>,
    pub body: Seq<char>,
}

/// The characters of a list of headers.
pub open spec fn header_views(headers: Seq<(String, String)>) -> Seq<(Seq<char>, Seq<char>)> {
    headers.map_values(|h: (String, String)| (h.0@, h.1@))
}

impl View for NtfyRequest {
    type V = NtfyRequestView;

    open spec fn view(&self) -> NtfyRequestView {
        NtfyRequestView {
            url: self.url@,
            headers: header_views(self.headers@),
            body: self.body@,
        }
    }
}

/// The characters of each request of a list.
pub open spec fn request_views(v: Seq<NtfyRequest>) -> Seq<NtfyRequestView> {
    v.map_values(|r: NtfyRequest| r@)
}

/// Whether a configuration asks for alerts and says where to send them.
pub open spec fn alerts_on(cfg: NtfyConfig) -> bool {
    cfg.enabled && trimmed(cfg.server@).len() > 0 && trimmed(cfg.topic@).len() > 0
}

/// A priority within the range that the service knows.
pub open spec fn clamped_priority(priority: u8) -> u8 {
    if priority < 1 {
        1
    } else if priority > 5 {
        5
    } else {
        priority
    }
}

/// The request for an alert. The token is sent where there is one.
pub open spec fn request_for(
    cfg: NtfyConfig,
    title: Seq<char>,
    body: Seq<char>,
    priority: u8,
    tags: Seq<Seq<char>>,
) -> NtfyRequestView {
    let headers = seq![
        ("Title"@, title),
        ("Priority"@, decimal(clamped_priority(priority) as nat)),
        ("Tags"@, joined(tags, ","@)),
        ("Content-Type"@, "text/plain; charset=utf-8"@),
    ];
    NtfyRequestView {
        url: trimmed_end_of(cfg.server@, '/') + "/"@ + cfg.topic@,
        headers: match opt_text(cfg.token) {
            Some(token) => if token.len() > 0 {
                headers.push(("Authorization"@, "Bearer "@ + token))
            } else {
                headers
            },
            None => headers,
        },
        body,
    }
}

/// What is said about cookies that were refused.
pub open spec fn cookies_body(
    run_id: int,
    stats: SyncStats,
    version: Seq<char>,
    host: Seq<char>,
) -> Seq<char> {
    "ytsync-pi run #"@ + signed_decimal(run_id) + " on "@ + host
        + " saw auth failures.\nCookies at the configured path are likely expired.\nRe-export from your browser and rerun.\nyt-dlp="@
        + version + " ok="@ + decimal(stats.ok as nat) + " fail="@ + decimal(stats.failed as nat)
}

/// What is said about failures.
pub open spec fn failures_body(
    run_id: int,
    stats: SyncStats,
    version: Seq<char>,
    host: Seq<char>,
) -> Seq<char> {
    "ytsync-pi run #"@ + signed_decimal(run_id) + " on "@ + host + " finished with failures.\nok="@
        + decimal(stats.ok as nat) + " fail="@ + decimal(stats.failed as nat)
        + " skipped_sources="@ + decimal(stats.skipped_sources as nat) + "\ntagged="@ + decimal(
        stats.tagged as nat,
    ) + " tag_no_match="@ + decimal(stats.tag_no_match as nat) + " tag_skipped="@ + decimal(
        stats.tag_skipped as nat,
    ) + "\nyt-dlp="@ + version
}

/// The alert about cookies.
pub open spec fn cookies_alert(
    cfg: NtfyConfig,
    run_id: int,
    stats: SyncStats,
    version: Seq<char>,
    host: Seq<char>,
) -> NtfyRequestView {
    request_for(
        cfg,
        "ytsync-pi: cookies likely expired"@,
        cookies_body(run_id, stats, version, host),
        4,
        seq!["warning"@, "cookie"@, "lock"@],
    )
}

/// The alert about failures.
pub open spec fn failures_alert(
    cfg: NtfyConfig,
    run_id: int,
    stats: SyncStats,
    version: Seq<char>,
    host: Seq<char>,
) -> NtfyRequestView {
    request_for(
        cfg,
        "ytsync-pi: "@ + decimal(stats.failed as nat) + " failure(s)"@,
        failures_body(run_id, stats, version, host),
        3,
        seq!["x"@, "film_strip"@],
    )
}

/// The alerts for a finished run: one where the cookies look expired, one where something failed.
pub open spec fn run_alerts(
    cfg: NtfyConfig,
    run_id: int,
    stats: SyncStats,
    version: Seq<char>,
    host: Seq<char>,
) -> Seq<NtfyRequestView> {
    (if stats.cookies_suspicious {
        seq![cookies_alert(cfg, run_id, stats, version, host)]
    } else {
        seq![]
    }) + (if stats.failed > 0 {
        seq![failures_alert(cfg, run_id, stats, version, host)]
    } else {
        seq![]
    })
}

/// Builds the requests that alert the user.
pub struct Notifier {
    pub cfg: NtfyConfig,
}

impl Notifier {
    /// There is a notifier where alerts are asked for and it is said where to send them.
    pub fn from_config(cfg: Option<NtfyConfig>) -> (r: Option<Self>)
        ensures
            match r {
                Some(n) => cfg == Some(n.cfg) && alerts_on(n.cfg),
                None => cfg is None || !alerts_on(cfg->0),
            },
    {
        match cfg {
            None => None,
            Some(cfg) => {
                if !cfg.enabled {
                    return None;
                }
                if trim(cfg.server.as_str()).as_str().is_empty() || trim(
                    cfg.topic.as_str(),
                ).as_str().is_empty() {
                    return None;
                }
                Some(Notifier { cfg })
            },
        }
    }

    /// The request for an alert.
    fn send(&self, title: &str, body: String, priority: u8, tags: &Vec<String>) -> (r: NtfyRequest)
        ensures
            r@ == request_for(self.cfg, title@, body@, priority, texts(tags@)),
    {
        let mut url = trim_end_matches(self.cfg.server.as_str(), '/');
        url.append("/");
        url.append(self.cfg.topic.as_str());
        let clamped: u8 = if priority < 1 {
            1
        } else if priority > 5 {
            5
        } else {
            priority
        };
        let mut headers: Vec<(String, String)> = Vec::new();
        headers.push(("Title".to_owned(), title.to_owned()));
        headers.push(("Priority".to_owned(), decimal_text(clamped as u64)));
        headers.push(("Tags".to_owned(), join(tags, ",")));
        headers.push(("Content-Type".to_owned(), "text/plain; charset=utf-8".to_owned()));
        let ghost plain = header_views(headers@);
        assert(plain =~= seq![
            ("Title"@, title@),
            ("Priority"@, decimal(clamped_priority(priority) as nat)),
            ("Tags"@, joined(texts(tags@), ","@)),
            ("Content-Type"@, "text/plain; charset=utf-8"@),
        ]);
        if let Some(token) = &self.cfg.token {
            if !token.as_str().is_empty() {
                let mut bearer = "Bearer ".to_owned();
                bearer.append(token.as_str());
                headers.push(("Authorization".to_owned(), bearer));
                assert(header_views(headers@) =~= plain.push(
                    ("Authorization"@, "Bearer "@ + token@),
                ));
            }
        }
        NtfyRequest { url, headers, body }
    }

    /// Decides what, if anything, to send for a finished run. Refused cookies have an alert of
    /// their own, with a higher priority: a run that downloads nothing because of them would
    /// otherwise look like one with nothing new.
    pub fn report_run(&self, run_id: i64, stats: &SyncStats, version: &str, host: &str) -> (r: Vec<
        NtfyRequest,
    >)
        ensures
            request_views(r@) == run_alerts(self.cfg, run_id as int, *stats, version@, host@),
    {
        let mut out: Vec<NtfyRequest> = Vec::new();
        if stats.cookies_suspicious {
            let mut body = "ytsync-pi run #".to_owned();
            push_signed(&mut body, run_id);
            body.append(" on ");
            body.append(host);
            body.append(
                " saw auth failures.\nCookies at the configured path are likely expired.\nRe-export from your browser and rerun.\nyt-dlp=",
            );
            body.append(version);
            body.append(" ok=");
            push_decimal(&mut body, stats.ok);
            body.append(" fail=");
            push_decimal(&mut body, stats.failed);
            let tags: Vec<String> = vec![
                "warning".to_owned(),
                "cookie".to_owned(),
                "lock".to_owned(),
            ];
            assert(texts(tags@) =~= seq!["warning"@, "cookie"@, "lock"@]);
            out.push(self.send("ytsync-pi: cookies likely expired", body, 4, &tags));
        }
        let ghost first = request_views(out@);
        assert(first =~= (if stats.cookies_suspicious {
            seq![cookies_alert(self.cfg, run_id as int, *stats, version@, host@)]
        } else {
            seq![]
        }));
        if stats.failed > 0 {
            let mut body = "ytsync-pi run #".to_owned();
            push_signed(&mut body, run_id);
            body.append(" on ");
            body.append(host);
            body.append(" finished with failures.\nok=");
            push_decimal(&mut body, stats.ok);
            body.append(" fail=");
            push_decimal(&mut body, stats.failed);
            body.append(" skipped_sources=");
            push_decimal(&mut body, stats.skipped_sources);
            body.append("\ntagged=");
            push_decimal(&mut body, stats.tagged);
            body.append(" tag_no_match=");
            push_decimal(&mut body, stats.tag_no_match);
            body.append(" tag_skipped=");
            push_decimal(&mut body, stats.tag_skipped);
            body.append("\nyt-dlp=");
            body.append(version);
            let mut title = "ytsync-pi: ".to_owned();
            push_decimal(&mut title, stats.failed);
            title.append(" failure(s)");
            let tags: Vec<String> = vec!["x".to_owned(), "film_strip".to_owned()];
            assert(texts(tags@) =~= seq!["x"@, "film_strip"@]);
            out.push(self.send(title.as_str(), body, 3, &tags));
            assert(request_views(out@) =~= first.push(
                failures_alert(self.cfg, run_id as int, *stats, version@, host@),
            ));
        }
        assert(request_views(out@) =~= run_alerts(
            self.cfg,
            run_id as int,
            *stats,
            version@,
            host@,
        ));
        out
    }

    /// The request of a manual probe, which confirms that alerts still reach a device.
    pub fn send_test(&self, host: &str) -> (r: NtfyRequest)
        ensures
            r@ == request_for(
                self.cfg,
                "ytsync-pi: canary ping"@,
                "Weekly canary on "@ + host@ + ": cookies probe ran and alerts still work."@,
                2,
                seq!["bell"@],
            ),
    {
        let mut body = "Weekly canary on ".to_owned();
        body.append(host);
        body.append(": cookies probe ran and alerts still work.");
        let tags: Vec<String> = vec!["bell".to_owned()];
        assert(texts(tags@) =~= seq!["bell"@]);
        self.send("ytsync-pi: canary ping", body, 2, &tags)
    }
}

/// Alerts are about failures only: a run in which nothing failed and no cookies were refused is
/// silent, and any other run is not.
pub proof fn law_alerts_are_for_failures_only(
    cfg: NtfyConfig,
    run_id: int,
    stats: SyncStats,
    version: Seq<char>,
    host: Seq<char>,
)
    ensures
        run_alerts(cfg, run_id, stats, version, host).len() == 0 <==> stats.failed == 0
            && !stats.cookies_suspicious,
{
}

/// Refused cookies are told in an alert of their own, and before anything else.
pub proof fn law_cookies_come_first(
    cfg: NtfyConfig,
    run_id: int,
    stats: SyncStats,
    version: Seq<char>,
    host: Seq<char>,
)
    requires
        stats.cookies_suspicious,
    ensures
        run_alerts(cfg, run_id, stats, version, host)[0] == cookies_alert(
            cfg,
            run_id,
            stats,
            version,
            host,
        ),
{
}

/// A request carries the alert: its title, its body as it was written, its tags one after another
/// with commas between them, and its priority, brought into the range from one to five. There are
/// no other headers but the token, which is sent just where there is one.
pub proof fn law_request_carries_the_alert(
    cfg: NtfyConfig,
    title: Seq<char>,
    body: Seq<char>,
    priority: u8,
    tags: Seq<Seq<char>>,
)
    ensures
        ({
            let r = request_for(cfg, title, body, priority, tags);
            &&& r.body == body
            &&& r.headers.contains(("Title"@, title))
            &&& r.headers.contains(("Tags"@, joined(tags, ","@)))
            &&& r.headers.contains(("Content-Type"@, "text/plain; charset=utf-8"@))
            &&& 1 <= priority <= 5 ==> r.headers.contains(("Priority"@, decimal(priority as nat)))
            &&& priority < 1 ==> r.headers.contains(("Priority"@, decimal(1)))
            &&& priority > 5 ==> r.headers.contains(("Priority"@, decimal(5)))
            &&& match cfg.token {
                Some(token) => if token@.len() > 0 {
                    r.headers.len() == 5 && r.headers.contains(
                        ("Authorization"@, "Bearer "@ + token@),
                    )
                } else {
                    r.headers.len() == 4
                },
                None => r.headers.len() == 4,
            }
        }),
{
    let h = request_for(cfg, title, body, priority, tags).headers;
    assert(h[0].0 == "Title"@ && h[1].0 == "Priority"@ && h[2].0 == "Tags"@ && h[3].0
        == "Content-Type"@);
    if h.len() == 5 {
        assert(h[4].0 == "Authorization"@);
    }
}

/// An alert goes to the topic below the server: what comes before the topic and its slash is the
/// server without the slashes at its end.
pub proof fn law_alert_goes_to_the_topic(
    cfg: NtfyConfig,
    title: Seq<char>,
    body: Seq<char>,
    priority: u8,
    tags: Seq<Seq<char>>,
)
    ensures
        ({
            let url = request_for(cfg, title, body, priority, tags).url;
            let n = url.len() - cfg.topic@.len() - 1;
            &&& 0 <= n <= cfg.server@.len()
            &&& url == cfg.server@.take(n) + seq!['/'] + cfg.topic@
            &&& n > 0 ==> cfg.server@[n - 1] != '/'
            &&& forall|k: int| n <= k < cfg.server@.len() ==> #[trigger] cfg.server@[k] == '/'
        }),
{
    reveal_strlit("/");
    law_trimming_a_character(cfg.server@, '/');
    let base = trimmed_end_of(cfg.server@, '/');
    assert(base =~= cfg.server@.take(base.len() as int));
    assert("/"@ =~= seq!['/']);
}

/// Slashes at the end of the server do not matter.
pub proof fn law_slashes_behind_the_server_do_not_matter(
    a: NtfyConfig,
    b: NtfyConfig,
    title: Seq<char>,
    body: Seq<char>,
    priority: u8,
    tags: Seq<Seq<char>>,
)
    requires
        b.server@ == a.server@.push('/'),
        b.topic == a.topic,
        b.token == a.token,
    ensures
        request_for(a, title, body, priority, tags) == request_for(b, title, body, priority, tags),
{
    assert(b.server@.drop_last() =~= a.server@);
}

/// Alerts are on just where they are asked for and neither the server nor the topic is blank.
pub proof fn law_alerts_need_a_place(cfg: NtfyConfig)
    ensures
        alerts_on(cfg) ==> cfg.enabled,
        trimmed(cfg.server@).len() == 0 ==> !alerts_on(cfg),
        trimmed(cfg.topic@).len() == 0 ==> !alerts_on(cfg),
        cfg.enabled && trimmed(cfg.server@).len() > 0 && trimmed(cfg.topic@).len() > 0 ==> alerts_on(
            cfg,
        ),
{
}

/// What is said about refused cookies names the run, the machine, the version and the counts.
pub proof fn law_cookies_alert_says_what_happened(
    run_id: int,
    stats: SyncStats,
    version: Seq<char>,
    host: Seq<char>,
)
    ensures
        has_part(
            cookies_body(run_id, stats, version, host),
            "run #"@ + signed_decimal(run_id) + " on "@ + host + " saw auth failures."@,
        ),
        has_part(cookies_body(run_id, stats, version, host), "\nyt-dlp="@ + version),
        has_part(cookies_body(run_id, stats, version, host), " ok="@ + decimal(stats.ok as nat)),
        has_suffix(
            cookies_body(run_id, stats, version, host),
            " fail="@ + decimal(stats.failed as nat),
        ),
{
    let x = "ytsync-pi run #"@ + signed_decimal(run_id) + " on "@ + host;
    let saw = " saw auth failures.\nCookies at the configured path are likely expired.\nRe-export from your browser and rerun.\nyt-dlp="@;
    reveal_strlit("ytsync-pi run #");
    reveal_strlit("run #");
    reveal_strlit(" saw auth failures.");
    reveal_strlit("\nyt-dlp=");
    reveal_strlit(
        " saw auth failures.\nCookies at the configured path are likely expired.\nRe-export from your browser and rerun.\nyt-dlp=",
    );
    let told = "run #"@ + signed_decimal(run_id) + " on "@ + host + " saw auth failures."@;
    let front = saw.take(saw.len() - 8);
    assert(front.take(19) =~= " saw auth failures."@);
    assert("ytsync-pi run #"@ =~= "ytsync-pi run #"@.take(10) + "run #"@);
    assert(x + front =~= "ytsync-pi run #"@.take(10) + told + front.skip(19));
    law_part_is_surrounded("ytsync-pi run #"@.take(10), told, front.skip(19), told);
    lemma_text_goes_on(x + front, "\nyt-dlp="@, version);
    assert(saw =~= front + "\nyt-dlp="@);
    assert(x + front + "\nyt-dlp="@ + version =~= x + saw + version);
    let y = x + saw + version;
    lemma_text_goes_on(y, " ok="@, decimal(stats.ok as nat));
    let z = y + " ok="@ + decimal(stats.ok as nat);
    let last = " fail="@ + decimal(stats.failed as nat);
    lemma_text_goes_on(z, " fail="@, decimal(stats.failed as nat));
    assert(z + " fail="@ + decimal(stats.failed as nat) =~= z + last);
    law_suffix_is_an_ending(z, last, last);
}

/// What is said about failures names the run, the machine, every count and the version.
pub proof fn law_failures_alert_says_what_happened(
    run_id: int,
    stats: SyncStats,
    version: Seq<char>,
    host: Seq<char>,
)
    ensures
        ({
            let b = failures_body(run_id, stats, version, host);
            &&& has_part(
                b,
                "run #"@ + signed_decimal(run_id) + " on "@ + host + " finished with failures."@,
            )
            &&& has_part(b, "\nok="@ + decimal(stats.ok as nat))
            &&& has_part(b, " fail="@ + decimal(stats.failed as nat))
            &&& has_part(b, " skipped_sources="@ + decimal(stats.skipped_sources as nat))
            &&& has_part(b, "\ntagged="@ + decimal(stats.tagged as nat))
            &&& has_part(b, " tag_no_match="@ + decimal(stats.tag_no_match as nat))
            &&& has_part(b, " tag_skipped="@ + decimal(stats.tag_skipped as nat))
            &&& has_suffix(b, "\nyt-dlp="@ + version)
        }),
{
    let x = "ytsync-pi run #"@ + signed_decimal(run_id) + " on "@ + host;
    reveal_strlit("ytsync-pi run #");
    reveal_strlit("run #");
    reveal_strlit(" finished with failures.");
    reveal_strlit("\nok=");
    reveal_strlit(" finished with failures.\nok=");
    let told = "run #"@ + signed_decimal(run_id) + " on "@ + host + " finished with failures."@;
    assert("ytsync-pi run #"@ =~= "ytsync-pi run #"@.take(10) + "run #"@);
    assert(x + " finished with failures."@ =~= "ytsync-pi run #"@.take(10) + told + seq![]);
    law_part_is_surrounded("ytsync-pi run #"@.take(10), told, seq![], told);
    lemma_text_goes_on(x + " finished with failures."@, "\nok="@, decimal(stats.ok as nat));
    assert(" finished with failures.\nok="@ =~= " finished with failures."@ + "\nok="@);
    let y = x + " finished with failures.\nok="@ + decimal(stats.ok as nat);
    assert(x + " finished with failures."@ + "\nok="@ + decimal(stats.ok as nat) =~= y);
    lemma_text_goes_on(y, " fail="@, decimal(stats.failed as nat));
    let y = y + " fail="@ + decimal(stats.failed as nat);
    lemma_text_goes_on(y, " skipped_sources="@, decimal(stats.skipped_sources as nat));
    let y = y + " skipped_sources="@ + decimal(stats.skipped_sources as nat);
    lemma_text_goes_on(y, "\ntagged="@, decimal(stats.tagged as nat));
    let y = y + "\ntagged="@ + decimal(stats.tagged as nat);
    lemma_text_goes_on(y, " tag_no_match="@, decimal(stats.tag_no_match as nat));
    let y = y + " tag_no_match="@ + decimal(stats.tag_no_match as nat);
    lemma_text_goes_on(y, " tag_skipped="@, decimal(stats.tag_skipped as nat));
    let y = y + " tag_skipped="@ + decimal(stats.tag_skipped as nat);
    lemma_text_goes_on(y, "\nyt-dlp="@, version);
    assert(y + "\nyt-dlp="@ + version =~= y + ("\nyt-dlp="@ + version));
    law_suffix_is_an_ending(y, "\nyt-dlp="@ + version, version);
}

/// Each alert of a run says what it is about in its title, and refused cookies are more urgent than
/// failures.
pub proof fn law_alerts_are_told_apart(
    cfg: NtfyConfig,
    run_id: int,
    stats: SyncStats,
    version: Seq<char>,
    host: Seq<char>,
)
    ensures
        ({
            let alerts = run_alerts(cfg, run_id, stats, version, host);
            &&& alerts.len() == (if stats.cookies_suspicious {
                1int
            } else {
                0
            }) + (if stats.failed > 0 {
                1int
            } else {
                0
            })
            &&& stats.cookies_suspicious ==> alerts[0].headers.contains(
                ("Title"@, "ytsync-pi: cookies likely expired"@),
            ) && alerts[0].headers.contains(("Priority"@, decimal(4))) && alerts[0].body
                == cookies_body(run_id, stats, version, host)
            &&& stats.failed > 0 ==> alerts.last().headers.contains(
                ("Title"@, "ytsync-pi: "@ + decimal(stats.failed as nat) + " failure(s)"@),
            ) && alerts.last().headers.contains(("Priority"@, decimal(3))) && alerts.last().body
                == failures_body(run_id, stats, version, host)
        }),
{
    law_request_carries_the_alert(
        cfg,
        "ytsync-pi: cookies likely expired"@,
        cookies_body(run_id, stats, version, host),
        4,
        seq!["warning"@, "cookie"@, "lock"@],
    );
    law_request_carries_the_alert(
        cfg,
        "ytsync-pi: "@ + decimal(stats.failed as nat) + " failure(s)"@,
        failures_body(run_id, stats, version, host),
        3,
        seq!["x"@, "film_strip"@],
    );
}

} // verus!
