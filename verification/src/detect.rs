//! Detection of an outside manager (cc-switch or another tool) that changed
//! the live `config.toml` after the tool wrote it. Any one of four signals
//! counts: the file is newer than the fingerprint, its hash differs from the
//! fingerprint, it holds one of cc-switch's sentinels, or cc-switch's
//! database was modified in the last 300 seconds.
use vstd::prelude::*;
use vstd::string::*;
use crate::fingerprint::{compute_config_hash, config_hash, WriteFingerprint};
use crate::path::{path_join, PathModel, PathView};
use crate::text::{contains_str, contains_text};

verus! {

/// The catalog pointer that cc-switch leaves in `config.toml`.
pub const CC_SWITCH_CATALOG_SENTINEL: &'static str = "cc-switch-model-catalog.json";

/// The `web_search` setting that cc-switch leaves in `config.toml`.
pub const CC_SWITCH_WEB_SEARCH_SENTINEL: &'static str = "web_search = \"disabled\"";

/// How recently (in seconds) cc-switch's database must have been modified to
/// count as activity.
pub const CC_SWITCH_RECENT_ACTIVITY_WINDOW_SECS: u64 = 300;

/// Reason given when `config.toml` is newer than the fingerprint.
pub const MTIME_REASON: &'static str = "config.toml 的修改时间晚于 CodexPlusPlus 上次写入";

/// Reason given when the hash of `config.toml` differs from the fingerprint.
pub const HASH_REASON: &'static str = "config.toml 的内容与 CodexPlusPlus 上次写入不一致";

/// Reason given when `config.toml` holds the catalog sentinel.
pub const CATALOG_REASON: &'static str = "config.toml 含 cc-switch 的 catalog 指针（cc-switch-model-catalog.json）";

/// Reason given when `config.toml` holds the `web_search` sentinel.
pub const WEB_SEARCH_REASON: &'static str = "config.toml 含 cc-switch 的 web_search=disabled sentinel";

/// Reason given when cc-switch's database was modified recently.
pub const DB_ACTIVITY_REASON: &'static str = "cc-switch 数据库（~/.cc-switch/cc-switch.db）在最近 300 秒内被修改";

/// The outcome of a detection.
#[derive(Debug, Clone, PartialEq, Eq)]
pub struct ExternalManagerDetection {
    /// Whether an outside change was detected.
    pub detected: bool,
    /// The reasons found, in the order of the signals.
    pub reasons: Vec<String>,
}

/// What detection reads from the machine.
#[derive(Debug, Clone, PartialEq, Eq)]
pub struct DetectionInputs {
    /// The fingerprint of the last write, if one could be loaded.
    pub fingerprint: Option<WriteFingerprint>,
    /// The text of the live `config.toml` (empty when it cannot be read).
    pub live_config_text: String,
    /// The modification time of the live `config.toml`, if it can be read.
    pub live_config_mtime_secs: Option<u64>,
    /// The modification time of cc-switch's database, if it can be read.
    pub cc_switch_db_modified_secs: Option<u64>,
    /// The current time (seconds since the UNIX epoch).
    pub now_secs: u64,
}

/// The texts of a sequence of strings.
pub open spec fn texts(v: Seq<String>) -> Seq<Seq<char>> {
    v.map_values(|s: String| s@)
}

/// The live file was modified after the fingerprinted write.
pub open spec fn mtime_signal(fp: WriteFingerprint, live_mtime: Option<u64>) -> bool {
    live_mtime matches Some(m) && m > fp.config_mtime_secs
}

/// The live text does not hash to the fingerprinted hash.
pub open spec fn hash_signal(fp: WriteFingerprint, text: Seq<char>) -> bool {
    config_hash(text) != fp.config_hash@
}

/// The reasons that comparing with a fingerprint gives.
pub open spec fn fingerprint_reasons(fp: WriteFingerprint, text: Seq<char>, live_mtime: Option<u64>) -> Seq<Seq<char>> {
    (if mtime_signal(fp, live_mtime) { seq![MTIME_REASON@] } else { Seq::empty() })
        + (if hash_signal(fp, text) { seq![HASH_REASON@] } else { Seq::empty() })
}

/// The reasons that cc-switch's sentinels in the live text give.
pub open spec fn sentinel_reasons(text: Seq<char>) -> Seq<Seq<char>> {
    (if contains_text(text, CC_SWITCH_CATALOG_SENTINEL@) { seq![CATALOG_REASON@] } else { Seq::empty() })
        + (if contains_text(text, CC_SWITCH_WEB_SEARCH_SENTINEL@) { seq![WEB_SEARCH_REASON@] } else { Seq::empty() })
}

/// cc-switch's database was modified no more than 300 seconds ago (and not
/// in the future).
pub open spec fn db_signal(modified: Option<u64>, now: u64) -> bool {
    modified matches Some(m) && now >= m && now - m <= CC_SWITCH_RECENT_ACTIVITY_WINDOW_SECS
}

/// The reason that cc-switch's database activity gives.
pub open spec fn db_reasons(modified: Option<u64>, now: u64) -> Seq<Seq<char>> {
    if db_signal(modified, now) { seq![DB_ACTIVITY_REASON@] } else { Seq::empty() }
}

/// All reasons, in order: fingerprint (when there is one), sentinels, and
/// database activity (when it is checked).
pub open spec fn detection_reasons(inputs: DetectionInputs, check_cc_switch_db: bool) -> Seq<Seq<char>> {
    (match inputs.fingerprint {
        Some(fp) => fingerprint_reasons(fp, inputs.live_config_text@, inputs.live_config_mtime_secs),
        None => Seq::empty(),
    }) + sentinel_reasons(inputs.live_config_text@)
        + (if check_cc_switch_db {
        db_reasons(inputs.cc_switch_db_modified_secs, inputs.now_secs)
    } else {
        Seq::empty()
    })
}

/// Some signal hits.
pub open spec fn any_signal(inputs: DetectionInputs, check_cc_switch_db: bool) -> bool {
    ||| inputs.fingerprint matches Some(fp) && mtime_signal(fp, inputs.live_config_mtime_secs)
    ||| inputs.fingerprint matches Some(fp) && hash_signal(fp, inputs.live_config_text@)
    ||| contains_text(inputs.live_config_text@, CC_SWITCH_CATALOG_SENTINEL@)
    ||| contains_text(inputs.live_config_text@, CC_SWITCH_WEB_SEARCH_SENTINEL@)
    ||| check_cc_switch_db && db_signal(inputs.cc_switch_db_modified_secs, inputs.now_secs)
}

fn push_reason(reasons: &mut Vec<String>, reason: &str)
    ensures
        texts(final(reasons)@) == texts(old(reasons)@).push(reason@),
{
    reasons.push(String::from_str(reason));
    proof {
        assert(texts(final(reasons)@) =~= texts(old(reasons)@).push(reason@));
    }
}

impl ExternalManagerDetection {
    /// The outcome with nothing detected.
    pub fn none() -> (r: Self)
        ensures
            !r.detected,
            r.reasons@.len() == 0,
    {
        ExternalManagerDetection { detected: false, reasons: Vec::new() }
    }
}

/// Compares the live file with the fingerprint: its modification time
/// (signal 1) and its hash (signal 2).
pub fn check_fingerprint_signals(
    live_mtime: Option<u64>,
    fingerprint: &WriteFingerprint,
    live_config_text: &str,
    reasons: &mut Vec<String>,
)
    ensures
        texts(final(reasons)@) == texts(old(reasons)@) + fingerprint_reasons(*fingerprint, live_config_text@, live_mtime),
{
    let ghost start = texts(reasons@);
    if let Some(live) = live_mtime {
        if live > fingerprint.config_mtime_secs {
            push_reason(reasons, MTIME_REASON);
        }
    }
    let ghost mid = texts(reasons@);
    let live_hash = compute_config_hash(live_config_text);
    if live_hash != fingerprint.config_hash {
        push_reason(reasons, HASH_REASON);
    }
    proof {
        assert(mid =~= start + (if mtime_signal(*fingerprint, live_mtime) { seq![MTIME_REASON@] } else { Seq::empty() }));
        assert(texts(reasons@) =~= start + fingerprint_reasons(*fingerprint, live_config_text@, live_mtime));
    }
}

/// Looks for cc-switch's sentinels in the live text (signal 3).
pub fn check_sentinel_signals(live_config_text: &str, reasons: &mut Vec<String>)
    ensures
        texts(final(reasons)@) == texts(old(reasons)@) + sentinel_reasons(live_config_text@),
{
    let ghost start = texts(reasons@);
    if contains_str(live_config_text, CC_SWITCH_CATALOG_SENTINEL) {
        push_reason(reasons, CATALOG_REASON);
    }
    let ghost mid = texts(reasons@);
    if contains_str(live_config_text, CC_SWITCH_WEB_SEARCH_SENTINEL) {
        push_reason(reasons, WEB_SEARCH_REASON);
    }
    proof {
        assert(mid =~= start + (if contains_text(live_config_text@, CC_SWITCH_CATALOG_SENTINEL@) {
            seq![CATALOG_REASON@]
        } else {
            Seq::empty()
        }));
        assert(texts(reasons@) =~= start + sentinel_reasons(live_config_text@));
    }
}

/// Whether cc-switch's database was modified recently (signal 4).
pub fn check_cc_switch_db_activity(modified: Option<u64>, now: u64, reasons: &mut Vec<String>)
    ensures
        texts(final(reasons)@) == texts(old(reasons)@) + db_reasons(modified, now),
{
    let ghost start = texts(reasons@);
    if let Some(m) = modified {
        if now >= m && now - m <= CC_SWITCH_RECENT_ACTIVITY_WINDOW_SECS {
            push_reason(reasons, DB_ACTIVITY_REASON);
        }
    }
    proof {
        assert(texts(reasons@) =~= start + db_reasons(modified, now));
    }
}

/// cc-switch's database: `<home>/.cc-switch/cc-switch.db`, or that path
/// relative to the working directory when the home directory is unknown.
pub fn home_cc_switch_db_path(home: &Option<PathModel>) -> (r: PathModel)
    ensures
        r@ == path_join(
            path_join(
                match home {
                    Some(h) => h@,
                    None => PathView { root: Seq::empty(), parts: Seq::empty() },
                },
                ".cc-switch"@,
            ),
            "cc-switch.db"@,
        ),
{
    let base = match home {
        Some(h) => h.duplicate(),
        None => {
            let b = PathModel { root: String::new(), parts: Vec::new() };
            proof {
                assert(b@.parts =~= Seq::<Seq<char>>::empty());
            }
            b
        },
    };
    base.join(".cc-switch").join("cc-switch.db")
}

/// Detection over what was read, with the database check switchable: the
/// reasons are [`detection_reasons`], and a change is detected exactly when
/// there is a reason.
pub fn detect_external_manager_with_options(inputs: &DetectionInputs, check_cc_switch_db: bool) -> (r: ExternalManagerDetection)
    ensures
        texts(r.reasons@) == detection_reasons(*inputs, check_cc_switch_db),
        r.detected == (r.reasons@.len() > 0),
{
    let mut reasons: Vec<String> = Vec::new();
    proof {
        assert(texts(reasons@) =~= Seq::<Seq<char>>::empty());
    }
    if let Some(fp) = &inputs.fingerprint {
        check_fingerprint_signals(inputs.live_config_mtime_secs, fp, inputs.live_config_text.as_str(), &mut reasons);
    }
    check_sentinel_signals(inputs.live_config_text.as_str(), &mut reasons);
    if check_cc_switch_db {
        check_cc_switch_db_activity(inputs.cc_switch_db_modified_secs, inputs.now_secs, &mut reasons);
    }
    proof {
        assert(texts(reasons@) =~= detection_reasons(*inputs, check_cc_switch_db));
    }
    let detected = reasons.len() > 0;
    ExternalManagerDetection { detected, reasons }
}

/// Detection over what was read, with every signal checked.
pub fn detect_external_manager(inputs: &DetectionInputs) -> (r: ExternalManagerDetection)
    ensures
        texts(r.reasons@) == detection_reasons(*inputs, true),
        r.detected == (r.reasons@.len() > 0),
{
    detect_external_manager_with_options(inputs, true)
}

/// A change is detected exactly when at least one of the four signals hits.
pub proof fn law_detected_iff_any_signal(inputs: DetectionInputs, check_cc_switch_db: bool)
    ensures
        (detection_reasons(inputs, check_cc_switch_db).len() > 0) == any_signal(inputs, check_cc_switch_db),
{
}

/// Without a fingerprint, the reasons are only those of the sentinels and of
/// the database: no modification-time or hash reason.
pub proof fn law_no_fingerprint_no_fingerprint_reasons(inputs: DetectionInputs, check_cc_switch_db: bool)
    requires
        inputs.fingerprint is None,
    ensures
        detection_reasons(inputs, check_cc_switch_db) == sentinel_reasons(inputs.live_config_text@) + (if check_cc_switch_db {
            db_reasons(inputs.cc_switch_db_modified_secs, inputs.now_secs)
        } else {
            Seq::empty()
        }),
{
    assert(Seq::<Seq<char>>::empty() + sentinel_reasons(inputs.live_config_text@) =~= sentinel_reasons(inputs.live_config_text@));
}

/// A fingerprint recorded for a text and a modification time gives no
/// reason as long as the live file still has that text and that time.
pub proof fn law_recorded_fingerprint_matches_unchanged_file(
    fp: WriteFingerprint,
    contents: Seq<char>,
    mtime: Option<u64>,
)
    requires
        fp.config_hash@ == config_hash(contents),
        fp.config_mtime_secs == match mtime {
            Some(m) => m,
            None => 0,
        },
    ensures
        fingerprint_reasons(fp, contents, mtime) == Seq::<Seq<char>>::empty(),
{
    assert(fingerprint_reasons(fp, contents, mtime) =~= Seq::<Seq<char>>::empty());
}

/// With the database check off, what was read of the database and the clock
/// does not change the outcome.
pub proof fn law_db_unchecked_is_ignored(a: DetectionInputs, b: DetectionInputs)
    requires
        a.fingerprint == b.fingerprint,
        a.live_config_text@ == b.live_config_text@,
        a.live_config_mtime_secs == b.live_config_mtime_secs,
    ensures
        detection_reasons(a, false) == detection_reasons(b, false),
{
}

proof fn lemma_concat_contains(p: Seq<Seq<char>>, q: Seq<Seq<char>>)
    ensures
        forall|x: Seq<char>| #[trigger] (p + q).contains(x) <==> (p.contains(x) || q.contains(x)),
{
    assert forall|x: Seq<char>| #[trigger] (p + q).contains(x) <==> (p.contains(x) || q.contains(x)) by {
        if (p + q).contains(x) {
            let k = choose|k: int| 0 <= k < (p + q).len() && (p + q)[k] == x;
            if k < p.len() {
                assert(p[k] == x);
            } else {
                assert(q[k - p.len()] == x);
            }
        }
        if p.contains(x) {
            let k = choose|k: int| 0 <= k < p.len() && p[k] == x;
            assert((p + q)[k] == x);
        }
        if q.contains(x) {
            let k = choose|k: int| 0 <= k < q.len() && q[k] == x;
            assert((p + q)[k + p.len()] == x);
        }
    }
}

/// How many of the signals hit.
pub open spec fn signals_hit(inputs: DetectionInputs, check_cc_switch_db: bool) -> int {
    (if inputs.fingerprint matches Some(fp) && mtime_signal(fp, inputs.live_config_mtime_secs) { 1int } else { 0int })
        + (if inputs.fingerprint matches Some(fp) && hash_signal(fp, inputs.live_config_text@) { 1int } else { 0int })
        + (if contains_text(inputs.live_config_text@, CC_SWITCH_CATALOG_SENTINEL@) { 1int } else { 0int })
        + (if contains_text(inputs.live_config_text@, CC_SWITCH_WEB_SEARCH_SENTINEL@) { 1int } else { 0int })
        + (if check_cc_switch_db && db_signal(inputs.cc_switch_db_modified_secs, inputs.now_secs) { 1int } else { 0int })
}

proof fn lemma_reasons_distinct()
    ensures
        MTIME_REASON@ != HASH_REASON@,
        MTIME_REASON@ != CATALOG_REASON@,
        MTIME_REASON@ != WEB_SEARCH_REASON@,
        MTIME_REASON@ != DB_ACTIVITY_REASON@,
        HASH_REASON@ != CATALOG_REASON@,
        HASH_REASON@ != WEB_SEARCH_REASON@,
        HASH_REASON@ != DB_ACTIVITY_REASON@,
        CATALOG_REASON@ != WEB_SEARCH_REASON@,
        CATALOG_REASON@ != DB_ACTIVITY_REASON@,
        WEB_SEARCH_REASON@ != DB_ACTIVITY_REASON@,
{
    reveal_strlit("config.toml 的修改时间晚于 CodexPlusPlus 上次写入");
    reveal_strlit("config.toml 的内容与 CodexPlusPlus 上次写入不一致");
    reveal_strlit("config.toml 含 cc-switch 的 catalog 指针（cc-switch-model-catalog.json）");
    reveal_strlit("config.toml 含 cc-switch 的 web_search=disabled sentinel");
    reveal_strlit("cc-switch 数据库（~/.cc-switch/cc-switch.db）在最近 300 秒内被修改");
    assert(MTIME_REASON@[13] != HASH_REASON@[13]);
    assert(MTIME_REASON@[12] != CATALOG_REASON@[12]);
    assert(MTIME_REASON@[12] != WEB_SEARCH_REASON@[12]);
    assert(MTIME_REASON@[1] != DB_ACTIVITY_REASON@[1]);
    assert(HASH_REASON@[12] != CATALOG_REASON@[12]);
    assert(HASH_REASON@[12] != WEB_SEARCH_REASON@[12]);
    assert(HASH_REASON@[1] != DB_ACTIVITY_REASON@[1]);
    assert(CATALOG_REASON@[26] != WEB_SEARCH_REASON@[26]);
    assert(CATALOG_REASON@[1] != DB_ACTIVITY_REASON@[1]);
    assert(WEB_SEARCH_REASON@[1] != DB_ACTIVITY_REASON@[1]);
}

/// Each signal that hits gives its own reason, whatever the other signals
/// do; a reason is given only when its signal hits; and there is exactly one
/// reason per signal that hits.
pub proof fn law_each_signal_gives_its_reason(inputs: DetectionInputs, check_cc_switch_db: bool)
    ensures
        (inputs.fingerprint matches Some(fp) && inputs.live_config_mtime_secs matches Some(m) && m > fp.config_mtime_secs)
            <==> detection_reasons(inputs, check_cc_switch_db).contains(MTIME_REASON@),
        (inputs.fingerprint matches Some(fp) && config_hash(inputs.live_config_text@) != fp.config_hash@)
            <==> detection_reasons(inputs, check_cc_switch_db).contains(HASH_REASON@),
        contains_text(inputs.live_config_text@, "cc-switch-model-catalog.json"@) <==> detection_reasons(
            inputs,
            check_cc_switch_db,
        ).contains(CATALOG_REASON@),
        contains_text(inputs.live_config_text@, "web_search = \"disabled\""@) <==> detection_reasons(
            inputs,
            check_cc_switch_db,
        ).contains(WEB_SEARCH_REASON@),
        (check_cc_switch_db && (inputs.cc_switch_db_modified_secs matches Some(m) && inputs.now_secs >= m
            && inputs.now_secs - m <= 300)) <==> detection_reasons(inputs, check_cc_switch_db).contains(
            DB_ACTIVITY_REASON@,
        ),
        detection_reasons(inputs, check_cc_switch_db).len() == signals_hit(inputs, check_cc_switch_db),
{
    lemma_reasons_distinct();
    let r = detection_reasons(inputs, check_cc_switch_db);
    let text = inputs.live_config_text@;
    let f = match inputs.fingerprint {
        Some(fp) => fingerprint_reasons(fp, text, inputs.live_config_mtime_secs),
        None => Seq::<Seq<char>>::empty(),
    };
    let a = if contains_text(text, CC_SWITCH_CATALOG_SENTINEL@) { seq![CATALOG_REASON@] } else { Seq::empty() };
    let b = if contains_text(text, CC_SWITCH_WEB_SEARCH_SENTINEL@) { seq![WEB_SEARCH_REASON@] } else { Seq::empty() };
    let d = if check_cc_switch_db { db_reasons(inputs.cc_switch_db_modified_secs, inputs.now_secs) } else { Seq::empty() };
    let (m, h) = match inputs.fingerprint {
        Some(fp) => (
            if mtime_signal(fp, inputs.live_config_mtime_secs) { seq![MTIME_REASON@] } else { Seq::<Seq<char>>::empty() },
            if hash_signal(fp, text) { seq![HASH_REASON@] } else { Seq::<Seq<char>>::empty() },
        ),
        None => (Seq::<Seq<char>>::empty(), Seq::<Seq<char>>::empty()),
    };
    assert(f == m + h);
    assert(r =~= m + h + a + b + d);
    lemma_concat_contains(m, h);
    lemma_concat_contains(m + h, a);
    lemma_concat_contains(m + h + a, b);
    lemma_concat_contains(m + h + a + b, d);
    if m.len() > 0 { assert(m[0] == MTIME_REASON@); }
    if h.len() > 0 { assert(h[0] == HASH_REASON@); }
    if a.len() > 0 { assert(a[0] == CATALOG_REASON@); }
    if b.len() > 0 { assert(b[0] == WEB_SEARCH_REASON@); }
    if d.len() > 0 { assert(d[0] == DB_ACTIVITY_REASON@); }
}

/// The place of a reason in the order of the signals.
pub open spec fn reason_rank(x: Seq<char>) -> int {
    if x == MTIME_REASON@ {
        0
    } else if x == HASH_REASON@ {
        1
    } else if x == CATALOG_REASON@ {
        2
    } else if x == WEB_SEARCH_REASON@ {
        3
    } else {
        4
    }
}

/// The reasons come in the order of the signals: modification time, hash,
/// catalog sentinel, `web_search` sentinel, database activity.
#[verifier::rlimit(50)]
pub proof fn law_reasons_in_signal_order(inputs: DetectionInputs, check_cc_switch_db: bool)
    ensures
        forall|i: int, j: int|
            0 <= i < j < detection_reasons(inputs, check_cc_switch_db).len() ==> reason_rank(
                #[trigger] detection_reasons(inputs, check_cc_switch_db)[i],
            ) < reason_rank(#[trigger] detection_reasons(inputs, check_cc_switch_db)[j]),
{
    lemma_reasons_distinct();
    let r = detection_reasons(inputs, check_cc_switch_db);
    let text = inputs.live_config_text@;
    let a = if contains_text(text, CC_SWITCH_CATALOG_SENTINEL@) { seq![CATALOG_REASON@] } else { Seq::<Seq<char>>::empty() };
    let b = if contains_text(text, CC_SWITCH_WEB_SEARCH_SENTINEL@) { seq![WEB_SEARCH_REASON@] } else { Seq::<Seq<char>>::empty() };
    let d = if check_cc_switch_db { db_reasons(inputs.cc_switch_db_modified_secs, inputs.now_secs) } else { Seq::<Seq<char>>::empty() };
    let (m, h) = match inputs.fingerprint {
        Some(fp) => (
            if mtime_signal(fp, inputs.live_config_mtime_secs) { seq![MTIME_REASON@] } else { Seq::<Seq<char>>::empty() },
            if hash_signal(fp, text) { seq![HASH_REASON@] } else { Seq::<Seq<char>>::empty() },
        ),
        None => (Seq::<Seq<char>>::empty(), Seq::<Seq<char>>::empty()),
    };
    assert(r =~= m + h + a + b + d);
    let c1 = m.len() as int;
    let c2 = c1 + h.len();
    let c3 = c2 + a.len();
    let c4 = c3 + b.len();
    assert(m.len() <= 1 && h.len() <= 1 && a.len() <= 1 && b.len() <= 1 && d.len() <= 1);
    assert(r.len() == c4 + d.len());
    assert forall|k: int| 0 <= k < r.len() implies reason_rank(#[trigger] r[k]) == (if k < c1 {
        0int
    } else if k < c2 {
        1int
    } else if k < c3 {
        2int
    } else if k < c4 {
        3int
    } else {
        4int
    }) by {
        if k < c1 {
            assert(r[k] == m[k]);
        } else if k < c2 {
            assert(r[k] == h[k - c1]);
        } else if k < c3 {
            assert(r[k] == a[k - c2]);
        } else if k < c4 {
            assert(r[k] == b[k - c3]);
        } else {
            assert(r[k] == d[k - c4]);
        }
    }
}

} // verus!
