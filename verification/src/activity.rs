//! Activity tracking decisions.
//!
//! The platform tells which window is active; this module decides what the
//! activity-log producer does with it: whether the activity changed,
//! whether the finished one lasted long enough to commit, what the
//! committed entry holds, and which category the application falls in. The
//! committed entries go through the outbound telemetry channel.

use vstd::prelude::*;
use vstd::string::StringExecFns;

use crate::text::contains;
use crate::text::spec_contains;

verus! {

/// The activity being tracked right now.
#[derive(Clone, Debug)]
pub struct CurrentActivity {
    pub application_name: String,
    pub window_title: String,
    /// When the activity began, in milliseconds.
    pub start_time: u64,
    /// The application's category.
    pub category: Option<String>,
}

/// One committed activity record.
#[derive(Clone, Debug)]
pub struct ActivityLogEntry {
    pub application_name: String,
    pub window_title: String,
    /// When the activity began, in milliseconds.
    pub start_time: u64,
    /// When it ended, in milliseconds.
    pub end_time: u64,
    /// How long it lasted, in milliseconds.
    pub duration: u64,
    /// The application's category.
    pub category: Option<String>,
}

/// The case-folded form of a string: what `str::to_lowercase` returns, a
/// function of the characters alone.
pub uninterp spec fn lower_of(s: Seq<char>) -> Seq<char>;

/// Relies on str::to_lowercase: the result depends on the input characters
/// alone, and an empty string stays empty.
#[verifier::external_body]
fn lowercase(s: &str) -> (r: String)
    ensures
        r@ == lower_of(s@),
        s@.len() == 0 ==> r@.len() == 0,
{
    s.to_lowercase()
}

/// The application categories, as keyword/category pairs tried in order.
pub open spec fn spec_category_table() -> Seq<(Seq<char>, Seq<char>)> {
    seq![
        ("chrome"@, "BROWSER"@),
        ("firefox"@, "BROWSER"@),
        ("safari"@, "BROWSER"@),
        ("edge"@, "BROWSER"@),
        ("opera"@, "BROWSER"@),
        ("brave"@, "BROWSER"@),
        ("slack"@, "COMMUNICATION"@),
        ("teams"@, "COMMUNICATION"@),
        ("zoom"@, "COMMUNICATION"@),
        ("discord"@, "COMMUNICATION"@),
        ("skype"@, "COMMUNICATION"@),
        ("outlook"@, "COMMUNICATION"@),
        ("mail"@, "COMMUNICATION"@),
        ("thunderbird"@, "COMMUNICATION"@),
        ("word"@, "PRODUCTIVITY"@),
        ("excel"@, "PRODUCTIVITY"@),
        ("powerpoint"@, "PRODUCTIVITY"@),
        ("pages"@, "PRODUCTIVITY"@),
        ("numbers"@, "PRODUCTIVITY"@),
        ("keynote"@, "PRODUCTIVITY"@),
        ("notion"@, "PRODUCTIVITY"@),
        ("evernote"@, "PRODUCTIVITY"@),
        ("onenote"@, "PRODUCTIVITY"@),
        ("code"@, "DEVELOPMENT"@),
        ("vscode"@, "DEVELOPMENT"@),
        ("visual studio"@, "DEVELOPMENT"@),
        ("intellij"@, "DEVELOPMENT"@),
        ("pycharm"@, "DEVELOPMENT"@),
        ("webstorm"@, "DEVELOPMENT"@),
        ("xcode"@, "DEVELOPMENT"@),
        ("android studio"@, "DEVELOPMENT"@),
        ("sublime"@, "DEVELOPMENT"@),
        ("atom"@, "DEVELOPMENT"@),
        ("terminal"@, "DEVELOPMENT"@),
        ("iterm"@, "DEVELOPMENT"@),
        ("powershell"@, "DEVELOPMENT"@),
        ("cmd"@, "DEVELOPMENT"@),
        ("spotify"@, "ENTERTAINMENT"@),
        ("netflix"@, "ENTERTAINMENT"@),
        ("youtube"@, "ENTERTAINMENT"@),
        ("vlc"@, "ENTERTAINMENT"@),
        ("music"@, "ENTERTAINMENT"@),
        ("facebook"@, "SOCIAL"@),
        ("twitter"@, "SOCIAL"@),
        ("instagram"@, "SOCIAL"@),
        ("linkedin"@, "SOCIAL"@),
        ("reddit"@, "SOCIAL"@),
        ("finder"@, "FILE_MANAGEMENT"@),
        ("explorer"@, "FILE_MANAGEMENT"@),
        ("files"@, "FILE_MANAGEMENT"@),
        ("settings"@, "SYSTEM"@),
        ("control panel"@, "SYSTEM"@),
        ("system preferences"@, "SYSTEM"@),
    ]
}

/// The category of the first keyword the folded name contains; `OTHER`
/// when none matches.
pub open spec fn first_category(
    table: Seq<(Seq<char>, Seq<char>)>,
    lower: Seq<char>,
) -> Seq<char>
    decreases table.len(),
{
    if table.len() == 0 {
        "OTHER"@
    } else if spec_contains(lower, table[0].0) {
        table[0].1
    } else {
        first_category(table.drop_first(), lower)
    }
}

/// What categorizing an application name yields.
pub open spec fn spec_categorize(app_name: Seq<char>) -> Seq<char> {
    first_category(spec_category_table(), lower_of(app_name))
}

/// The category lands on the first matching keyword.
proof fn lemma_first_category_at(table: Seq<(Seq<char>, Seq<char>)>, lower: Seq<char>, i: int)
    requires
        0 <= i < table.len(),
        spec_contains(lower, table[i].0),
        forall|j: int| 0 <= j < i ==> !spec_contains(lower, #[trigger] table[j].0),
    ensures
        first_category(table, lower) == table[i].1,
    decreases i,
{
    if i > 0 {
        lemma_first_category_at(table.drop_first(), lower, i - 1);
    }
}

/// No matching keyword means the default category.
proof fn lemma_first_category_absent(table: Seq<(Seq<char>, Seq<char>)>, lower: Seq<char>)
    requires
        forall|j: int| 0 <= j < table.len() ==> !spec_contains(lower, #[trigger] table[j].0),
    ensures
        first_category(table, lower) == "OTHER"@,
    decreases table.len(),
{
    if table.len() > 0 {
        lemma_first_category_absent(table.drop_first(), lower);
    }
}

/// The keyword/category pairs, in the order they are tried.
fn category_table() -> (r: Vec<(&'static str, &'static str)>)
    ensures
        r@.map(|i: int, e: (&'static str, &'static str)| (e.0@, e.1@))
            =~= spec_category_table(),
{
    let mut t: Vec<(&'static str, &'static str)> = Vec::new();
    t.push(("chrome", "BROWSER"));
    t.push(("firefox", "BROWSER"));
    t.push(("safari", "BROWSER"));
    t.push(("edge", "BROWSER"));
    t.push(("opera", "BROWSER"));
    t.push(("brave", "BROWSER"));
    t.push(("slack", "COMMUNICATION"));
    t.push(("teams", "COMMUNICATION"));
    t.push(("zoom", "COMMUNICATION"));
    t.push(("discord", "COMMUNICATION"));
    t.push(("skype", "COMMUNICATION"));
    t.push(("outlook", "COMMUNICATION"));
    t.push(("mail", "COMMUNICATION"));
    t.push(("thunderbird", "COMMUNICATION"));
    t.push(("word", "PRODUCTIVITY"));
    t.push(("excel", "PRODUCTIVITY"));
    t.push(("powerpoint", "PRODUCTIVITY"));
    t.push(("pages", "PRODUCTIVITY"));
    t.push(("numbers", "PRODUCTIVITY"));
    t.push(("keynote", "PRODUCTIVITY"));
    t.push(("notion", "PRODUCTIVITY"));
    t.push(("evernote", "PRODUCTIVITY"));
    t.push(("onenote", "PRODUCTIVITY"));
    t.push(("code", "DEVELOPMENT"));
    t.push(("vscode", "DEVELOPMENT"));
    t.push(("visual studio", "DEVELOPMENT"));
    t.push(("intellij", "DEVELOPMENT"));
    t.push(("pycharm", "DEVELOPMENT"));
    t.push(("webstorm", "DEVELOPMENT"));
    t.push(("xcode", "DEVELOPMENT"));
    t.push(("android studio", "DEVELOPMENT"));
    t.push(("sublime", "DEVELOPMENT"));
    t.push(("atom", "DEVELOPMENT"));
    t.push(("terminal", "DEVELOPMENT"));
    t.push(("iterm", "DEVELOPMENT"));
    t.push(("powershell", "DEVELOPMENT"));
    t.push(("cmd", "DEVELOPMENT"));
    t.push(("spotify", "ENTERTAINMENT"));
    t.push(("netflix", "ENTERTAINMENT"));
    t.push(("youtube", "ENTERTAINMENT"));
    t.push(("vlc", "ENTERTAINMENT"));
    t.push(("music", "ENTERTAINMENT"));
    t.push(("facebook", "SOCIAL"));
    t.push(("twitter", "SOCIAL"));
    t.push(("instagram", "SOCIAL"));
    t.push(("linkedin", "SOCIAL"));
    t.push(("reddit", "SOCIAL"));
    t.push(("finder", "FILE_MANAGEMENT"));
    t.push(("explorer", "FILE_MANAGEMENT"));
    t.push(("files", "FILE_MANAGEMENT"));
    t.push(("settings", "SYSTEM"));
    t.push(("control panel", "SYSTEM"));
    t.push(("system preferences", "SYSTEM"));
    t
}

/// Categorizes an application by its name: the category of the first
/// keyword its case-folded name contains, `OTHER` otherwise.
pub fn categorize_app(app_name: &str) -> (r: Option<String>)
    ensures
        r matches Some(c) && c@ == spec_categorize(app_name@),
{
    let lower = lowercase(app_name);
    let table = category_table();
    let ghost tspec = spec_category_table();
    let n = table.len();
    let mut i: usize = 0;
    while i < n
        invariant
            i <= n,
            n == tspec.len(),
            tspec == spec_category_table(),
            table@.map(|i: int, e: (&'static str, &'static str)| (e.0@, e.1@)) =~= tspec,
            lower@ == lower_of(app_name@),
            forall|j: int| 0 <= j < i ==> !spec_contains(lower@, #[trigger] tspec[j].0),
        decreases n - i,
    {
        proof {
            assert(tspec[i as int] == (table@[i as int].0@, table@[i as int].1@));
        }
        if contains(lower.as_str(), table[i].0) {
            proof {
                lemma_first_category_at(tspec, lower@, i as int);
            }
            return Some(table[i].1.to_owned());
        }
        i += 1;
    }
    proof {
        lemma_first_category_absent(tspec, lower@);
    }
    Some("OTHER".to_owned())
}

/// Elapsed milliseconds, zero when the clock ran backwards.
pub open spec fn spec_elapsed(now: u64, start: u64) -> u64 {
    if now >= start {
        (now - start) as u64
    } else {
        0
    }
}

/// Whether the observation is of the activity already being tracked.
pub open spec fn same_activity(cur: CurrentActivity, app: Seq<char>, title: Seq<char>) -> bool {
    cur.application_name@ == app && cur.window_title@ == title
}

/// What a committed entry holds: the finished activity, closed at `now`.
pub open spec fn entry_closes(e: ActivityLogEntry, cur: CurrentActivity, now: u64) -> bool {
    &&& e.application_name == cur.application_name
    &&& e.window_title == cur.window_title
    &&& e.start_time == cur.start_time
    &&& e.end_time == now
    &&& e.duration == spec_elapsed(now, cur.start_time)
    &&& e.category == cur.category
}

/// What the freshly started activity holds.
pub open spec fn starts_activity(
    cur: CurrentActivity,
    app: Seq<char>,
    title: Seq<char>,
    now: u64,
) -> bool {
    &&& cur.application_name@ == app
    &&& cur.window_title@ == title
    &&& cur.start_time == now
    &&& (cur.category matches Some(c) && c@ == spec_categorize(app))
}

/// One observation of the active window. The same activity continues and
/// commits nothing. A different one ends the tracked activity — committing
/// it when it lasted longer than a second — and starts tracking the new
/// one.
pub fn observe_window(
    current: Option<CurrentActivity>,
    app_name: String,
    window_title: String,
    now: u64,
) -> (r: (Option<ActivityLogEntry>, CurrentActivity))
    ensures
        match current {
            Some(cur) => {
                if same_activity(cur, app_name@, window_title@) {
                    r.0 is None && r.1 == cur
                } else {
                    &&& (if spec_elapsed(now, cur.start_time) > 1000 {
                        r.0 matches Some(e) && entry_closes(e, cur, now)
                    } else {
                        r.0 is None
                    })
                    &&& starts_activity(r.1, app_name@, window_title@, now)
                }
            },
            None => r.0 is None && starts_activity(r.1, app_name@, window_title@, now),
        },
{
    let mut committed: Option<ActivityLogEntry> = None;
    if let Some(cur) = current {
        if crate::text::str_eq(cur.application_name.as_str(), app_name.as_str())
            && crate::text::str_eq(cur.window_title.as_str(), window_title.as_str()) {
            proof {
                assert(cur.application_name@ == app_name@);
            }
            return (None, cur);
        }
        committed = commit_current_activity(Some(cur), now);
    }
    let category = categorize_app(app_name.as_str());
    let next = CurrentActivity {
        application_name: app_name,
        window_title,
        start_time: now,
        category,
    };
    (committed, next)
}

/// Ends the tracked activity at `now` and commits it when it lasted longer
/// than a second; tracking stops either way.
pub fn commit_current_activity(current: Option<CurrentActivity>, now: u64) -> (r: Option<
    ActivityLogEntry,
>)
    ensures
        match current {
            Some(cur) => {
                if spec_elapsed(now, cur.start_time) > 1000 {
                    r matches Some(e) && entry_closes(e, cur, now)
                } else {
                    r is None
                }
            },
            None => r is None,
        },
{
    match current {
        Some(cur) => {
            let duration: u64 = if now >= cur.start_time {
                now - cur.start_time
            } else {
                0
            };
            if duration > 1000 {
                Some(ActivityLogEntry {
                    application_name: cur.application_name,
                    window_title: cur.window_title,
                    start_time: cur.start_time,
                    end_time: now,
                    duration,
                    category: cur.category,
                })
            } else {
                None
            }
        },
        None => None,
    }
}

} // verus!
