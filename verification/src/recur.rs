//! Recurring issue definitions: checking a new definition, where a definition
//! is recorded, and what a due definition turns into.

use crate::cli::{ConfigScope, NewArgs, RecurArgs, RecurNewArgs, RecurSubcommand};
use crate::domain::{priority_named, state_named, IssueFrontmatter, IssueState, Priority};
use crate::error::RiptskError;
use crate::text::{
    chars_of, clone_opt_string, clone_strings, decimal, has_prefix, has_suffix, opt_view,
    str_ends_with, str_eq, str_starts_with, string_of_range, string_views, to_lowercase,
    u64_to_decimal, unicode_lowercase,
};
use vstd::prelude::*;

verus! {

/// How often a recurring issue is created.
#[derive(Debug, Clone, Copy, PartialEq, Eq, Structural)]
pub enum RecurrenceFrequency {
    Daily,
    Weekly,
    Monthly,
    Yearly,
}

impl RecurrenceFrequency {
    pub open spec fn spec_name(&self) -> Seq<char> {
        match self {
            RecurrenceFrequency::Daily => "daily"@,
            RecurrenceFrequency::Weekly => "weekly"@,
            RecurrenceFrequency::Monthly => "monthly"@,
            RecurrenceFrequency::Yearly => "yearly"@,
        }
    }

    /// The frequency's name as written in the configuration.
    pub fn as_str(&self) -> (r: &'static str)
        ensures
            r@ == self.spec_name(),
    {
        match self {
            RecurrenceFrequency::Daily => "daily",
            RecurrenceFrequency::Weekly => "weekly",
            RecurrenceFrequency::Monthly => "monthly",
            RecurrenceFrequency::Yearly => "yearly",
        }
    }
}

/// The frequency named `name`, if any.
pub open spec fn frequency_named(name: Seq<char>) -> Option<RecurrenceFrequency> {
    if name == "daily"@ {
        Some(RecurrenceFrequency::Daily)
    } else if name == "weekly"@ {
        Some(RecurrenceFrequency::Weekly)
    } else if name == "monthly"@ {
        Some(RecurrenceFrequency::Monthly)
    } else if name == "yearly"@ {
        Some(RecurrenceFrequency::Yearly)
    } else {
        None
    }
}

/// Reading back the name a frequency is written as gives that frequency.
pub proof fn lemma_frequency_name_round_trip(f: RecurrenceFrequency)
    ensures
        frequency_named(f.spec_name()) == Some(f),
{
    reveal_strlit("daily");
    reveal_strlit("weekly");
    reveal_strlit("monthly");
    reveal_strlit("yearly");
    assert("daily"@.len() == 5);
    assert("weekly"@.len() == 6);
    assert("monthly"@.len() == 7);
    assert("yearly"@.len() == 6);
    assert("weekly"@[0] != "yearly"@[0]);
    assert("weekly"@ != "yearly"@);
}

/// The frequency named `name`, if any.
pub fn parse_frequency(name: &str) -> (r: Option<RecurrenceFrequency>)
    ensures
        r == frequency_named(name@),
{
    if str_eq(name, "daily") {
        Some(RecurrenceFrequency::Daily)
    } else if str_eq(name, "weekly") {
        Some(RecurrenceFrequency::Weekly)
    } else if str_eq(name, "monthly") {
        Some(RecurrenceFrequency::Monthly)
    } else if str_eq(name, "yearly") {
        Some(RecurrenceFrequency::Yearly)
    } else {
        None
    }
}

/// A recurring issue definition.
#[derive(Debug, Clone, PartialEq, Eq)]
pub struct RecurringDef {
    pub id: String,
    pub template: String,
    pub title_pattern: String,
    pub board: Option<String>,
    pub project: Option<String>,
    pub org: Option<String>,
    pub status: Option<IssueState>,
    pub priority: Option<Priority>,
    pub assignee: Option<String>,
    pub labels: Vec<String>,
    pub frequency: RecurrenceFrequency,
    /// Lower-case weekday name, for weekly recurrences.
    pub day_of_week: Option<String>,
    /// 1 to 31, for monthly recurrences.
    pub day_of_month: Option<u8>,
    /// `YYYY-MM-DD`.
    pub start: Option<String>,
    pub end: Option<String>,
    pub last_run: Option<String>,
}

/// Why `s` is not a date `chrono` reads as `NaiveDate`; `None` when it is one.
pub uninterp spec fn naive_date_parse_error(s: Seq<char>) -> Option<Seq<char>>;

/// `s.parse::<chrono::NaiveDate>()`, keeping only the error's message. The
/// contract ties the outcome to `s` through `naive_date_parse_error`; which
/// texts are dates is the crate's.
#[verifier::external_body]
fn date_parse_error(s: &str) -> (r: Option<String>)
    ensures
        opt_view(r) == naive_date_parse_error(s@),
{
    match s.parse::<chrono::NaiveDate>() {
        Ok(_) => None,
        Err(e) => Some(e.to_string()),
    }
}

/// The weekday names a weekly recurrence may name.
pub open spec fn is_weekday_name(s: Seq<char>) -> bool {
    s == "monday"@ || s == "tuesday"@ || s == "wednesday"@ || s == "thursday"@ || s == "friday"@
        || s == "saturday"@ || s == "sunday"@
}

/// Whether `s` is a weekday name.
fn weekday_name(s: &str) -> (r: bool)
    ensures
        r == is_weekday_name(s@),
{
    str_eq(s, "monday") || str_eq(s, "tuesday") || str_eq(s, "wednesday") || str_eq(s, "thursday")
        || str_eq(s, "friday") || str_eq(s, "saturday") || str_eq(s, "sunday")
}

/// The error of an unknown status name.
pub open spec fn invalid_status_message(s: Seq<char>) -> Seq<char> {
    "invalid state: "@ + s
}

/// The error of an unknown priority name.
pub open spec fn invalid_priority_message(s: Seq<char>) -> Seq<char> {
    "invalid priority: "@ + s
}

/// Why a new recurrence is refused: whether the error is `Config` (else
/// `Other`) and its message; `None` when it is accepted. The checks run in
/// this order.
pub open spec fn recurrence_refusal(args: RecurNewArgs, existing_ids: Seq<Seq<char>>) -> Option<
    (bool, Seq<char>),
> {
    if existing_ids.contains(args.id@) {
        Some((true, "duplicate recurrence id: "@ + args.id@))
    } else if frequency_named(args.frequency@) is None {
        Some((true, "invalid frequency: "@ + args.frequency@))
    } else if args.status matches Some(s) && state_named(s@) is None {
        Some((false, invalid_status_message(args.status->Some_0@)))
    } else if args.priority matches Some(p) && priority_named(p@) is None {
        Some((false, invalid_priority_message(args.priority->Some_0@)))
    } else if args.start matches Some(d) && naive_date_parse_error(d@) is Some {
        Some((true, naive_date_parse_error(args.start->Some_0@)->Some_0))
    } else if args.end matches Some(d) && naive_date_parse_error(d@) is Some {
        Some((true, naive_date_parse_error(args.end->Some_0@)->Some_0))
    } else if frequency_named(args.frequency@) == Some(RecurrenceFrequency::Weekly)
        && args.day_of_week is None {
        Some((true, "day_of_week is required for weekly recurrences"@))
    } else if args.day_of_week matches Some(d) && !is_weekday_name(unicode_lowercase(d@)) {
        Some(
            (
                true,
                "invalid day_of_week: "@ + args.day_of_week->Some_0@
                    + " (expected: monday-sunday)"@,
            ),
        )
    } else if frequency_named(args.frequency@) == Some(RecurrenceFrequency::Monthly)
        && args.day_of_month is None {
        Some((true, "day_of_month is required for monthly recurrences"@))
    } else if args.day_of_month matches Some(d) && !(1 <= d <= 31) {
        Some((true, "day_of_month must be 1-31, got "@ + decimal(args.day_of_month->Some_0 as nat)))
    } else {
        None
    }
}

/// Whether `d` is the definition `args` describes, created on `today`.
pub open spec fn is_definition_of(d: RecurringDef, args: RecurNewArgs, today: Seq<char>) -> bool {
    &&& d.id@ == args.id@
    &&& d.template@ == (match args.template {
        Some(t) => t@,
        None => "task"@,
    })
    &&& d.title_pattern@ == args.title_pattern@
    &&& opt_view(d.board) == opt_view(args.board)
    &&& opt_view(d.project) == opt_view(args.project)
    &&& opt_view(d.org) == opt_view(args.org)
    &&& d.status == (match args.status {
        Some(s) => state_named(s@),
        None => None,
    })
    &&& d.priority == (match args.priority {
        Some(p) => priority_named(p@),
        None => None,
    })
    &&& opt_view(d.assignee) == opt_view(args.assignee)
    &&& string_views(d.labels@) == string_views(args.labels@)
    &&& Some(d.frequency) == frequency_named(args.frequency@)
    &&& opt_view(d.day_of_week) == (match args.day_of_week {
        Some(w) => Some(unicode_lowercase(w@)),
        None => None,
    })
    &&& d.day_of_month == (match args.day_of_month {
        Some(m) => Some(m as u8),
        None => None,
    })
    &&& opt_view(d.start) == Some(
        match args.start {
            Some(s) => s@,
            None => today,
        },
    )
    &&& opt_view(d.end) == opt_view(args.end)
    &&& d.last_run is None
}

/// A new recurrence keeps what it was given: its id, title pattern,
/// assignee, labels and end as given, the template given (the `task`
/// template only when none is), and the start given (today only when none
/// is); and it has not run yet.
pub proof fn lemma_definition_keeps_arguments(d: RecurringDef, args: RecurNewArgs, today: Seq<char>)
    requires
        is_definition_of(d, args, today),
    ensures
        d.id@ == args.id@,
        d.title_pattern@ == args.title_pattern@,
        args.template matches Some(t) ==> d.template@ == t@,
        args.template is None ==> d.template@ == "task"@,
        args.start matches Some(s) ==> opt_view(d.start) == Some(s@),
        args.start is None ==> opt_view(d.start) == Some(today),
        opt_view(d.assignee) == opt_view(args.assignee),
        string_views(d.labels@) == string_views(args.labels@),
        opt_view(d.end) == opt_view(args.end),
        d.last_run is None,
{
}

/// An error of the kind and message a refusal gives.
fn refusal(config: bool, message: String) -> (r: RiptskError)
    ensures
        config ==> r == RiptskError::Config(message),
        !config ==> r == RiptskError::Other(message),
{
    if config {
        RiptskError::Config(message)
    } else {
        RiptskError::Other(message)
    }
}

/// `prefix` followed by `s`.
fn prefixed(prefix: &str, s: &str) -> (r: String)
    ensures
        r@ == prefix@ + s@,
{
    let mut r = String::from_str(prefix);
    r.append(s);
    r
}

/// The definition that `recur new` records, checked against the ids of the
/// definitions already configured; `today` (`YYYY-MM-DD`) is its start when
/// none is given.
pub fn new_recurrence(args: RecurNewArgs, existing_ids: &Vec<String>, today: &str) -> (r: Result<
    RecurringDef,
    RiptskError,
>)
    ensures
        match recurrence_refusal(args, string_views(existing_ids@)) {
            Some((config, m)) => r matches Err(e) && e.message() == m && (config ==> e is Config)
                && (!config ==> e is Other),
            None => r matches Ok(d) && is_definition_of(d, args, today@),
        },
{
    let ghost ids = string_views(existing_ids@);
    let mut i: usize = 0;
    while i < existing_ids.len()
        invariant
            i <= existing_ids@.len(),
            ids == string_views(existing_ids@),
            forall|j: int| 0 <= j < i ==> ids[j] != args.id@,
        decreases existing_ids@.len() - i,
    {
        if str_eq(existing_ids[i].as_str(), args.id.as_str()) {
            assert(ids[i as int] == args.id@);
            return Err(refusal(true, prefixed("duplicate recurrence id: ", args.id.as_str())));
        }
        i += 1;
    }
    assert(!ids.contains(args.id@));
    let frequency = match parse_frequency(args.frequency.as_str()) {
        Some(f) => f,
        None => {
            return Err(refusal(true, prefixed("invalid frequency: ", args.frequency.as_str())));
        },
    };
    let status = match &args.status {
        Some(s) => match IssueState::from_name(s.as_str()) {
            Some(st) => Some(st),
            None => {
                return Err(refusal(false, prefixed("invalid state: ", s.as_str())));
            },
        },
        None => None,
    };
    let priority = match &args.priority {
        Some(p) => match Priority::from_name(p.as_str()) {
            Some(pr) => Some(pr),
            None => {
                return Err(refusal(false, prefixed("invalid priority: ", p.as_str())));
            },
        },
        None => None,
    };
    if let Some(start) = &args.start {
        if let Some(e) = date_parse_error(start.as_str()) {
            return Err(refusal(true, e));
        }
    }
    if let Some(end) = &args.end {
        if let Some(e) = date_parse_error(end.as_str()) {
            return Err(refusal(true, e));
        }
    }
    if frequency == RecurrenceFrequency::Weekly && args.day_of_week.is_none() {
        return Err(
            refusal(true, String::from_str("day_of_week is required for weekly recurrences")),
        );
    }
    let day_of_week = match &args.day_of_week {
        Some(day) => {
            let lower = to_lowercase(day.as_str());
            if !weekday_name(lower.as_str()) {
                let mut m = prefixed("invalid day_of_week: ", day.as_str());
                m.append(" (expected: monday-sunday)");
                return Err(refusal(true, m));
            }
            Some(lower)
        },
        None => None,
    };
    if frequency == RecurrenceFrequency::Monthly && args.day_of_month.is_none() {
        return Err(
            refusal(true, String::from_str("day_of_month is required for monthly recurrences")),
        );
    }
    let day_of_month = match args.day_of_month {
        Some(day) => {
            if !(1 <= day && day <= 31) {
                let digits = u64_to_decimal(day as u64);
                return Err(refusal(true, prefixed("day_of_month must be 1-31, got ", digits.as_str())));
            }
            Some(day as u8)
        },
        None => None,
    };
    let template = match &args.template {
        Some(t) => t.clone(),
        None => String::from_str("task"),
    };
    let start = match &args.start {
        Some(s) => s.clone(),
        None => String::from_str(today),
    };
    let labels = clone_strings(&args.labels);
    let def = RecurringDef {
        id: args.id.clone(),
        template,
        title_pattern: args.title_pattern.clone(),
        board: clone_opt_string(&args.board),
        project: clone_opt_string(&args.project),
        org: clone_opt_string(&args.org),
        status,
        priority,
        assignee: clone_opt_string(&args.assignee),
        labels,
        frequency,
        day_of_week,
        day_of_month,
        start: Some(start),
        end: clone_opt_string(&args.end),
        last_run: None,
    };
    Ok(def)
}

/// The template name a definition's template path gives: `templates/` and
/// `.md` taken off. When the prefix comes off but the suffix is missing, the
/// path is kept whole, as it was written.
pub open spec fn template_name_of(template: Seq<char>) -> Seq<char> {
    let rest = if has_prefix(template, "templates/"@) {
        template.subrange("templates/"@.len() as int, template.len() as int)
    } else {
        template
    };
    if has_suffix(rest, ".md"@) {
        rest.subrange(0, rest.len() - ".md"@.len())
    } else {
        template
    }
}

/// The template name used for the issues of a definition.
pub fn recurrence_template_name(template: &str) -> (r: String)
    ensures
        r@ == template_name_of(template@),
{
    let v = chars_of(template);
    proof {
        reveal_strlit("templates/");
        reveal_strlit(".md");
    }
    let start: usize = if str_starts_with(template, "templates/") {
        10
    } else {
        0
    };
    let rest = string_of_range(&v, start, v.len());
    assert(rest@ =~= (if has_prefix(template@, "templates/"@) {
        template@.subrange("templates/"@.len() as int, template@.len() as int)
    } else {
        template@
    }));
    if str_ends_with(rest.as_str(), ".md") {
        let end: usize = v.len() - 3;
        assert(rest@.subrange(0, rest@.len() - 3) =~= v@.subrange(start as int, end as int));
        string_of_range(&v, start, end)
    } else {
        String::from_str(template)
    }
}

/// The `new` arguments that create the issue of a due definition, titled
/// `title` (the title pattern with its date tokens filled in).
pub fn recurrence_new_args(def: &RecurringDef, title: String) -> (r: NewArgs)
    ensures
        r.title == Some(title),
        r.description is None,
        !r.ai,
        opt_view(r.project) == opt_view(def.project),
        opt_view(r.board) == opt_view(def.board),
        opt_view(r.status) == (match def.status {
            Some(s) => Some(s.spec_name()),
            None => None,
        }),
        opt_view(r.priority) == (match def.priority {
            Some(p) => Some(p.spec_name()),
            None => None,
        }),
        opt_view(r.template) == Some(template_name_of(def.template@)),
        !r.edit,
{
    let status = match def.status {
        Some(s) => Some(String::from_str(s.as_str())),
        None => None,
    };
    let priority = match def.priority {
        Some(p) => Some(String::from_str(p.as_str())),
        None => None,
    };
    NewArgs {
        title: Some(title),
        description: None,
        ai: false,
        project: clone_opt_string(&def.project),
        board: clone_opt_string(&def.board),
        status,
        priority,
        template: Some(recurrence_template_name(def.template.as_str())),
        edit: false,
    }
}

/// Marks a new issue as an instance of `def`: the definition's id, and its
/// labels, assignee and organization where it sets them.
pub fn apply_recurrence(frontmatter: &mut IssueFrontmatter, def: &RecurringDef)
    ensures
        opt_view(final(frontmatter).recurring) == Some(def.id@),
        string_views(final(frontmatter).labels@) == (if def.labels@.len() > 0 {
            string_views(def.labels@)
        } else {
            string_views(old(frontmatter).labels@)
        }),
        string_views(final(frontmatter).assignees@) == (match def.assignee {
            Some(a) => seq![a@],
            None => string_views(old(frontmatter).assignees@),
        }),
        opt_view(final(frontmatter).org) == (match def.org {
            Some(o) => Some(o@),
            None => opt_view(old(frontmatter).org),
        }),
        final(frontmatter).id == old(frontmatter).id,
        final(frontmatter).title == old(frontmatter).title,
        final(frontmatter).status == old(frontmatter).status,
        final(frontmatter).project == old(frontmatter).project,
        final(frontmatter).board == old(frontmatter).board,
        final(frontmatter).priority == old(frontmatter).priority,
        final(frontmatter).order == old(frontmatter).order,
{
    frontmatter.recurring = Some(def.id.clone());
    if def.labels.len() > 0 {
        frontmatter.labels = clone_strings(&def.labels);
    }
    if let Some(a) = &def.assignee {
        let mut assignees: Vec<String> = Vec::new();
        assignees.push(a.clone());
        assert(string_views(assignees@) =~= seq![a@]);
        frontmatter.assignees = assignees;
    }
    if let Some(o) = &def.org {
        frontmatter.org = Some(o.clone());
    }
}

/// The config layer that records the definition `id`: the first of the
/// local, user and system layers (in that order) whose definitions include
/// it. A layer that could not be read is `None`.
pub fn recurrence_layer(
    id: &str,
    local: Option<&Vec<String>>,
    user: Option<&Vec<String>>,
    system: Option<&Vec<String>>,
) -> (r: Option<ConfigScope>)
    ensures
        r == (if local matches Some(ids) && string_views(ids@).contains(id@) {
            Some(ConfigScope::Local)
        } else if user matches Some(ids) && string_views(ids@).contains(id@) {
            Some(ConfigScope::User)
        } else if system matches Some(ids) && string_views(ids@).contains(id@) {
            Some(ConfigScope::System)
        } else {
            None
        }),
{
    if let Some(ids) = local {
        if contains_id(ids, id) {
            return Some(ConfigScope::Local);
        }
    }
    if let Some(ids) = user {
        if contains_id(ids, id) {
            return Some(ConfigScope::User);
        }
    }
    if let Some(ids) = system {
        if contains_id(ids, id) {
            return Some(ConfigScope::System);
        }
    }
    None
}

/// Whether `ids` includes `id`.
pub fn contains_id(ids: &Vec<String>, id: &str) -> (r: bool)
    ensures
        r == string_views(ids@).contains(id@),
{
    let ghost views = string_views(ids@);
    let mut i: usize = 0;
    while i < ids.len()
        invariant
            i <= ids@.len(),
            views == string_views(ids@),
            forall|j: int| 0 <= j < i ==> views[j] != id@,
        decreases ids@.len() - i,
    {
        if str_eq(ids[i].as_str(), id) {
            assert(views[i as int] == id@);
            return true;
        }
        i += 1;
    }
    false
}

/// The definition `recur skip` skips: the id given, which must be among the
/// configured ones.
pub fn skip_target(recur_id: Option<String>, known_ids: &Vec<String>) -> (r: Result<String, RiptskError>)
    ensures
        match recur_id {
            None => r matches Err(RiptskError::General(m)) && m@ == "missing recurrence id"@,
            Some(id) => if string_views(known_ids@).contains(id@) {
                r matches Ok(x) && x@ == id@
            } else {
                r matches Err(RiptskError::Config(m)) && m@ == "unknown recurrence id: "@ + id@
            },
        },
{
    match recur_id {
        None => Err(RiptskError::General(String::from_str("missing recurrence id"))),
        Some(id) => {
            if contains_id(known_ids, id.as_str()) {
                Ok(id)
            } else {
                Err(RiptskError::Config(prefixed("unknown recurrence id: ", id.as_str())))
            }
        },
    }
}

/// The index of the first entry of `out` for the layer `scope` and file
/// `path`, from `i` on.
pub open spec fn find_write(out: Seq<(ConfigScope, Seq<char>, nat)>, scope: ConfigScope, path: Seq<char>, i: int) -> Option<int>
    decreases out.len() - i,
{
    if i < 0 || i >= out.len() {
        None
    } else if out[i].0 == scope && out[i].1 == path {
        Some(i)
    } else {
        find_write(out, scope, path, i + 1)
    }
}

/// Counts one more write to a layer's file.
pub open spec fn add_write(out: Seq<(ConfigScope, Seq<char>, nat)>, w: (ConfigScope, Seq<char>)) -> Seq<
    (ConfigScope, Seq<char>, nat),
> {
    match find_write(out, w.0, w.1, 0) {
        Some(k) => out.update(k, (out[k].0, out[k].1, out[k].2 + 1)),
        None => out.push((w.0, w.1, 1)),
    }
}

/// The writes to each layer's file, counted, in the order of each file's
/// first write.
pub open spec fn tally_writes(ws: Seq<(ConfigScope, Seq<char>)>) -> Seq<(ConfigScope, Seq<char>, nat)>
    decreases ws.len(),
{
    if ws.len() == 0 {
        Seq::empty()
    } else {
        add_write(tally_writes(ws.drop_last()), ws.last())
    }
}

/// The characters of a list of writes.
pub open spec fn writes_view(ws: Seq<(ConfigScope, String)>) -> Seq<(ConfigScope, Seq<char>)> {
    ws.map_values(|w: (ConfigScope, String)| (w.0, w.1@))
}

/// The characters of a list of counted writes.
pub open spec fn counts_view(cs: Seq<(ConfigScope, String, usize)>) -> Seq<(ConfigScope, Seq<char>, nat)> {
    cs.map_values(|c: (ConfigScope, String, usize)| (c.0, c.1@, c.2 as nat))
}

/// Where the search of `find_write` from `i` ends, given no match before `j`.
proof fn lemma_find_write_from(out: Seq<(ConfigScope, Seq<char>, nat)>, scope: ConfigScope, path: Seq<char>, i: int, j: int)
    requires
        0 <= i <= j <= out.len(),
        forall|k: int| i <= k < j ==> !(out[k].0 == scope && out[k].1 == path),
    ensures
        find_write(out, scope, path, i) == find_write(out, scope, path, j),
    decreases j - i,
{
    if i < j {
        lemma_find_write_from(out, scope, path, i + 1, j);
    }
}

/// The recurrence writes of a run, counted per layer file, in the order of
/// each file's first write.
pub fn summarize_recurrence_writes(writes: Vec<(ConfigScope, String)>) -> (r: Vec<(ConfigScope, String, usize)>)
    ensures
        counts_view(r@) == tally_writes(writes_view(writes@)),
{
    let mut out: Vec<(ConfigScope, String, usize)> = Vec::new();
    let mut i: usize = 0;
    while i < writes.len()
        invariant
            i <= writes@.len(),
            counts_view(out@) == tally_writes(writes_view(writes@.take(i as int))),
            forall|k: int| 0 <= k < out@.len() ==> #[trigger] out@[k].2 <= i,
        decreases writes@.len() - i,
    {
        let ghost before = counts_view(out@);
        assert(writes_view(writes@.take(i as int + 1)).drop_last() =~= writes_view(
            writes@.take(i as int),
        ));
        let scope = writes[i].0;
        let path = &writes[i].1;
        let mut j: usize = 0;
        let mut found = false;
        while !found && j < out.len()
            invariant
                j <= out@.len(),
                before == counts_view(out@),
                forall|k: int| 0 <= k < j ==> !(before[k].0 == scope && before[k].1 == path@),
                found ==> j < out@.len() && before[j as int].0 == scope && before[j as int].1
                    == path@,
            decreases out@.len() - j + (if found { 0int } else { 1int }),
        {
            if out[j].0 == scope && str_eq(out[j].1.as_str(), path.as_str()) {
                found = true;
            } else {
                j += 1;
            }
        }
        let ghost w = (scope, path@);
        assert(writes_view(writes@.take(i as int + 1)).last() == w);
        proof {
            lemma_find_write_from(before, scope, path@, 0, j as int);
        }
        if found {
            assert(find_write(before, scope, path@, j as int) == Some(j as int));
            let count = out[j].2;
            let entry_path = out[j].1.clone();
            out.set(j, (scope, entry_path, count + 1));
            assert(counts_view(out@) =~= before.update(
                j as int,
                (before[j as int].0, before[j as int].1, before[j as int].2 + 1),
            ));
        } else {
            assert(find_write(before, scope, path@, j as int) is None);
            out.push((scope, path.clone(), 1));
            assert(counts_view(out@) =~= before.push((scope, path@, 1)));
        }
        i += 1;
    }
    assert(writes@.take(writes@.len() as int) =~= writes@);
    out
}

/// The commit message of a `recur run` that created issues, naming the last
/// one created.
pub fn recur_run_commit_message(id: &str, title: &str) -> (r: String)
    ensures
        r@ == "riptask: recur run "@ + id@ + " - "@ + title@,
{
    let mut r = String::from_str("riptask: recur run ");
    r.append(id);
    r.append(" - ");
    r.append(title);
    r
}

/// What a `recur` subcommand needs before it runs.
#[derive(Debug, Clone, Copy, PartialEq, Eq, Structural)]
pub enum RecurRequirement {
    /// An initialized issue store (listing and defining recurrences).
    InitializedStore,
    /// The shared config layer (running and skipping recurrences).
    SharedLayer,
}

/// The `recur` subcommand to run, `list` when none is given, and what it
/// needs.
pub fn run(args: RecurArgs) -> (r: (RecurSubcommand, RecurRequirement))
    ensures
        match args.subcommand {
            Some(s) => r.0 == s,
            None => r.0 is List,
        },
        (r.0 is List || r.0 is New) <==> r.1 == RecurRequirement::InitializedStore,
        (r.0 is Run || r.0 is Skip) <==> r.1 == RecurRequirement::SharedLayer,
{
    let sub = match args.subcommand {
        Some(s) => s,
        None => RecurSubcommand::List,
    };
    let need = match &sub {
        RecurSubcommand::List => RecurRequirement::InitializedStore,
        RecurSubcommand::New(_) => RecurRequirement::InitializedStore,
        RecurSubcommand::Run { .. } => RecurRequirement::SharedLayer,
        RecurSubcommand::Skip { .. } => RecurRequirement::SharedLayer,
    };
    (sub, need)
}

} // verus!
