//! Requests to Jira's REST API v2: the JSON bodies sent when an issue is
//! created, updated, transitioned or assigned (the quoting of string values
//! is `serde_json`'s), and the decisions of the Jira client.

use base64::Engine as _;
use crate::backend::BackendIssueUpsert;
use crate::base64_form::base64_of;
use crate::error::RiptskError;
use crate::jira::{JiraAuth, JiraIssueType, JiraUser, project_key_of};
use crate::json_text::{json_quoted, json_string_text};
use crate::text::{
    after_last_char, clone_opt_string, concat2, contains, decimal, join, join_strings, str_contains,
    str_eq, string_views, trim_end_char, trim_end_matches_char, u64_to_decimal,
};
use vstd::prelude::*;

verus! {

/// A JSON array of strings.
pub open spec fn json_string_list(items: Seq<Seq<char>>) -> Seq<char> {
    "["@ + join(items.map_values(|s: Seq<char>| json_string_text(s)), ","@) + "]"@
}

/// The JSON text of an optional string: `null` when absent.
pub open spec fn json_opt_string(o: Option<Seq<char>>) -> Seq<char> {
    match o {
        Some(s) => json_string_text(s),
        None => "null"@,
    }
}

/// The `fixVersions` array: one version given by its id, or none.
pub open spec fn fix_versions_text(milestone_id: Option<u64>) -> Seq<char> {
    match milestone_id {
        Some(id) => "[{\"id\":\""@ + decimal(id as nat) + "\"}]"@,
        None => "[]"@,
    }
}

/// The request body `{"fields":{...}}` with the given field members (each
/// `"key":value`).
pub open spec fn fields_body(members: Seq<Seq<char>>) -> Seq<char> {
    "{\"fields\":{"@ + join(members, ","@) + "}}"@
}

/// The fields of a create request, in key order: description and labels only
/// when not empty, due date and fix version only when set.
pub open spec fn create_members(
    upsert: BackendIssueUpsert,
    project_key: Seq<char>,
    issue_type: Seq<char>,
) -> Seq<Seq<char>> {
    (if upsert.body@.len() > 0 {
        seq!["\"description\":"@ + json_string_text(upsert.body@)]
    } else {
        Seq::empty()
    }) + (match upsert.due_date {
        Some(d) => seq!["\"duedate\":"@ + json_string_text(d@)],
        None => Seq::empty(),
    }) + (match upsert.milestone_id {
        Some(m) => seq!["\"fixVersions\":"@ + fix_versions_text(Some(m))],
        None => Seq::empty(),
    }) + seq!["\"issuetype\":{\"name\":"@ + json_string_text(issue_type) + "}"@] + (
    if upsert.labels@.len() > 0 {
        seq!["\"labels\":"@ + json_string_list(string_views(upsert.labels@))]
    } else {
        Seq::empty()
    }) + seq![
        "\"project\":{\"key\":"@ + json_string_text(project_key) + "}"@,
        "\"summary\":"@ + json_string_text(upsert.title@),
    ]
}

/// The fields of an update request, in key order: every field is sent, an
/// empty description, a missing due date and a missing fix version as
/// `null`, `null` and `[]`, so that they are cleared.
pub open spec fn update_members(upsert: BackendIssueUpsert) -> Seq<Seq<char>> {
    seq![
        "\"description\":"@ + json_opt_string(
            if upsert.body@.len() > 0 { Some(upsert.body@) } else { None },
        ),
        "\"duedate\":"@ + json_opt_string(
            match upsert.due_date {
                Some(d) => Some(d@),
                None => None,
            },
        ),
        "\"fixVersions\":"@ + fix_versions_text(upsert.milestone_id),
        "\"labels\":"@ + json_string_list(string_views(upsert.labels@)),
        "\"summary\":"@ + json_string_text(upsert.title@),
    ]
}

/// `"key":` followed by `value`.
fn member(key: &str, value: &str) -> (r: String)
    ensures
        r@ == key@ + value@,
{
    let mut r = String::from_str(key);
    r.append(value);
    r
}

/// The JSON array of the quoted strings.
fn string_list(items: &Vec<String>) -> (r: String)
    ensures
        r@ == json_string_list(string_views(items@)),
{
    let mut quoted: Vec<String> = Vec::new();
    let mut i: usize = 0;
    while i < items.len()
        invariant
            i <= items@.len(),
            quoted@.len() == i,
            forall|j: int| 0 <= j < i ==> #[trigger] quoted@[j]@ == json_string_text(items@[j]@),
        decreases items@.len() - i,
    {
        let q = json_quoted(items[i].as_str());
        quoted.push(q);
        i += 1;
    }
    assert(string_views(quoted@) =~= string_views(items@).map_values(
        |s: Seq<char>| json_string_text(s),
    ));
    let inner = join_strings(&quoted, ",");
    let mut r = String::from_str("[");
    r.append(inner.as_str());
    r.append("]");
    r
}

/// The `fixVersions` array for a milestone id.
fn fix_versions(milestone_id: Option<u64>) -> (r: String)
    ensures
        r@ == fix_versions_text(milestone_id),
{
    match milestone_id {
        Some(id) => {
            let mut r = String::from_str("[{\"id\":\"");
            let digits = u64_to_decimal(id);
            r.append(digits.as_str());
            r.append("\"}]");
            r
        },
        None => String::from_str("[]"),
    }
}

/// `{"fields":{...}}` around the members.
fn wrap_fields(members: &Vec<String>) -> (r: String)
    ensures
        r@ == fields_body(string_views(members@)),
{
    let inner = join_strings(members, ",");
    let mut r = String::from_str("{\"fields\":{");
    r.append(inner.as_str());
    r.append("}}");
    r
}

/// The body of `POST /rest/api/2/issue` that creates `upsert` in the
/// project `project_key` with the issue type `issue_type`.
pub fn upsert_to_jira_create(upsert: &BackendIssueUpsert, project_key: &str, issue_type: &str) -> (r:
    String)
    ensures
        r@ == fields_body(create_members(*upsert, project_key@, issue_type@)),
{
    let mut members: Vec<String> = Vec::new();
    let ghost mut expected: Seq<Seq<char>> = Seq::empty();
    if upsert.body.unicode_len() > 0 {
        let q = json_quoted(upsert.body.as_str());
        members.push(member("\"description\":", q.as_str()));
        proof {
            expected = expected.push("\"description\":"@ + json_string_text(upsert.body@));
        }
    }
    match &upsert.due_date {
        Some(d) => {
            let q = json_quoted(d.as_str());
            members.push(member("\"duedate\":", q.as_str()));
            proof {
                expected = expected.push("\"duedate\":"@ + json_string_text(d@));
            }
        },
        None => {},
    }
    match upsert.milestone_id {
        Some(m) => {
            let f = fix_versions(Some(m));
            members.push(member("\"fixVersions\":", f.as_str()));
            proof {
                expected = expected.push("\"fixVersions\":"@ + fix_versions_text(Some(m)));
            }
        },
        None => {},
    }
    let qt = json_quoted(issue_type);
    let mut it = member("\"issuetype\":{\"name\":", qt.as_str());
    it.append("}");
    members.push(it);
    proof {
        expected = expected.push("\"issuetype\":{\"name\":"@ + json_string_text(issue_type@) + "}"@);
    }
    if upsert.labels.len() > 0 {
        let l = string_list(&upsert.labels);
        members.push(member("\"labels\":", l.as_str()));
        proof {
            expected = expected.push(
                "\"labels\":"@ + json_string_list(string_views(upsert.labels@)),
            );
        }
    }
    let qp = json_quoted(project_key);
    let mut p = member("\"project\":{\"key\":", qp.as_str());
    p.append("}");
    members.push(p);
    let qs = json_quoted(upsert.title.as_str());
    members.push(member("\"summary\":", qs.as_str()));
    proof {
        expected = expected.push("\"project\":{\"key\":"@ + json_string_text(project_key@) + "}"@);
        expected = expected.push("\"summary\":"@ + json_string_text(upsert.title@));
        assert(string_views(members@) =~= expected);
        assert(expected =~= create_members(*upsert, project_key@, issue_type@));
    }
    wrap_fields(&members)
}

/// The body of `PUT /rest/api/2/issue/{id}` that writes `upsert` over an
/// existing issue.
pub fn upsert_to_jira_update(upsert: &BackendIssueUpsert) -> (r: String)
    ensures
        r@ == fields_body(update_members(*upsert)),
{
    let mut members: Vec<String> = Vec::new();
    if upsert.body.unicode_len() > 0 {
        let q = json_quoted(upsert.body.as_str());
        members.push(member("\"description\":", q.as_str()));
    } else {
        members.push(member("\"description\":", "null"));
    }
    match &upsert.due_date {
        Some(d) => {
            let q = json_quoted(d.as_str());
            members.push(member("\"duedate\":", q.as_str()));
        },
        None => {
            members.push(member("\"duedate\":", "null"));
        },
    }
    let f = fix_versions(upsert.milestone_id);
    members.push(member("\"fixVersions\":", f.as_str()));
    let l = string_list(&upsert.labels);
    members.push(member("\"labels\":", l.as_str()));
    let qs = json_quoted(upsert.title.as_str());
    members.push(member("\"summary\":", qs.as_str()));
    assert(string_views(members@) =~= update_members(*upsert));
    wrap_fields(&members)
}

/// The standard base64 form of the UTF-8 bytes of `input`.
pub open spec fn base64_standard_encoded(input: Seq<char>) -> Seq<char> {
    base64_of(vstd::utf8::encode_utf8(input))
}

/// `base64::engine::general_purpose::STANDARD.encode` of the bytes of
/// `input`: the standard alphabet with `=` padding, which the contract
/// restates. The crate panics when the encoded length overflows `usize`,
/// which the bound on the input rules out.
#[verifier::external_body]
fn base64_encode(input: &str) -> (r: String)
    requires
        input@.len() <= 0x1000_0000,
    ensures
        r@ == base64_standard_encoded(input@),
{
    base64::engine::general_purpose::STANDARD.encode(input)
}

/// The `Authorization` header for an authentication method.
pub open spec fn auth_header_of(auth: JiraAuth) -> Seq<char> {
    match auth {
        JiraAuth::Basic { email, token } => "Basic "@ + base64_standard_encoded(
            email@ + ":"@ + token@,
        ),
        JiraAuth::Pat(token) => "Bearer "@ + token@,
    }
}

/// Whether the credentials fit the encoder's limits.
pub open spec fn auth_fits(auth: JiraAuth) -> bool {
    match auth {
        JiraAuth::Basic { email, token } => email@.len() + token@.len() < 0x1000_0000,
        JiraAuth::Pat(_) => true,
    }
}

/// A client of one Jira instance: its base URL (without a trailing `/`),
/// the `Authorization` header sent with every request, and the issue type
/// configured for new issues.
#[derive(Debug)]
pub struct JiraProvider {
    host: String,
    auth_header: String,
    configured_issue_type: Option<String>,
}

impl JiraProvider {
    /// The base URL.
    pub closed spec fn spec_host(&self) -> Seq<char> {
        self.host@
    }

    /// The `Authorization` header.
    pub closed spec fn spec_auth_header(&self) -> Seq<char> {
        self.auth_header@
    }

    /// The configured issue type.
    pub closed spec fn spec_configured_issue_type(&self) -> Option<Seq<char>> {
        match self.configured_issue_type {
            Some(t) => Some(t@),
            None => None,
        }
    }

    /// A client of `host` with no configured issue type.
    pub fn new(host: &str, auth: JiraAuth) -> (r: Self)
        requires
            auth_fits(auth),
        ensures
            r.spec_host() == trim_end_char(host@, '/'),
            r.spec_auth_header() == auth_header_of(auth),
            r.spec_configured_issue_type() == None::<Seq<char>>,
    {
        Self::with_issue_type(host, auth, None)
    }

    /// A client of `host` (trailing slashes removed) that creates issues of
    /// `configured_issue_type` when one is given.
    pub fn with_issue_type(host: &str, auth: JiraAuth, configured_issue_type: Option<String>) -> (r:
        Self)
        requires
            auth_fits(auth),
        ensures
            r.spec_host() == trim_end_char(host@, '/'),
            r.spec_auth_header() == auth_header_of(auth),
            r.spec_configured_issue_type() == match configured_issue_type {
                Some(t) => Some(t@),
                None => None::<Seq<char>>,
            },
    {
        let auth_header = match &auth {
            JiraAuth::Basic { email, token } => {
                let mut credentials = String::from_str(email.as_str());
                credentials.append(":");
                credentials.append(token.as_str());
                proof {
                    reveal_strlit(":");
                }
                let encoded = base64_encode(credentials.as_str());
                concat2("Basic ", encoded.as_str())
            },
            JiraAuth::Pat(token) => concat2("Bearer ", token.as_str()),
        };
        JiraProvider {
            host: trim_end_matches_char(host, '/'),
            auth_header,
            configured_issue_type,
        }
    }

    /// The base URL.
    pub fn host(&self) -> (r: &str)
        ensures
            r@ == self.spec_host(),
    {
        self.host.as_str()
    }

    /// The `Authorization` header.
    pub fn auth_header(&self) -> (r: &str)
        ensures
            r@ == self.spec_auth_header(),
    {
        self.auth_header.as_str()
    }

    /// The configured issue type.
    pub fn configured_issue_type(&self) -> (r: Option<String>)
        ensures
            match r {
                Some(t) => self.spec_configured_issue_type() == Some(t@),
                None => self.spec_configured_issue_type() is None,
            },
    {
        clone_opt_string(&self.configured_issue_type)
    }

    /// The URL of the API resource `path` (which starts with `/`).
    pub fn api_url(&self, path: &str) -> (r: String)
        ensures
            r@ == self.spec_host() + "/rest/api/2"@ + path@,
    {
        let mut r = String::from_str(self.host.as_str());
        r.append("/rest/api/2");
        r.append(path);
        r
    }

    /// The project key in a repo reference `org/PROJECT_KEY`: the part after
    /// the last `/`, or all of it.
    pub fn project_key(repo: &str) -> (r: String)
        ensures
            r@ == project_key_of(repo@),
    {
        after_last_char(repo, '/')
    }
}

/// The JQL query that lists a project's issues, most recently updated first.
pub fn list_issues_jql(project_key: &str) -> (r: String)
    ensures
        r@ == "project = "@ + project_key@ + " ORDER BY updated DESC"@,
{
    let mut r = String::from_str("project = ");
    r.append(project_key);
    r.append(" ORDER BY updated DESC");
    r
}

/// Whether a failed search on the `/search/jql` endpoint (Jira Cloud) is
/// retried on the legacy `/search` endpoint (Jira Server/DC): when the error
/// says 404.
pub fn falls_back_to_legacy_search(error_text: &str) -> (r: bool)
    ensures
        r == contains(error_text@, "404"@),
{
    str_contains(error_text, "404")
}

/// Where the next page of a legacy search starts, after a page of `count`
/// issues that started at `start_at`, out of `total`; `None` when that page
/// was the last.
pub fn legacy_next_start(start_at: u64, count: u64, total: u64) -> (r: Option<u64>)
    ensures
        start_at + count >= total ==> r is None,
        start_at + count < total ==> r == Some((start_at + count) as u64),
{
    match start_at.checked_add(count) {
        Some(next) => {
            if next >= total {
                None
            } else {
                Some(next)
            }
        },
        None => None,
    }
}

/// The names of the issue types that are not sub-tasks, in order.
pub open spec fn creatable_names(ts: Seq<JiraIssueType>) -> Seq<Seq<char>>
    decreases ts.len(),
{
    if ts.len() == 0 {
        Seq::empty()
    } else if ts.last().subtask {
        creatable_names(ts.drop_last())
    } else {
        creatable_names(ts.drop_last()).push(ts.last().name@)
    }
}

/// The issue types of a project's create metadata that an issue can be
/// created with: those that are not sub-tasks.
pub fn creatable_issue_types(issue_types: &Vec<JiraIssueType>) -> (r: Vec<String>)
    ensures
        string_views(r@) == creatable_names(issue_types@),
{
    let mut r: Vec<String> = Vec::new();
    let mut i: usize = 0;
    while i < issue_types.len()
        invariant
            i <= issue_types@.len(),
            string_views(r@) == creatable_names(issue_types@.take(i as int)),
        decreases issue_types@.len() - i,
    {
        assert(issue_types@.take(i as int + 1).drop_last() =~= issue_types@.take(i as int));
        if !issue_types[i].subtask {
            let name = issue_types[i].name.clone();
            assert(name@ == issue_types@[i as int].name@);
            r.push(name);
            assert(string_views(r@) =~= creatable_names(issue_types@.take(i as int)).push(name@));
        }
        i += 1;
    }
    assert(issue_types@.take(issue_types@.len() as int) =~= issue_types@);
    r
}

/// The issue type an issue is created with, by priority: the configured
/// one; else, among the types the project's metadata offers, `Task` when it
/// is offered, else the first one offered; else the `Task` fallback.
pub open spec fn issue_type_choice(configured: Option<Seq<char>>, available: Seq<Seq<char>>) -> Seq<
    char,
> {
    match configured {
        Some(t) => t,
        None => if available.len() == 0 || available.contains("Task"@) {
            "Task"@
        } else {
            available[0]
        },
    }
}

/// The issue type to create issues of in the project `project_key`: the
/// configured one when there is one, else chosen among `available_types`,
/// the project's creatable types (only looked at when nothing is
/// configured), with `Task` as the fallback. It never fails; failing to read
/// the metadata is the caller's error.
pub fn resolve_issue_type(
    project_key: &str,
    configured_type: Option<&str>,
    available_types: &Vec<String>,
) -> (r: Result<String, RiptskError>)
    ensures
        r matches Ok(x) && x@ == issue_type_choice(
            match configured_type {
                Some(t) => Some(t@),
                None => None,
            },
            string_views(available_types@),
        ),
{
    if let Some(t) = configured_type {
        return Ok(String::from_str(t));
    }
    if available_types.len() == 0 {
        return Ok(String::from_str("Task"));
    }
    let ghost names = string_views(available_types@);
    let mut i: usize = 0;
    while i < available_types.len()
        invariant
            i <= available_types@.len(),
            names == string_views(available_types@),
            configured_type is None,
            available_types@.len() > 0,
            forall|j: int| 0 <= j < i ==> names[j] != "Task"@,
        decreases available_types@.len() - i,
    {
        if str_eq(available_types[i].as_str(), "Task") {
            assert(names[i as int] == "Task"@);
            assert(names.contains("Task"@));
            return Ok(String::from_str("Task"));
        }
        i += 1;
    }
    assert(!names.contains("Task"@));
    Ok(available_types[0].clone())
}

/// Who an issue is assigned to, as the assignee endpoint takes it.
#[derive(Debug, Clone, PartialEq, Eq)]
pub enum AssigneeTarget {
    /// Nobody: the assignee is cleared.
    Clear,
    /// A Jira Cloud account id.
    AccountId(String),
    /// A Jira Server/DC user name.
    Name(String),
}

/// How an issue's assignee is set.
#[derive(Debug, Clone, PartialEq, Eq)]
pub enum AssigneePlan {
    /// Send this target.
    Send(AssigneeTarget),
    /// Look the display name up among the project's assignable users first.
    Search(String),
}

/// How the assignee of `upsert` is set: cleared when it has no assignee;
/// else by the account id, then the user name, kept from an earlier pull;
/// else by searching for the first assignee's display name.
pub fn assignee_plan(upsert: &BackendIssueUpsert) -> (r: AssigneePlan)
    ensures
        upsert.assignees@.len() == 0 ==> r == AssigneePlan::Send(AssigneeTarget::Clear),
        upsert.assignees@.len() > 0 ==> match upsert.assignee_account_id {
            Some(a) => r matches AssigneePlan::Send(AssigneeTarget::AccountId(x)) && x@ == a@,
            None => match upsert.assignee_name {
                Some(n) => r matches AssigneePlan::Send(AssigneeTarget::Name(x)) && x@ == n@,
                None => r matches AssigneePlan::Search(x) && x@ == upsert.assignees@[0]@,
            },
        },
{
    if upsert.assignees.len() == 0 {
        return AssigneePlan::Send(AssigneeTarget::Clear);
    }
    match &upsert.assignee_account_id {
        Some(a) => AssigneePlan::Send(AssigneeTarget::AccountId(a.clone())),
        None => match &upsert.assignee_name {
            Some(n) => AssigneePlan::Send(AssigneeTarget::Name(n.clone())),
            None => AssigneePlan::Search(upsert.assignees[0].clone()),
        },
    }
}

/// The error for an assignable user with neither an account id nor a name.
pub open spec fn unusable_user_message(display_name: Seq<char>) -> Seq<char> {
    "assignable user '"@ + display_name + "' has no accountId or name"@
}

/// The target found by a search for assignable users: the first user, by
/// account id or else by name; nothing when the search found nobody.
pub fn assignee_from_users(users: &Vec<JiraUser>) -> (r: Result<Option<AssigneeTarget>, RiptskError>)
    ensures
        users@.len() == 0 ==> r == Ok::<Option<AssigneeTarget>, RiptskError>(None),
        users@.len() > 0 ==> match users@[0].account_id {
            Some(a) => r matches Ok(Some(AssigneeTarget::AccountId(x))) && x@ == a@,
            None => match users@[0].name {
                Some(n) => r matches Ok(Some(AssigneeTarget::Name(x))) && x@ == n@,
                None => r matches Err(RiptskError::General(m)) && m@ == unusable_user_message(
                    users@[0].display_name@,
                ),
            },
        },
{
    if users.len() == 0 {
        return Ok(None);
    }
    let user = &users[0];
    match &user.account_id {
        Some(a) => Ok(Some(AssigneeTarget::AccountId(a.clone()))),
        None => match &user.name {
            Some(n) => Ok(Some(AssigneeTarget::Name(n.clone()))),
            None => {
                let mut m = String::from_str("assignable user '");
                m.append(user.display_name.as_str());
                m.append("' has no accountId or name");
                Err(RiptskError::General(m))
            },
        },
    }
}

/// The body sent to the assignee endpoint for a target.
pub open spec fn assignee_body(target: AssigneeTarget) -> Seq<char> {
    match target {
        AssigneeTarget::Clear => "{\"accountId\":null}"@,
        AssigneeTarget::AccountId(a) => "{\"accountId\":"@ + json_string_text(a@) + "}"@,
        AssigneeTarget::Name(n) => "{\"name\":"@ + json_string_text(n@) + "}"@,
    }
}

/// The body of `PUT /rest/api/2/issue/{key}/assignee`.
pub fn assignee_payload(target: &AssigneeTarget) -> (r: String)
    ensures
        r@ == assignee_body(*target),
{
    match target {
        AssigneeTarget::Clear => String::from_str("{\"accountId\":null}"),
        AssigneeTarget::AccountId(a) => {
            let mut r = String::from_str("{\"accountId\":");
            let q = json_quoted(a.as_str());
            r.append(q.as_str());
            r.append("}");
            r
        },
        AssigneeTarget::Name(n) => {
            let mut r = String::from_str("{\"name\":");
            let q = json_quoted(n.as_str());
            r.append(q.as_str());
            r.append("}");
            r
        },
    }
}

/// The body of a workflow transition: the transition's id, and the
/// resolution to set when one is given.
pub open spec fn transition_body(transition_id: Seq<char>, resolution: Option<Seq<char>>) -> Seq<
    char,
> {
    match resolution {
        Some(res) => "{\"fields\":{\"resolution\":{\"name\":"@ + json_string_text(res)
            + "}},\"transition\":{\"id\":"@ + json_string_text(transition_id) + "}}"@,
        None => "{\"transition\":{\"id\":"@ + json_string_text(transition_id) + "}}"@,
    }
}

/// The body of `POST /rest/api/2/issue/{key}/transitions`.
pub fn transition_payload(transition_id: &str, resolution: Option<&str>) -> (r: String)
    ensures
        r@ == transition_body(
            transition_id@,
            match resolution {
                Some(res) => Some(res@),
                None => None,
            },
        ),
{
    let qid = json_quoted(transition_id);
    match resolution {
        Some(res) => {
            let mut r = String::from_str("{\"fields\":{\"resolution\":{\"name\":");
            let q = json_quoted(res);
            r.append(q.as_str());
            r.append("}},\"transition\":{\"id\":");
            r.append(qid.as_str());
            r.append("}}");
            r
        },
        None => {
            let mut r = String::from_str("{\"transition\":{\"id\":");
            r.append(qid.as_str());
            r.append("}}");
            r
        },
    }
}

/// What follows the answer to a delete request.
#[derive(Debug, Clone, Copy, PartialEq, Eq, Structural)]
pub enum DeleteStep {
    /// The issue was deleted.
    Deleted,
    /// Deleting is not permitted (403): the issue is closed instead.
    CloseInstead,
    /// The request failed.
    Failed,
}

/// What follows a delete request answered with HTTP `status`.
pub fn delete_step(status: u16) -> (r: DeleteStep)
    ensures
        200 <= status < 300 ==> r == DeleteStep::Deleted,
        status == 403 ==> r == DeleteStep::CloseInstead,
        !(200 <= status < 300) && status != 403 ==> r == DeleteStep::Failed,
{
    if 200 <= status && status < 300 {
        DeleteStep::Deleted
    } else if status == 403 {
        DeleteStep::CloseInstead
    } else {
        DeleteStep::Failed
    }
}

} // verus!
