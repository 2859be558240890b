//! GitHub Actions workflow analysis over a YAML document model.
use vstd::prelude::*;
use crate::support::github::Fetch;
use serde_yaml::Value as Yaml;
use crate::text::{matches_at, chars_of, contains, dec, ends_with, ends_with_exec, find, find_from_exec, is_hex, is_hex_exec, lemma_find_from, lower, lower_exec, push_all, push_dec, push_range, starts_with, str_contains, str_eq, str_starts_with, string_of, string_views, strings_of, views, words, words_exec};

verus! {

/// A YAML document, as the workflow checks read it.
pub enum YamlValue {
    Null,
    Bool(bool),
    /// A number, kept in its textual form.
    Number(String),
    Str(String),
    Sequence(Vec<YamlValue>),
    /// Key/value pairs in document order.
    Mapping(Vec<(YamlValue, YamlValue)>),
    /// A value carrying an explicit `!tag`.
    Tagged(String, Box<YamlValue>),
}

/// One workflow file: its repository path and its parsed document.
pub struct Workflow {
    pub path: String,
    pub doc: YamlValue,
}

/// The workflows of one branch, or the fact that they could not be read.
pub enum WorkflowsState {
    Loaded(Vec<Workflow>),
    NoPermission,
}

/// `v` is the string `s`.
pub open spec fn is_str(v: YamlValue, s: Seq<char>) -> bool {
    v matches YamlValue::Str(t) && t@ == s
}

/// The value of the first entry of `m[i..]` whose key is the string `key`.
pub open spec fn get_from(m: Seq<(YamlValue, YamlValue)>, key: Seq<char>, i: int) -> Option<YamlValue>
    decreases m.len() - i,
{
    if i < 0 || i >= m.len() {
        None
    } else if is_str(m[i].0, key) {
        Some(m[i].1)
    } else {
        get_from(m, key, i + 1)
    }
}

/// The value stored under the string key `key` in the mapping `m`.
pub open spec fn get(m: Seq<(YamlValue, YamlValue)>, key: Seq<char>) -> Option<YamlValue> {
    get_from(m, key, 0)
}

fn is_str_exec(v: &YamlValue, s: &str) -> (b: bool)
    ensures
        b == is_str(*v, s@),
{
    match v {
        YamlValue::Str(t) => str_eq(t.as_str(), s),
        _ => false,
    }
}

/// The value stored under the string key `key` in the mapping `m`.
pub fn get_exec<'a>(m: &'a Vec<(YamlValue, YamlValue)>, key: &str) -> (r: Option<&'a YamlValue>)
    ensures
        match r {
            Some(v) => get(m@, key@) == Some(*v),
            None => get(m@, key@) is None,
        },
{
    let mut i: usize = 0;
    while i < m.len()
        invariant
            i <= m@.len(),
            get_from(m@, key@, i as int) == get(m@, key@),
        decreases m@.len() - i,
    {
        if is_str_exec(&m[i].0, key) {
            return Some(&m[i].1);
        }
        i = i + 1;
    }
    None
}

/// Every `uses:` string found anywhere in `v`, in document order.
pub open spec fn uses_of(v: YamlValue) -> Seq<Seq<char>>
    decreases v,
{
    match v {
        YamlValue::Mapping(m) => uses_of_entries(m@, 0),
        YamlValue::Sequence(s) => uses_of_items(s@, 0),
        _ => Seq::empty(),
    }
}

/// The `uses:` strings of the entries `m[i..]` of a mapping.
pub open spec fn uses_of_entries(m: Seq<(YamlValue, YamlValue)>, i: int) -> Seq<Seq<char>>
    decreases m, m.len() - i,
{
    if i < 0 || i >= m.len() {
        Seq::empty()
    } else {
        let here: Seq<Seq<char>> = match (m[i].0, m[i].1) {
            (YamlValue::Str(k), YamlValue::Str(val)) => if k@ == "uses"@ { seq![val@] } else { Seq::empty() },
            _ => Seq::empty(),
        };
        here + uses_of(m[i].1) + uses_of_entries(m, i + 1)
    }
}

/// The `uses:` strings of the items `s[i..]` of a sequence.
pub open spec fn uses_of_items(s: Seq<YamlValue>, i: int) -> Seq<Seq<char>>
    decreases s, s.len() - i,
{
    if i < 0 || i >= s.len() {
        Seq::empty()
    } else {
        uses_of(s[i]) + uses_of_items(s, i + 1)
    }
}

fn walk_uses(v: &YamlValue, out: &mut Vec<String>)
    ensures
        string_views(final(out)@) == string_views(old(out)@) + uses_of(*v),
    decreases v,
{
    match v {
        YamlValue::Mapping(m) => {
            let mut i: usize = 0;
            while i < m.len()
                invariant
                    i <= m@.len(),
                    string_views(out@) + uses_of_entries(m@, i as int) == string_views(old(out)@) + uses_of(*v),
                    *v == YamlValue::Mapping(*m),
                decreases m@.len() - i,
            {
                let ghost before = string_views(out@);
                if let (YamlValue::Str(k), YamlValue::Str(val)) = (&m[i].0, &m[i].1) {
                    if str_eq(k.as_str(), "uses") {
                        out.push(val.clone());
                        assert(string_views(out@) =~= before.push(val@));
                    }
                }
                let ghost mid = string_views(out@);
                walk_uses(&m[i].1, out);
                assert(mid + uses_of(m@[i as int].1) == string_views(out@));
                i = i + 1;
                assert(before + uses_of_entries(m@, i - 1 as int) =~= string_views(out@) + uses_of_entries(m@, i as int));
            }
        },
        YamlValue::Sequence(items) => {
            let mut i: usize = 0;
            while i < items.len()
                invariant
                    i <= items@.len(),
                    string_views(out@) + uses_of_items(items@, i as int) == string_views(old(out)@) + uses_of(*v),
                    *v == YamlValue::Sequence(*items),
                decreases items@.len() - i,
            {
                let ghost before = string_views(out@);
                walk_uses(&items[i], out);
                i = i + 1;
                assert(before + uses_of_items(items@, i - 1 as int) =~= string_views(out@) + uses_of_items(items@, i as int));
            }
        },
        _ => {
            assert(string_views(out@) =~= string_views(out@) + uses_of(*v));
        },
    }
}

/// Every `uses:` string value found anywhere in the workflow document.
pub fn collect_uses(doc: &YamlValue) -> (r: Vec<String>)
    ensures
        string_views(r@) == uses_of(*doc),
{
    let mut out: Vec<String> = Vec::new();
    walk_uses(doc, &mut out);
    assert(string_views(out@) =~= Seq::<Seq<char>>::empty() + uses_of(*doc));
    out
}

/// The top-level `on:` value of the document names `pull_request_target`
/// (as a string, in a list, or as a key).
pub open spec fn pull_request_target_spec(doc: YamlValue) -> bool {
    match doc {
        YamlValue::Mapping(top) => match get(top@, "on"@) {
            Some(YamlValue::Str(s)) => s@ == "pull_request_target"@,
            Some(YamlValue::Sequence(items)) => exists|i: int| 0 <= i < items@.len() && is_str(#[trigger] items@[i], "pull_request_target"@),
            Some(YamlValue::Mapping(m)) => get(m@, "pull_request_target"@) is Some,
            _ => false,
        },
        _ => false,
    }
}

/// True if the value at top level mentions `pull_request_target` as an `on:` trigger.
#[verifier::loop_isolation(false)]
pub fn has_pull_request_target(doc: &YamlValue) -> (b: bool)
    ensures
        b == pull_request_target_spec(*doc),
{
    match doc {
        YamlValue::Mapping(top) => match get_exec(top, "on") {
            Some(YamlValue::Str(s)) => str_eq(s.as_str(), "pull_request_target"),
            Some(YamlValue::Sequence(items)) => {
                let mut i: usize = 0;
                while i < items.len()
                    invariant
                        i <= items@.len(),
                        forall|j: int| 0 <= j < i ==> !is_str(#[trigger] items@[j], "pull_request_target"@),
                    decreases items@.len() - i,
                {
                    if is_str_exec(&items[i], "pull_request_target") {
                        assert(is_str(items@[i as int], "pull_request_target"@));
                        return true;
                    }
                    i = i + 1;
                }
                false
            },
            Some(YamlValue::Mapping(m)) => get_exec(m, "pull_request_target").is_some(),
            _ => false,
        },
        _ => false,
    }
}

/// The mapping `m` is a step that uses `actions/checkout@…` with a `ref`
/// taken from the pull request's head.
pub open spec fn untrusted_step(m: Seq<(YamlValue, YamlValue)>) -> bool {
    &&& get(m, "uses"@) matches Some(YamlValue::Str(u)) && starts_with(u@, "actions/checkout@"@)
    &&& get(m, "with"@) matches Some(YamlValue::Mapping(w))
    &&& get(w@, "ref"@) matches Some(YamlValue::Str(r)) && contains(r@, "pull_request.head"@)
}

/// Some mapping anywhere in `v` is an untrusted checkout step.
pub open spec fn untrusted_spec(v: YamlValue) -> bool
    decreases v,
{
    match v {
        YamlValue::Mapping(m) => untrusted_step(m@) || untrusted_entries(m@, 0),
        YamlValue::Sequence(s) => untrusted_items(s@, 0),
        _ => false,
    }
}

/// Some value among the entries `m[i..]` holds an untrusted checkout step.
pub open spec fn untrusted_entries(m: Seq<(YamlValue, YamlValue)>, i: int) -> bool
    decreases m, m.len() - i,
{
    if i < 0 || i >= m.len() {
        false
    } else {
        untrusted_spec(m[i].1) || untrusted_entries(m, i + 1)
    }
}

/// Some item among `s[i..]` holds an untrusted checkout step.
pub open spec fn untrusted_items(s: Seq<YamlValue>, i: int) -> bool
    decreases s, s.len() - i,
{
    if i < 0 || i >= s.len() {
        false
    } else {
        untrusted_spec(s[i]) || untrusted_items(s, i + 1)
    }
}

fn is_untrusted_step(m: &Vec<(YamlValue, YamlValue)>) -> (b: bool)
    ensures
        b == untrusted_step(m@),
{
    let uses_ok = match get_exec(m, "uses") {
        Some(YamlValue::Str(u)) => str_starts_with(u.as_str(), "actions/checkout@"),
        _ => false,
    };
    if !uses_ok {
        return false;
    }
    match get_exec(m, "with") {
        Some(YamlValue::Mapping(w)) => match get_exec(w, "ref") {
            Some(YamlValue::Str(r)) => str_contains(r.as_str(), "pull_request.head"),
            _ => false,
        },
        _ => false,
    }
}

#[verifier::loop_isolation(false)]
fn walk_checkout(v: &YamlValue) -> (b: bool)
    ensures
        b == untrusted_spec(*v),
    decreases v,
{
    match v {
        YamlValue::Mapping(m) => {
            if is_untrusted_step(m) {
                return true;
            }
            let mut i: usize = 0;
            while i < m.len()
                invariant
                    i <= m@.len(),
                    untrusted_entries(m@, 0) == untrusted_entries(m@, i as int),
                    *v == YamlValue::Mapping(*m),
                decreases m@.len() - i,
            {
                let found = walk_checkout(&m[i].1);
                if found {
                    return true;
                }
                i = i + 1;
            }
            false
        },
        YamlValue::Sequence(items) => {
            let mut i: usize = 0;
            while i < items.len()
                invariant
                    i <= items@.len(),
                    untrusted_items(items@, 0) == untrusted_items(items@, i as int),
                    *v == YamlValue::Sequence(*items),
                decreases items@.len() - i,
            {
                let found = walk_checkout(&items[i]);
                if found {
                    return true;
                }
                i = i + 1;
            }
            false
        },
        _ => false,
    }
}

/// Returns true if any step in the workflow uses `actions/checkout` with a
/// `ref` derived from the untrusted pull-request head.
pub fn has_untrusted_checkout(doc: &YamlValue) -> (b: bool)
    ensures
        b == untrusted_spec(*doc),
{
    walk_checkout(doc)
}

/// How a `permissions:` block grants access.
pub enum PermissionsBlock {
    /// No `permissions:` block at all.
    Missing,
    /// `permissions: write-all`.
    WriteAll,
    /// A mapping of scopes; the scopes granted `write`, in order.
    Scoped(Vec<String>),
    /// `permissions: read-all`.
    ReadAll,
    /// Any other value.
    Empty,
}

/// The abstract value of a `PermissionsBlock`.
pub enum PermissionsView {
    Missing,
    WriteAll,
    Scoped(Seq<Seq<char>>),
    ReadAll,
    Empty,
}

impl View for PermissionsBlock {
    type V = PermissionsView;

    open spec fn view(&self) -> PermissionsView {
        match self {
            PermissionsBlock::Missing => PermissionsView::Missing,
            PermissionsBlock::WriteAll => PermissionsView::WriteAll,
            PermissionsBlock::Scoped(w) => PermissionsView::Scoped(string_views(w@)),
            PermissionsBlock::ReadAll => PermissionsView::ReadAll,
            PermissionsBlock::Empty => PermissionsView::Empty,
        }
    }
}

/// The keys of `m[i..]` whose value is the string `write`.
pub open spec fn write_scopes(m: Seq<(YamlValue, YamlValue)>, i: int) -> Seq<Seq<char>>
    decreases m.len() - i,
{
    if i < 0 || i >= m.len() {
        Seq::empty()
    } else {
        let here: Seq<Seq<char>> = match (m[i].0, m[i].1) {
            (YamlValue::Str(k), YamlValue::Str(val)) => if val@ == "write"@ { seq![k@] } else { Seq::empty() },
            _ => Seq::empty(),
        };
        here + write_scopes(m, i + 1)
    }
}

/// How the `permissions:` value `p` is classified.
pub open spec fn permissions_spec(p: YamlValue) -> PermissionsView {
    match p {
        YamlValue::Str(s) => if s@ == "write-all"@ {
            PermissionsView::WriteAll
        } else if s@ == "read-all"@ {
            PermissionsView::ReadAll
        } else {
            PermissionsView::Empty
        },
        YamlValue::Mapping(m) => PermissionsView::Scoped(write_scopes(m@, 0)),
        _ => PermissionsView::Empty,
    }
}

fn parse_permissions(p: &YamlValue) -> (r: PermissionsBlock)
    ensures
        r@ == permissions_spec(*p),
{
    match p {
        YamlValue::Str(s) => {
            if str_eq(s.as_str(), "write-all") {
                PermissionsBlock::WriteAll
            } else if str_eq(s.as_str(), "read-all") {
                PermissionsBlock::ReadAll
            } else {
                PermissionsBlock::Empty
            }
        },
        YamlValue::Mapping(m) => {
            let mut writes: Vec<String> = Vec::new();
            let mut i: usize = 0;
            while i < m.len()
                invariant
                    i <= m@.len(),
                    string_views(writes@) + write_scopes(m@, i as int) == write_scopes(m@, 0),
                decreases m@.len() - i,
            {
                let ghost before = string_views(writes@);
                if let (YamlValue::Str(k), YamlValue::Str(val)) = (&m[i].0, &m[i].1) {
                    if str_eq(val.as_str(), "write") {
                        writes.push(k.clone());
                        assert(string_views(writes@) =~= before.push(k@));
                    }
                }
                i = i + 1;
                assert(before + write_scopes(m@, i - 1 as int) =~= string_views(writes@) + write_scopes(m@, i as int));
            }
            assert(string_views(writes@) =~= string_views(writes@) + write_scopes(m@, m@.len() as int));
            PermissionsBlock::Scoped(writes)
        },
        _ => PermissionsBlock::Empty,
    }
}

/// The top-level permissions of the document.
pub open spec fn top_permissions_spec(doc: YamlValue) -> PermissionsView {
    match doc {
        YamlValue::Mapping(top) => match get(top@, "permissions"@) {
            Some(p) => permissions_spec(p),
            None => PermissionsView::Missing,
        },
        _ => PermissionsView::Missing,
    }
}

/// The top-level `permissions:` block of the workflow, classified.
pub fn top_level_permissions(doc: &YamlValue) -> (r: PermissionsBlock)
    ensures
        r@ == top_permissions_spec(*doc),
{
    match doc {
        YamlValue::Mapping(top) => match get_exec(top, "permissions") {
            Some(p) => parse_permissions(p),
            None => PermissionsBlock::Missing,
        },
        _ => PermissionsBlock::Missing,
    }
}

/// The jobs among `jobs[i..]` that declare their own `permissions:` block,
/// with that block classified.
pub open spec fn job_permissions_from(jobs: Seq<(YamlValue, YamlValue)>, i: int) -> Seq<(Seq<char>, PermissionsView)>
    decreases jobs.len() - i,
{
    if i < 0 || i >= jobs.len() {
        Seq::empty()
    } else {
        let here: Seq<(Seq<char>, PermissionsView)> = match (jobs[i].0, jobs[i].1) {
            (YamlValue::Str(name), YamlValue::Mapping(jm)) => match get(jm@, "permissions"@) {
                Some(p) => seq![(name@, permissions_spec(p))],
                None => Seq::empty(),
            },
            _ => Seq::empty(),
        };
        here + job_permissions_from(jobs, i + 1)
    }
}

/// Every job that declares its own permissions, with its block classified.
pub open spec fn job_permissions_spec(doc: YamlValue) -> Seq<(Seq<char>, PermissionsView)> {
    match doc {
        YamlValue::Mapping(top) => match get(top@, "jobs"@) {
            Some(YamlValue::Mapping(jobs)) => job_permissions_from(jobs@, 0),
            _ => Seq::empty(),
        },
        _ => Seq::empty(),
    }
}

/// The abstract values of job/permission pairs.
pub open spec fn job_views(v: Seq<(String, PermissionsBlock)>) -> Seq<(Seq<char>, PermissionsView)> {
    v.map_values(|p: (String, PermissionsBlock)| (p.0@, p.1@))
}

/// Returns each job that declares its own `permissions:` block, paired with
/// that block's classification.
pub fn job_level_permissions(doc: &YamlValue) -> (r: Vec<(String, PermissionsBlock)>)
    ensures
        job_views(r@) == job_permissions_spec(*doc),
{
    let mut out: Vec<(String, PermissionsBlock)> = Vec::new();
    let top = match doc {
        YamlValue::Mapping(top) => top,
        _ => {
            assert(job_views(out@) =~= Seq::empty());
            return out;
        },
    };
    let jobs = match get_exec(top, "jobs") {
        Some(YamlValue::Mapping(jobs)) => jobs,
        _ => {
            assert(job_views(out@) =~= Seq::empty());
            return out;
        },
    };
    let mut i: usize = 0;
    while i < jobs.len()
        invariant
            i <= jobs@.len(),
            job_views(out@) + job_permissions_from(jobs@, i as int) == job_permissions_from(jobs@, 0),
        decreases jobs@.len() - i,
    {
        let ghost before = job_views(out@);
        if let (YamlValue::Str(name), YamlValue::Mapping(jm)) = (&jobs[i].0, &jobs[i].1) {
            if let Some(p) = get_exec(jm, "permissions") {
                let block = parse_permissions(p);
                out.push((name.clone(), block));
                assert(job_views(out@) =~= before.push((name@, permissions_spec(*p))));
            }
        }
        i = i + 1;
        assert(before + job_permissions_from(jobs@, i - 1 as int) =~= job_views(out@) + job_permissions_from(jobs@, i as int));
    }
    assert(job_views(out@) =~= job_views(out@) + job_permissions_from(jobs@, jobs@.len() as int));
    out
}

/// A `uses:` reference is pinned when it is local (`./…`), a docker image
/// (`docker://…`), or its ref after the first `@` is a 40-character hex SHA.
pub open spec fn pinned_spec(u: Seq<char>) -> bool {
    ||| starts_with(u, "./"@)
    ||| starts_with(u, "docker://"@)
    ||| {
        let at = find(u, "@"@);
        let r = u.subrange(at + 1, u.len() as int);
        at >= 0 && r.len() == 40 && forall|i: int| 0 <= i < r.len() ==> is_hex(#[trigger] r[i])
    }
}

/// A `uses:` value is "pinned" if its ref after `@` is a 40-char hex SHA.
/// Local workflow refs and docker refs are exempt.
#[verifier::loop_isolation(false)]
pub fn is_pinned(uses: &str) -> (b: bool)
    ensures
        b == pinned_spec(uses@),
{
    if str_starts_with(uses, "./") || str_starts_with(uses, "docker://") {
        return true;
    }
    let v = chars_of(uses);
    let at_v = chars_of("@");
    match find_from_exec(&v, &at_v, 0) {
        None => false,
        Some(at) => {
            proof {
                lemma_find_from(v@, at_v@, 0);
                reveal_strlit("@");
            }
            assert(matches_at(v@, at_v@, at as int));
            let ghost r = v@.subrange(at + 1, v@.len() as int);
            if v.len() - (at + 1) != 40 {
                return false;
            }
            let mut i: usize = at + 1;
            while i < v.len()
                invariant
                    at + 1 <= i <= v@.len(),
                    r == v@.subrange(at + 1, v@.len() as int),
                    forall|j: int| 0 <= j < i - (at + 1) ==> is_hex(#[trigger] r[j]),
                decreases v@.len() - i,
            {
                if !is_hex_exec(v[i]) {
                    assert(r[i - (at + 1)] == v@[i as int]);
                    return false;
                }
                i = i + 1;
            }
            true
        },
    }
}

/// A repository content entry names a workflow file: a file whose name ends
/// in `.yml` or `.yaml`, in any letter case.
pub open spec fn workflow_candidate_spec(kind: Seq<char>, name: Seq<char>) -> bool {
    kind == "file"@ && (ends_with(lower(name), ".yml"@) || ends_with(lower(name), ".yaml"@))
}

/// Does this directory entry name a workflow file?
pub fn is_workflow_candidate(kind: &str, name: &str) -> (b: bool)
    ensures
        b == workflow_candidate_spec(kind@, name@),
{
    if !str_eq(kind, "file") {
        return false;
    }
    let lowered = lower_exec(&chars_of(name));
    ends_with_exec(&lowered, &chars_of(".yml")) || ends_with_exec(&lowered, &chars_of(".yaml"))
}


/// An entry of a repository directory listing.
pub struct ContentEntry {
    pub name: String,
    pub path: String,
    /// `file`, `dir`, ...
    pub kind: String,
}

/// The entries of `s` that name workflow files, in order.
pub open spec fn candidates_spec(s: Seq<ContentEntry>) -> Seq<ContentEntry>
    decreases s.len(),
{
    if s.len() == 0 {
        s
    } else if workflow_candidate_spec(s[0].kind@, s[0].name@) {
        seq![s[0]] + candidates_spec(s.drop_first())
    } else {
        candidates_spec(s.drop_first())
    }
}

/// The workflow files of a `.github/workflows` listing, in order.
pub fn workflow_candidates(entries: Vec<ContentEntry>) -> (r: Vec<ContentEntry>)
    ensures
        r@ == candidates_spec(entries@),
{
    let ghost orig = entries@;
    let mut v = entries;
    let mut out: Vec<ContentEntry> = Vec::new();
    while v.len() > 0
        invariant
            v@ == orig.subrange(0, v@.len() as int),
            v@.len() <= orig.len(),
            out@ == candidates_spec(orig.subrange(v@.len() as int, orig.len() as int)),
        decreases v@.len(),
    {
        let ghost n = v@.len();
        let x = v.pop().unwrap();
        let ghost tail = orig.subrange(n as int, orig.len() as int);
        assert(orig.subrange(n - 1, orig.len() as int).drop_first() =~= tail);
        assert(orig.subrange(n - 1, orig.len() as int)[0] == x);
        if is_workflow_candidate(x.kind.as_str(), x.name.as_str()) {
            out.insert(0, x);
            assert(out@ =~= seq![x] + candidates_spec(tail));
        }
        assert(v@ =~= orig.subrange(0, v@.len() as int));
    }
    assert(orig.subrange(0, orig.len() as int) =~= orig);
    out
}

/// Where a repository's workflows are listed.
pub open spec fn workflows_dir_spec(owner: Seq<char>, repo: Seq<char>) -> Seq<char> {
    "/repos/"@ + owner + "/"@ + repo + "/contents/.github/workflows"@
}

/// The path listing the workflows of `owner/repo`.
pub fn workflows_dir(owner: &str, repo: &str) -> (r: String)
    ensures
        r@ == workflows_dir_spec(owner@, repo@),
{
    let mut r = String::from_str("/repos/");
    r.append(owner);
    r.append("/");
    r.append(repo);
    r.append("/contents/.github/workflows");
    r
}

/// The path of the raw contents of the file at `path` in `owner/repo`.
pub fn contents_path(owner: &str, repo: &str, path: &str) -> (r: String)
    ensures
        r@ == "/repos/"@ + owner@ + "/"@ + repo@ + "/contents/"@ + path@,
{
    let mut r = String::from_str("/repos/");
    r.append(owner);
    r.append("/");
    r.append(repo);
    r.append("/contents/");
    r.append(path);
    r
}


// ---------------------------------------------------------------------------
// Reading workflow files
// ---------------------------------------------------------------------------

#[verifier::external_type_specification]
#[verifier::external_body]
pub struct ExYamlDocument(serde_yaml::Value);

/// The document that `serde_yaml` reads from the text `raw`, in the
/// library's model; `None` when the text is not YAML.
pub uninterp spec fn yaml_doc(raw: Seq<char>) -> Option<YamlValue>;

/// Calls `serde_yaml::from_str::<serde_yaml::Value>` and converts the
/// document node for node. Claimed: the result is the document named
/// `yaml_doc(raw)` (serde_yaml's parse depends on the text alone and keeps
/// mappings in document order), and `None` exactly when the parse fails.
#[verifier::external_body]
pub(crate) fn parse_workflow_yaml(raw: &str) -> (r: Option<YamlValue>)
    ensures
        r == yaml_doc(raw@),
{
    match serde_yaml::from_str::<Yaml>(raw) {
        Ok(v) => Some(yaml_value(v)),
        Err(_) => None,
    }
}

/// Converts a `serde_yaml::Value` into the library's model, node for node.
#[verifier::external_body]
fn yaml_value(v: Yaml) -> YamlValue {
    match v {
        Yaml::Null => YamlValue::Null,
        Yaml::Bool(b) => YamlValue::Bool(b),
        Yaml::Number(n) => YamlValue::Number(n.to_string()),
        Yaml::String(s) => YamlValue::Str(s),
        Yaml::Sequence(items) => YamlValue::Sequence(items.into_iter().map(yaml_value).collect()),
        Yaml::Mapping(m) => YamlValue::Mapping(m.into_iter().map(|(k, x)| (yaml_value(k), yaml_value(x))).collect()),
        Yaml::Tagged(t) => YamlValue::Tagged(t.tag.to_string(), Box::new(yaml_value(t.value))),
    }
}

/// The workflow at `path` whose text is `raw`: present exactly when the
/// text is YAML, with the document read from it.
pub fn workflow_from(path: String, raw: &str) -> (w: Option<Workflow>)
    ensures
        match w {
            Some(x) => x.path@ == path@ && yaml_doc(raw@) == Some(x.doc),
            None => yaml_doc(raw@) is None,
        },
{
    match parse_workflow_yaml(raw) {
        Some(doc) => Some(Workflow { path, doc }),
        None => None,
    }
}

/// The path and document of each workflow.
pub open spec fn workflow_views(v: Seq<Workflow>) -> Seq<(Seq<char>, YamlValue)> {
    v.map_values(|w: Workflow| (w.path@, w.doc))
}

/// The workflows among `files` (each a path and what fetching its text
/// gave): those that were fetched and are YAML, in order; the others are
/// left out.
pub open spec fn workflows_spec(files: Seq<(String, Fetch<String>)>) -> Seq<(Seq<char>, YamlValue)>
    decreases files.len(),
{
    if files.len() == 0 {
        Seq::empty()
    } else {
        let prev = workflows_spec(files.drop_last());
        match files.last().1 {
            Fetch::Found(raw) => match yaml_doc(raw@) {
                Some(d) => prev.push((files.last().0@, d)),
                None => prev,
            },
            _ => prev,
        }
    }
}

/// Reads the fetched workflow files of a branch.
pub fn workflows_from_files(files: &Vec<(String, Fetch<String>)>) -> (r: Vec<Workflow>)
    ensures
        workflow_views(r@) == workflows_spec(files@),
{
    let mut out: Vec<Workflow> = Vec::new();
    let mut i: usize = 0;
    while i < files.len()
        invariant
            i <= files@.len(),
            workflow_views(out@) == workflows_spec(files@.subrange(0, i as int)),
        decreases files@.len() - i,
    {
        let ghost before = workflow_views(out@);
        assert(files@.subrange(0, i + 1).drop_last() =~= files@.subrange(0, i as int));
        assert(files@.subrange(0, i + 1).last() == files@[i as int]);
        match &files[i].1 {
            Fetch::Found(raw) => {
                match workflow_from(files[i].0.clone(), raw.as_str()) {
                    Some(w) => {
                        out.push(w);
                        assert(workflow_views(out@) =~= before.push((files@[i as int].0@, out@.last().doc)));
                    },
                    None => {},
                }
            },
            _ => {},
        }
        i = i + 1;
    }
    assert(files@.subrange(0, files@.len() as int) =~= files@);
    out
}


// ---------------------------------------------------------------------------
// Laws
// ---------------------------------------------------------------------------

proof fn lemma_find_after_prefix(a: Seq<char>, rest: Seq<char>)
    requires
        !contains(a, "@"@),
    ensures
        find(a + "@"@ + rest, "@"@) == a.len(),
{
    reveal_strlit("@");
    let u = a + "@"@ + rest;
    crate::text::lemma_find_from(u, "@"@, 0);
    crate::text::lemma_contains_iff(a, "@"@);
    assert(u.subrange(a.len() as int, a.len() as int + 1) =~= "@"@);
    assert(matches_at(u, "@"@, a.len() as int));
    assert forall|j: int| 0 <= j < a.len() implies !matches_at(u, "@"@, j) by {
        if matches_at(u, "@"@, j) {
            assert(a.subrange(j, j + 1) =~= u.subrange(j, j + 1));
            assert(matches_at(a, "@"@, j));
        }
    }
}

/// A `uses:` reference `<action>@<ref>` (the action holding no `@`, and the
/// reference neither local nor a docker image) is pinned exactly when its
/// ref is 40 hexadecimal digits: a shorter or longer ref, even all hex, is
/// never pinned. A reference without any `@` is never pinned.
pub proof fn law_pinned_means_full_sha(action: Seq<char>, r: Seq<char>, bare_ref: Seq<char>)
    requires
        !contains(action, "@"@),
        !starts_with(action + "@"@ + r, "./"@),
        !starts_with(action + "@"@ + r, "docker://"@),
    ensures
        pinned_spec(action + "@"@ + r) <==> (r.len() == 40 && forall|i: int| 0 <= i < r.len() ==> is_hex(#[trigger] r[i])),
        r.len() != 40 ==> !pinned_spec(action + "@"@ + r),
        (!contains(bare_ref, "@"@) && !starts_with(bare_ref, "./"@) && !starts_with(bare_ref, "docker://"@))
            ==> !pinned_spec(bare_ref),
{
    reveal_strlit("@");
    lemma_find_after_prefix(action, r);
    let u = action + "@"@ + r;
    assert(u.subrange(action.len() as int + 1, u.len() as int) =~= r);
    crate::text::lemma_find_from(bare_ref, "@"@, 0);
    crate::text::lemma_contains_iff(bare_ref, "@"@);
}

/// A checkout step (`uses: actions/checkout@…`) whose `with.ref` mentions
/// the pull request's head anywhere in it (such as
/// `${{ github.event.pull_request.head.sha }}`) is an untrusted checkout,
/// and a workflow mapping holding it is flagged.
pub proof fn law_checkout_of_pr_head_is_untrusted(
    m: Seq<(YamlValue, YamlValue)>,
    u: String,
    w: Vec<(YamlValue, YamlValue)>,
    r: String,
    k: int,
    doc: Vec<(YamlValue, YamlValue)>,
)
    requires
        get(m, "uses"@) == Some(YamlValue::Str(u)),
        starts_with(u@, "actions/checkout@"@),
        get(m, "with"@) == Some(YamlValue::Mapping(w)),
        get(w@, "ref"@) == Some(YamlValue::Str(r)),
        matches_at(r@, "pull_request.head"@, k),
    ensures
        untrusted_step(m),
        doc@ == m ==> untrusted_spec(YamlValue::Mapping(doc)),
{
    crate::text::lemma_contains_iff(r@, "pull_request.head"@);
}

proof fn lemma_write_scopes_has(m: Seq<(YamlValue, YamlValue)>, j: int, i: int, k: String, v: String)
    requires
        0 <= j <= i < m.len(),
        m[i] == (YamlValue::Str(k), YamlValue::Str(v)),
        v@ == "write"@,
    ensures
        write_scopes(m, j).contains(k@),
    decreases i - j,
{
    let here: Seq<Seq<char>> = match (m[j].0, m[j].1) {
        (YamlValue::Str(kk), YamlValue::Str(val)) => if val@ == "write"@ { seq![kk@] } else { Seq::empty() },
        _ => Seq::empty(),
    };
    assert(write_scopes(m, j) == here + write_scopes(m, j + 1));
    if j == i {
        assert(here == seq![k@]);
        assert(write_scopes(m, j)[0] == k@);
    } else {
        lemma_write_scopes_has(m, j + 1, i, k, v);
        let t = choose|t: int| 0 <= t < write_scopes(m, j + 1).len() && #[trigger] write_scopes(m, j + 1)[t] == k@;
        assert(write_scopes(m, j)[here.len() + t] == k@);
    }
}

proof fn lemma_write_scopes_from(m: Seq<(YamlValue, YamlValue)>, j: int)
    requires
        0 <= j,
    ensures
        forall|t: int| 0 <= t < write_scopes(m, j).len() ==> exists|i: int|
            j <= i < m.len() && grants_write(#[trigger] m[i]) && scope_name(m[i]) == #[trigger] write_scopes(m, j)[t],
    decreases m.len() - j,
{
    if j < m.len() {
        lemma_write_scopes_from(m, j + 1);
        let here: Seq<Seq<char>> = match (m[j].0, m[j].1) {
            (YamlValue::Str(kk), YamlValue::Str(val)) => if val@ == "write"@ { seq![kk@] } else { Seq::empty() },
            _ => Seq::empty(),
        };
        assert(write_scopes(m, j) == here + write_scopes(m, j + 1));
        assert forall|t: int| 0 <= t < write_scopes(m, j).len() implies exists|i: int|
            j <= i < m.len() && grants_write(#[trigger] m[i]) && scope_name(m[i]) == #[trigger] write_scopes(m, j)[t] by {
            if t < here.len() {
                assert(grants_write(m[j]));
                assert(scope_name(m[j]) == write_scopes(m, j)[t]);
            } else {
                let t2 = t - here.len();
                assert(write_scopes(m, j)[t] == write_scopes(m, j + 1)[t2]);
                let i = choose|i: int| j + 1 <= i < m.len() && grants_write(#[trigger] m[i])
                    && scope_name(m[i]) == #[trigger] write_scopes(m, j + 1)[t2];
                assert(grants_write(m[i]) && scope_name(m[i]) == write_scopes(m, j)[t]);
            }
        }
    } else {
        assert(write_scopes(m, j).len() == 0);
    }
}

/// The entry grants its scope `write`: a string scope whose value is the
/// string `write`.
pub open spec fn grants_write(e: (YamlValue, YamlValue)) -> bool {
    &&& e.0 is Str
    &&& e.1 matches YamlValue::Str(v) && v@ == "write"@
}

/// The scope named by an entry whose key is a string.
pub open spec fn scope_name(e: (YamlValue, YamlValue)) -> Seq<char> {
    match e.0 {
        YamlValue::Str(k) => k@,
        _ => Seq::empty(),
    }
}

/// A `permissions:` mapping lists exactly its write grants, in order of
/// the entries: every scope whose value is `write` is among the scopes
/// reported, and every scope reported is granted `write`. The top-level
/// block of a workflow is read the same way.
pub proof fn law_write_grants_are_reported(block: Vec<(YamlValue, YamlValue)>, doc: Vec<(YamlValue, YamlValue)>)
    ensures
        permissions_spec(YamlValue::Mapping(block)) matches PermissionsView::Scoped(s) && {
            &&& forall|i: int| 0 <= i < block@.len() && grants_write(#[trigger] block@[i]) ==> s.contains(scope_name(block@[i]))
            &&& forall|t: int| 0 <= t < s.len() ==> exists|i: int|
                0 <= i < block@.len() && grants_write(#[trigger] block@[i]) && scope_name(block@[i]) == #[trigger] s[t]
        },
        get(doc@, "permissions"@) == Some(YamlValue::Mapping(block))
            ==> top_permissions_spec(YamlValue::Mapping(doc)) == permissions_spec(YamlValue::Mapping(block)),
{
    let m = block@;
    let s = write_scopes(m, 0);
    assert forall|i: int| 0 <= i < m.len() && grants_write(#[trigger] m[i]) implies s.contains(scope_name(m[i])) by {
        match (m[i].0, m[i].1) {
            (YamlValue::Str(k), YamlValue::Str(v)) => {
                assert(m[i] == (YamlValue::Str(k), YamlValue::Str(v)));
                lemma_write_scopes_has(m, 0, i, k, v);
            },
            _ => {},
        }
    }
    lemma_write_scopes_from(m, 0);
    assert forall|t: int| 0 <= t < s.len() implies exists|i: int|
        0 <= i < m.len() && grants_write(#[trigger] m[i]) && scope_name(m[i]) == #[trigger] s[t] by {
        let i = choose|i: int| 0 <= i < m.len() && grants_write(#[trigger] m[i])
            && scope_name(m[i]) == #[trigger] write_scopes(m, 0)[t];
        assert(grants_write(m[i]) && scope_name(m[i]) == s[t]);
    }
}

} // verus!
