//! The machine-readable report of an audit run: its structure, and its
//! Markdown rendering. (The JSON rendering is produced from the same
//! structure.)
use vstd::prelude::*;
use crate::runner::{nested_views, opt_chars, opt_views, result_views, CheckResult, ResultView};
use crate::support::outcome::Status;
use crate::text::{dec, push_dec, replace, str_replace, string_views};

verus! {

/// The counts of a run.
pub struct Summary {
    pub total: usize,
    pub passed: usize,
    pub failed: usize,
    pub warned: usize,
    pub skipped: usize,
    pub percent_hardened: u32,
}

/// One affected repository of a check.
pub struct AffectedRepo {
    pub repo: String,
    pub branch: Option<String>,
    pub release_branches: Vec<String>,
}

/// One check of the report.
pub struct CheckReport {
    pub id: String,
    pub label: String,
    pub status: Status,
    pub summary: String,
    pub description: Option<String>,
    pub how_to_fix: String,
    pub why_enable: String,
    pub affected: Vec<AffectedRepo>,
}

/// The report of a run.
pub struct Report {
    pub account: String,
    pub account_kind: String,
    pub summary: Summary,
    pub checks: Vec<CheckReport>,
}

/// The abstract value of an affected repository.
pub struct AffectedView {
    pub repo: Seq<char>,
    pub branch: Option<Seq<char>>,
    pub release_branches: Seq<Seq<char>>,
}

/// The abstract value of a check report.
pub struct CheckReportView {
    pub id: Seq<char>,
    pub label: Seq<char>,
    pub status: Status,
    pub summary: Seq<char>,
    pub description: Option<Seq<char>>,
    pub how_to_fix: Seq<char>,
    pub why_enable: Seq<char>,
    pub affected: Seq<AffectedView>,
}

impl View for AffectedRepo {
    type V = AffectedView;

    open spec fn view(&self) -> AffectedView {
        AffectedView {
            repo: self.repo@,
            branch: opt_chars(self.branch),
            release_branches: string_views(self.release_branches@),
        }
    }
}

impl View for CheckReport {
    type V = CheckReportView;

    open spec fn view(&self) -> CheckReportView {
        CheckReportView {
            id: self.id@,
            label: self.label@,
            status: self.status,
            summary: self.summary@,
            description: opt_chars(self.description),
            how_to_fix: self.how_to_fix@,
            why_enable: self.why_enable@,
            affected: self.affected@.map_values(|a: AffectedRepo| a@),
        }
    }
}

/// The abstract values of the check reports.
pub open spec fn check_views(v: Seq<CheckReport>) -> Seq<CheckReportView> {
    v.map_values(|c: CheckReport| c@)
}

/// How many of `s[..k]` are `st`.
pub open spec fn count_status(s: Seq<ResultView>, st: Status, k: int) -> nat
    decreases k,
{
    if k <= 0 || k > s.len() {
        0
    } else {
        count_status(s, st, k - 1) + if s[k - 1].status == st { 1nat } else { 0nat }
    }
}

/// The share of checks that passed or were skipped, in whole percent
/// (rounded down); 100 when there are no checks.
pub open spec fn percent_spec(passed: nat, skipped: nat, total: nat) -> nat {
    if total == 0 { 100 } else { ((passed + skipped) * 100) / total }
}

/// The affected repositories of a result: the parallel vectors zipped, with
/// no branch and no release branches where they run short.
pub open spec fn affected_spec(r: ResultView) -> Seq<AffectedView> {
    Seq::new(r.affected_repos.len(), |i: int| AffectedView {
        repo: r.affected_repos[i],
        branch: if i < r.affected_repo_branches.len() { r.affected_repo_branches[i] } else { None },
        release_branches: if i < r.affected_repo_release_branches.len() {
            r.affected_repo_release_branches[i]
        } else {
            Seq::empty()
        },
    })
}

/// The report entry of a result.
pub open spec fn check_report_spec(r: ResultView) -> CheckReportView {
    CheckReportView {
        id: r.check.id_spec(),
        label: r.check.label_spec(),
        status: r.status,
        summary: r.summary,
        description: r.description,
        how_to_fix: r.how_to_fix,
        why_enable: r.check.why_spec(),
        affected: affected_spec(r),
    }
}

fn clone_strings_opt(v: &Vec<Option<String>>, i: usize) -> (r: Option<String>)
    ensures
        opt_chars(r) == (if i < v@.len() { opt_chars(v@[i as int]) } else { None }),
{
    if i < v.len() {
        match &v[i] {
            Some(s) => Some(s.clone()),
            None => None,
        }
    } else {
        None
    }
}

fn release_at(v: &Vec<Vec<String>>, i: usize) -> (r: Vec<String>)
    ensures
        string_views(r@) == (if i < v@.len() { string_views(v@[i as int]@) } else { Seq::<Seq<char>>::empty() }),
{
    let mut out: Vec<String> = Vec::new();
    if i < v.len() {
        out = crate::text::clone_strings(&v[i]);
    } else {
        assert(string_views(out@) =~= Seq::<Seq<char>>::empty());
    }
    out
}

fn check_report(r: &CheckResult) -> (c: CheckReport)
    ensures
        c@ == check_report_spec(r@),
{
    let mut affected: Vec<AffectedRepo> = Vec::new();
    let mut i: usize = 0;
    while i < r.affected_repos.len()
        invariant
            i <= r.affected_repos@.len(),
            affected@.map_values(|a: AffectedRepo| a@) == affected_spec(r@).subrange(0, i as int),
        decreases r.affected_repos@.len() - i,
    {
        let ghost before = affected@.map_values(|a: AffectedRepo| a@);
        let a = AffectedRepo {
            repo: r.affected_repos[i].clone(),
            branch: clone_strings_opt(&r.affected_repo_branches, i),
            release_branches: release_at(&r.affected_repo_release_branches, i),
        };
        assert(opt_views(r.affected_repo_branches@).len() == r.affected_repo_branches@.len());
        assert(nested_views(r.affected_repo_release_branches@).len() == r.affected_repo_release_branches@.len());
        assert(a@ == affected_spec(r@)[i as int]);
        affected.push(a);
        assert(affected@.map_values(|a: AffectedRepo| a@) =~= before.push(affected_spec(r@)[i as int]));
        i = i + 1;
        assert(affected@.map_values(|a: AffectedRepo| a@) =~= affected_spec(r@).subrange(0, i as int));
    }
    assert(affected_spec(r@).subrange(0, i as int) =~= affected_spec(r@));
    let description = match &r.description {
        Some(d) => Some(d.clone()),
        None => None,
    };
    CheckReport {
        id: r.check.id().to_owned(),
        label: r.check.label().to_owned(),
        status: r.status,
        summary: r.summary.clone(),
        description,
        how_to_fix: r.how_to_fix.to_owned(),
        why_enable: r.check.why_enable().to_owned(),
        affected,
    }
}

impl Report {
    /// The report of a run over `account`, of the given kind.
    pub fn from_results(account: &str, account_kind: &str, results: &[CheckResult]) -> (rep: Report)
        ensures
            rep.account@ == account@,
            rep.account_kind@ == account_kind@,
            rep.summary.total == results@.len(),
            rep.summary.passed == count_status(result_views(results@), Status::Pass, results@.len() as int),
            rep.summary.failed == count_status(result_views(results@), Status::Fail, results@.len() as int),
            rep.summary.warned == count_status(result_views(results@), Status::Warn, results@.len() as int),
            rep.summary.skipped == count_status(result_views(results@), Status::Skipped, results@.len() as int),
            rep.summary.percent_hardened == percent_spec(rep.summary.passed as nat, rep.summary.skipped as nat, rep.summary.total as nat),
            check_views(rep.checks@) == result_views(results@).map_values(|r: ResultView| check_report_spec(r)),
    {
        let ghost rs = result_views(results@);
        let total = results.len();
        let mut passed: usize = 0;
        let mut failed: usize = 0;
        let mut warned: usize = 0;
        let mut skipped: usize = 0;
        let mut checks: Vec<CheckReport> = Vec::new();
        let mut i: usize = 0;
        while i < total
            invariant
                total == results@.len(),
                rs == result_views(results@),
                i <= total,
                passed == count_status(rs, Status::Pass, i as int),
                failed == count_status(rs, Status::Fail, i as int),
                warned == count_status(rs, Status::Warn, i as int),
                skipped == count_status(rs, Status::Skipped, i as int),
                passed + failed + warned + skipped == i,
                check_views(checks@) == rs.subrange(0, i as int).map_values(|r: ResultView| check_report_spec(r)),
            decreases total - i,
        {
            let r = &results[i];
            assert(rs[i as int] == r@);
            match r.status {
                Status::Pass => {
                    passed = passed + 1;
                },
                Status::Fail => {
                    failed = failed + 1;
                },
                Status::Warn => {
                    warned = warned + 1;
                },
                Status::Skipped => {
                    skipped = skipped + 1;
                },
            }
            let ghost before = check_views(checks@);
            let c = check_report(r);
            let ghost cv = c@;
            checks.push(c);
            assert(check_views(checks@) =~= before.push(cv));
            i = i + 1;
            assert(rs.subrange(0, i as int).map_values(|r: ResultView| check_report_spec(r))
                =~= rs.subrange(0, i - 1 as int).map_values(|r: ResultView| check_report_spec(r)).push(cv));
        }
        assert(rs.subrange(0, i as int) =~= rs);
        let percent_hardened: u32 = if total == 0 {
            100
        } else {
            let p: u128 = ((passed as u128 + skipped as u128) * 100) / (total as u128);
            assert(p <= 100) by (nonlinear_arith)
                requires
                    p == ((passed + skipped) * 100) / (total as int),
                    passed + skipped <= total,
                    total > 0,
            ;
            p as u32
        };
        Report {
            account: account.to_owned(),
            account_kind: account_kind.to_owned(),
            summary: Summary { total, passed, failed, warned, skipped, percent_hardened },
            checks,
        }
    }
}

proof fn lemma_counts_sum(rs: Seq<ResultView>, k: int)
    requires
        0 <= k <= rs.len(),
    ensures
        count_status(rs, Status::Pass, k) + count_status(rs, Status::Fail, k) + count_status(rs, Status::Warn, k)
            + count_status(rs, Status::Skipped, k) == k,
    decreases k,
{
    if k > 0 {
        lemma_counts_sum(rs, k - 1);
    }
}

/// Every check is counted exactly once: the passed, failed, warning and
/// skipped counts add up to the total, and the hardened share is at most
/// 100%, and exactly 100% when no check failed or warned (in particular when
/// there are no checks).
pub proof fn law_summary_adds_up(rs: Seq<ResultView>)
    ensures
        ({
            let n = rs.len() as int;
            let passed = count_status(rs, Status::Pass, n);
            let failed = count_status(rs, Status::Fail, n);
            let warned = count_status(rs, Status::Warn, n);
            let skipped = count_status(rs, Status::Skipped, n);
            &&& passed + failed + warned + skipped == rs.len()
            &&& percent_spec(passed, skipped, rs.len()) <= 100
            &&& (failed + warned == 0 ==> percent_spec(passed, skipped, rs.len()) == 100)
        }),
{
    let n = rs.len() as int;
    lemma_counts_sum(rs, n);
    let passed = count_status(rs, Status::Pass, n) as int;
    let skipped = count_status(rs, Status::Skipped, n) as int;
    if n > 0 {
        assert(((passed + skipped) * 100) / n <= 100) by (nonlinear_arith)
            requires
                passed + skipped <= n,
                n > 0,
        ;
        if passed + skipped == n {
            assert((n * 100) / n == 100) by (nonlinear_arith)
                requires
                    n > 0,
            ;
        }
    }
}

/// The label of a status in the report.
pub open spec fn status_label_spec(s: Status) -> Seq<char> {
    match s {
        Status::Pass => "✓ pass"@,
        Status::Fail => "✕ fail"@,
        Status::Warn => "! warn"@,
        Status::Skipped => "· skipped"@,
    }
}

/// The label of a status in the report.
pub fn status_label(s: Status) -> (r: &'static str)
    ensures
        r@ == status_label_spec(s),
{
    match s {
        Status::Pass => "✓ pass",
        Status::Fail => "✕ fail",
        Status::Warn => "! warn",
        Status::Skipped => "· skipped",
    }
}

/// Text made safe for a Markdown table cell: pipes escaped, newlines turned
/// into spaces.
pub open spec fn md_escape_spec(s: Seq<char>) -> Seq<char> {
    replace(replace(s, "|"@, "\\|"@), "\n"@, " "@)
}

/// Text made safe for a Markdown table cell.
pub fn md_escape(s: &str) -> (r: String)
    ensures
        r@ == md_escape_spec(s@),
{
    proof {
        reveal_strlit("|");
        reveal_strlit("\n");
    }
    assert("|"@.len() == 1);
    assert("\n"@.len() == 1);
    let piped = str_replace(s, "|", "\\|");
    str_replace(piped.as_str(), "\n", " ")
}

/// The heading word for an account kind.
pub open spec fn kind_title_spec(kind: Seq<char>) -> Seq<char> {
    if kind == "organization"@ {
        "Organization"@
    } else if kind == "user"@ {
        "User"@
    } else if kind == "repository"@ {
        "Repository"@
    } else {
        kind
    }
}

/// The table rows for `cs[..k]`.
pub open spec fn table_rows(cs: Seq<CheckReportView>, k: int) -> Seq<char>
    decreases k,
{
    if k <= 0 || k > cs.len() {
        Seq::empty()
    } else {
        let c = cs[k - 1];
        table_rows(cs, k - 1) + "| "@ + status_label_spec(c.status) + " | "@ + md_escape_spec(c.label) + " | "@
            + md_escape_spec(c.summary) + " |\n"@
    }
}

/// A check that failed or warned gets a details section.
pub open spec fn actionable(c: CheckReportView) -> bool {
    c.status == Status::Fail || c.status == Status::Warn
}

/// The bullet list of `a[..k]`.
pub open spec fn affected_lines(a: Seq<AffectedView>, k: int) -> Seq<char>
    decreases k,
{
    if k <= 0 || k > a.len() {
        Seq::empty()
    } else {
        affected_lines(a, k - 1) + match a[k - 1].branch {
            Some(b) => "- `"@ + a[k - 1].repo + "` (`"@ + b + "`)\n"@,
            None => "- `"@ + a[k - 1].repo + "`\n"@,
        }
    }
}

/// The details section of one check.
pub open spec fn detail_spec(c: CheckReportView) -> Seq<char> {
    "### "@ + status_label_spec(c.status) + " "@ + c.label + "\n\n"@ + "**Summary:** "@ + c.summary + "\n\n"@
        + match c.description {
            Some(d) => "**Description:** "@ + d + "\n\n"@,
            None => Seq::empty(),
        }
        + "**How to fix:** "@ + c.how_to_fix + "\n\n"@
        + if c.affected.len() > 0 {
            "**Affected:**\n\n"@ + affected_lines(c.affected, c.affected.len() as int) + "\n"@
        } else {
            Seq::empty()
        }
}

/// The details sections of the actionable checks among `cs[..k]`.
pub open spec fn details(cs: Seq<CheckReportView>, k: int) -> Seq<char>
    decreases k,
{
    if k <= 0 || k > cs.len() {
        Seq::empty()
    } else {
        details(cs, k - 1) + if actionable(cs[k - 1]) { detail_spec(cs[k - 1]) } else { Seq::empty() }
    }
}

/// The heading and the counts.
pub open spec fn markdown_head(account: Seq<char>, kind: Seq<char>, s: Summary) -> Seq<char> {
    "# Security posture — "@ + account + " ("@ + kind_title_spec(kind) + ")\n\n"@
        + "**"@ + dec(s.percent_hardened as nat) + "% hardened**\n\n"@
        + "- "@ + dec(s.passed as nat) + " passed\n- "@ + dec(s.failed as nat) + " failed\n- "@
        + dec(s.warned as nat) + " warnings\n- "@ + dec(s.skipped as nat) + " skipped\n- "@
        + dec(s.total as nat) + " total\n\n"@
}

/// The whole Markdown report: heading, counts, the table of checks, and a
/// details section for every check that failed or warned.
pub open spec fn markdown_spec(account: Seq<char>, kind: Seq<char>, s: Summary, cs: Seq<CheckReportView>) -> Seq<char> {
    markdown_head(account, kind, s) + "## Checks\n\n"@ + "| Status | Check | Summary |\n"@ + "| --- | --- | --- |\n"@
        + table_rows(cs, cs.len() as int) + "\n"@
        + if exists|i: int| 0 <= i < cs.len() && actionable(#[trigger] cs[i]) {
            "## Details\n\n"@ + details(cs, cs.len() as int)
        } else {
            Seq::empty()
        }
}

fn kind_title(kind: &str) -> (r: &str)
    ensures
        r@ == kind_title_spec(kind@),
{
    if crate::text::str_eq(kind, "organization") {
        "Organization"
    } else if crate::text::str_eq(kind, "user") {
        "User"
    } else if crate::text::str_eq(kind, "repository") {
        "Repository"
    } else {
        kind
    }
}

fn push_affected(out: &mut String, affected: &Vec<AffectedRepo>)
    ensures
        final(out)@ == old(out)@ + affected_lines(affected@.map_values(|a: AffectedRepo| a@), affected@.len() as int),
{
    let ghost av = affected@.map_values(|a: AffectedRepo| a@);
    let ghost start = out@;
    let mut i: usize = 0;
    while i < affected.len()
        invariant
            i <= affected@.len(),
            av == affected@.map_values(|a: AffectedRepo| a@),
            start == old(out)@,
            out@ == start + affected_lines(av, i as int),
        decreases affected@.len() - i,
    {
        let a = &affected[i];
        assert(av[i as int] == a@);
        let ghost before = out@;
        out.append("- `");
        out.append(a.repo.as_str());
        match &a.branch {
            Some(b) => {
                out.append("` (`");
                out.append(b.as_str());
                out.append("`)\n");
                assert(out@ =~= before + ("- `"@ + a.repo@ + "` (`"@ + b@ + "`)\n"@));
            },
            None => {
                out.append("`\n");
                assert(out@ =~= before + ("- `"@ + a.repo@ + "`\n"@));
            },
        }
        i = i + 1;
        assert(out@ =~= start + affected_lines(av, i as int));
    }
}

#[verifier::spinoff_prover]
#[verifier::rlimit(40)]
fn push_detail(out: &mut String, c: &CheckReport)
    ensures
        final(out)@ == old(out)@ + detail_spec(c@),
{
    let ghost d = c@;
    let ghost head = "### "@ + status_label_spec(d.status) + " "@ + d.label + "\n\n"@ + "**Summary:** "@ + d.summary + "\n\n"@;
    let ghost desc: Seq<char> = match d.description {
        Some(x) => "**Description:** "@ + x + "\n\n"@,
        None => Seq::empty(),
    };
    let ghost fix = "**How to fix:** "@ + d.how_to_fix + "\n\n"@;
    let ghost aff: Seq<char> = if d.affected.len() > 0 {
        "**Affected:**\n\n"@ + affected_lines(d.affected, d.affected.len() as int) + "\n"@
    } else {
        Seq::empty()
    };
    assert(detail_spec(d) == head + desc + fix + aff);
    let ghost o0 = out@;
    out.append("### ");
    out.append(status_label(c.status));
    out.append(" ");
    out.append(c.label.as_str());
    out.append("\n\n");
    out.append("**Summary:** ");
    out.append(c.summary.as_str());
    out.append("\n\n");
    assert(out@ =~= o0 + head);
    let ghost o1 = out@;
    match &c.description {
        Some(x) => {
            out.append("**Description:** ");
            out.append(x.as_str());
            out.append("\n\n");
        },
        None => {},
    }
    assert(out@ =~= o1 + desc);
    let ghost o2 = out@;
    out.append("**How to fix:** ");
    out.append(c.how_to_fix.as_str());
    out.append("\n\n");
    assert(out@ =~= o2 + fix);
    let ghost o3 = out@;
    if c.affected.len() > 0 {
        out.append("**Affected:**\n\n");
        push_affected(out, &c.affected);
        out.append("\n");
    }
    assert(out@ =~= o3 + aff);
    assert(out@ =~= o0 + (head + desc + fix + aff));
}

impl Report {
    /// The report as Markdown.
    pub fn to_markdown(&self) -> (md: String)
        ensures
            md@ == markdown_spec(self.account@, self.account_kind@, self.summary, check_views(self.checks@)),
    {
        let ghost cs = check_views(self.checks@);
        let mut out = String::new();
        out.append("# Security posture — ");
        out.append(self.account.as_str());
        out.append(" (");
        out.append(kind_title(self.account_kind.as_str()));
        out.append(")\n\n");
        let s = &self.summary;
        out.append("**");
        push_dec(&mut out, s.percent_hardened as usize);
        out.append("% hardened**\n\n");
        out.append("- ");
        push_dec(&mut out, s.passed);
        out.append(" passed\n- ");
        push_dec(&mut out, s.failed);
        out.append(" failed\n- ");
        push_dec(&mut out, s.warned);
        out.append(" warnings\n- ");
        push_dec(&mut out, s.skipped);
        out.append(" skipped\n- ");
        push_dec(&mut out, s.total);
        out.append(" total\n\n");
        assert(out@ =~= markdown_head(self.account@, self.account_kind@, self.summary));
        out.append("## Checks\n\n");
        out.append("| Status | Check | Summary |\n");
        out.append("| --- | --- | --- |\n");
        let ghost table_start = out@;
        let mut i: usize = 0;
        let mut any_actionable = false;
        while i < self.checks.len()
            invariant
                i <= self.checks@.len(),
                cs == check_views(self.checks@),
                out@ == table_start + table_rows(cs, i as int),
                any_actionable == exists|j: int| 0 <= j < i && actionable(#[trigger] cs[j]),
            decreases self.checks@.len() - i,
        {
            let c = &self.checks[i];
            assert(cs[i as int] == c@);
            out.append("| ");
            out.append(status_label(c.status));
            out.append(" | ");
            out.append(md_escape(c.label.as_str()).as_str());
            out.append(" | ");
            out.append(md_escape(c.summary.as_str()).as_str());
            out.append(" |\n");
            if c.status == Status::Fail || c.status == Status::Warn {
                any_actionable = true;
            }
            i = i + 1;
        }
        out.append("\n");
        if any_actionable {
            out.append("## Details\n\n");
            let ghost details_start = out@;
            let mut k: usize = 0;
            while k < self.checks.len()
                invariant
                    k <= self.checks@.len(),
                    cs == check_views(self.checks@),
                    out@ == details_start + details(cs, k as int),
                decreases self.checks@.len() - k,
            {
                let c = &self.checks[k];
                assert(cs[k as int] == c@);
                if c.status == Status::Fail || c.status == Status::Warn {
                    push_detail(&mut out, c);
                }
                k = k + 1;
            }
        }
        out
    }
}

} // verus!
