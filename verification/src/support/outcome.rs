//! The result of evaluating one check against one repository or organization.
use vstd::prelude::*;
use crate::style;
use crate::text::string_views;

verus! {

/// How a check came out.
#[derive(Clone, Copy, PartialEq, Eq, Debug, Structural)]
pub enum Status {
    Pass,
    Fail,
    Warn,
    Skipped,
}

/// One evaluation: a status, a short summary, optional detail items and,
/// for branch-aware checks, the branches on which it failed.
pub struct CheckOutcome {
    pub status: Status,
    pub summary: String,
    pub items: Vec<String>,
    pub failing_branches: Vec<String>,
    /// Set when the check was skipped because the account's plan does not
    /// offer the feature.
    pub plan_gated: bool,
    /// Set when the check was skipped for lack of data; the label names what
    /// was missing.
    pub no_data_label: Option<String>,
}

/// The abstract value of an outcome.
pub struct OutcomeView {
    pub status: Status,
    pub summary: Seq<char>,
    pub items: Seq<Seq<char>>,
    pub failing_branches: Seq<Seq<char>>,
    pub plan_gated: bool,
    pub no_data_label: Option<Seq<char>>,
}

impl View for CheckOutcome {
    type V = OutcomeView;

    open spec fn view(&self) -> OutcomeView {
        OutcomeView {
            status: self.status,
            summary: self.summary@,
            items: string_views(self.items@),
            failing_branches: string_views(self.failing_branches@),
            plan_gated: self.plan_gated,
            no_data_label: match self.no_data_label {
                Some(l) => Some(l@),
                None => None,
            },
        }
    }
}

/// An outcome with just a status and a summary.
pub open spec fn bare(status: Status, summary: Seq<char>) -> OutcomeView {
    OutcomeView {
        status,
        summary,
        items: Seq::empty(),
        failing_branches: Seq::empty(),
        plan_gated: false,
        no_data_label: None,
    }
}

/// `o` with detail items.
pub open spec fn with_items(o: OutcomeView, items: Seq<Seq<char>>) -> OutcomeView {
    OutcomeView { items, ..o }
}

/// `o` with failing branches.
pub open spec fn with_branches(o: OutcomeView, branches: Seq<Seq<char>>) -> OutcomeView {
    OutcomeView { failing_branches: branches, ..o }
}

/// A skipped outcome caused by the plan.
pub open spec fn plan_gated(summary: Seq<char>) -> OutcomeView {
    OutcomeView { plan_gated: true, ..bare(Status::Skipped, summary) }
}

/// A skipped outcome for lack of data.
pub open spec fn no_data(summary: Seq<char>, label: Seq<char>) -> OutcomeView {
    OutcomeView { no_data_label: Some(label), ..bare(Status::Skipped, summary) }
}

/// The badge glyph of a status.
pub open spec fn badge_spec(s: Status) -> Seq<char> {
    match s {
        Status::Pass => "✓"@,
        Status::Fail => "✗"@,
        Status::Warn => "!"@,
        Status::Skipped => "·"@,
    }
}

impl CheckOutcome {
    fn bare(status: Status, summary: &str) -> (o: Self)
        ensures
            o@ == bare(status, summary@),
    {
        let o = CheckOutcome {
            status,
            summary: summary.to_owned(),
            items: Vec::new(),
            failing_branches: Vec::new(),
            plan_gated: false,
            no_data_label: None,
        };
        assert(string_views(o.items@) =~= Seq::empty());
        assert(string_views(o.failing_branches@) =~= Seq::empty());
        o
    }

    /// A passing outcome.
    pub fn pass(summary: &str) -> (o: Self)
        ensures
            o@ == bare(Status::Pass, summary@),
    {
        Self::bare(Status::Pass, summary)
    }

    /// A failing outcome.
    pub fn fail(summary: &str) -> (o: Self)
        ensures
            o@ == bare(Status::Fail, summary@),
    {
        Self::bare(Status::Fail, summary)
    }

    /// A warning outcome.
    pub fn warn(summary: &str) -> (o: Self)
        ensures
            o@ == bare(Status::Warn, summary@),
    {
        Self::bare(Status::Warn, summary)
    }

    /// A skipped outcome.
    pub fn skipped(summary: &str) -> (o: Self)
        ensures
            o@ == bare(Status::Skipped, summary@),
    {
        Self::bare(Status::Skipped, summary)
    }

    /// A skipped outcome caused by the account's plan.
    pub fn skipped_plan_gated(summary: &str) -> (o: Self)
        ensures
            o@ == plan_gated(summary@),
    {
        let mut o = Self::bare(Status::Skipped, summary);
        o.plan_gated = true;
        o
    }

    /// A skipped outcome for lack of data; `label` names what was missing.
    pub fn skipped_no_data(summary: &str, label: &str) -> (o: Self)
        ensures
            o@ == no_data(summary@, label@),
    {
        let mut o = Self::bare(Status::Skipped, summary);
        o.no_data_label = Some(label.to_owned());
        o
    }

    /// The same outcome with `items` attached.
    pub fn with_items(self, items: Vec<String>) -> (o: Self)
        ensures
            o@ == with_items(self@, string_views(items@)),
            o.status == self.status,
            o.summary == self.summary,
            o.items == items,
            o.failing_branches == self.failing_branches,
            o.plan_gated == self.plan_gated,
            o.no_data_label == self.no_data_label,
    {
        let mut o = self;
        o.items = items;
        o
    }

    /// The same outcome with the failing branches attached.
    pub fn with_failing_branches(self, branches: Vec<String>) -> (o: Self)
        ensures
            o@ == with_branches(self@, string_views(branches@)),
            o.status == self.status,
            o.summary == self.summary,
            o.items == self.items,
            o.failing_branches == branches,
            o.plan_gated == self.plan_gated,
            o.no_data_label == self.no_data_label,
    {
        let mut o = self;
        o.failing_branches = branches;
        o
    }

    /// The summary coloured by status: green, red, yellow, or dimmed.
    pub fn colored_summary(&self) -> (r: String)
        ensures
            r@ == match self.status {
                Status::Pass => style::ansi_fg("32"@, self.summary@),
                Status::Fail => style::ansi_fg("31"@, self.summary@),
                Status::Warn => style::ansi_fg("33"@, self.summary@),
                Status::Skipped => style::ansi_style("2"@, self.summary@),
            },
    {
        match self.status {
            Status::Pass => style::green(self.summary.as_str()),
            Status::Fail => style::red(self.summary.as_str()),
            Status::Warn => style::yellow(self.summary.as_str()),
            Status::Skipped => style::dimmed(self.summary.as_str()),
        }
    }
}

impl Status {
    /// The one-glyph badge of the status.
    pub fn badge(self) -> (r: &'static str)
        ensures
            r@ == badge_spec(self),
    {
        match self {
            Status::Pass => "✓",
            Status::Fail => "✗",
            Status::Warn => "!",
            Status::Skipped => "·",
        }
    }

    /// The badge coloured by status (a failing badge is also bold).
    pub fn colored_badge(self) -> (r: String)
        ensures
            r@ == match self {
                Status::Pass => style::ansi_fg("32"@, badge_spec(self)),
                Status::Fail => style::ansi_style("1"@, style::ansi_fg("31"@, badge_spec(self))),
                Status::Warn => style::ansi_fg("33"@, badge_spec(self)),
                Status::Skipped => style::ansi_style("2"@, badge_spec(self)),
            },
    {
        match self {
            Status::Pass => style::green(self.badge()),
            Status::Fail => style::bold(style::red(self.badge()).as_str()),
            Status::Warn => style::yellow(self.badge()),
            Status::Skipped => style::dimmed(self.badge()),
        }
    }
}

} // verus!
