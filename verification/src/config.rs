//! Per-repository configuration (`moat.toml`): which checks are switched
//! off, and which branches count as release branches.
use vstd::prelude::*;
use crate::checks::catalog::{all, all_spec};
use crate::text::str_eq;

verus! {

/// The name of the configuration file at the root of an audited repository.
pub const FILE_NAME: &'static str = "moat.toml";

/// Whether a check is enabled for a repository.
#[derive(Clone, Copy, PartialEq, Eq, Debug, Structural)]
pub enum CheckState {
    On,
    Off,
}

/// The configuration of one repository.
pub struct Config {
    checks: Vec<(String, CheckState)>,
    release_branches: Vec<String>,
}

/// A value in the `[checks]` table that is neither `on` nor `off`.
pub struct ConfigError {
    pub check_id: String,
    pub value: String,
}

/// `id` is the identifier of a check of the catalogue.
pub open spec fn known_id(id: Seq<char>) -> bool {
    exists|i: int| 0 <= i < all_spec().len() && (#[trigger] all_spec()[i]).id_spec() == id
}

/// Does `id` name a check of the catalogue?
pub fn is_known_check(id: &str) -> (b: bool)
    ensures
        b == known_id(id@),
{
    let checks = all();
    let mut i: usize = 0;
    while i < checks.len()
        invariant
            checks@ == all_spec(),
            i <= checks@.len(),
            forall|j: int| 0 <= j < i ==> (#[trigger] all_spec()[j]).id_spec() != id@,
        decreases checks@.len() - i,
    {
        if str_eq(checks[i].id(), id) {
            assert(all_spec()[i as int].id_spec() == id@);
            return true;
        }
        i = i + 1;
    }
    false
}

/// An entry of the `[checks]` table is valid when its value is `on` or
/// `off` (any id is accepted).
pub open spec fn valid_entry(e: (Seq<char>, Seq<char>)) -> bool {
    e.1 == "on"@ || e.1 == "off"@
}

/// The state configured for `id` among `entries` (the last entry wins).
pub open spec fn state_of(entries: Seq<(Seq<char>, Seq<char>)>, id: Seq<char>) -> Option<Seq<char>>
    decreases entries.len(),
{
    if entries.len() == 0 {
        None
    } else if entries.last().0 == id {
        Some(entries.last().1)
    } else {
        state_of(entries.drop_last(), id)
    }
}

/// The pairs of a raw `[checks]` table.
pub open spec fn raw_views(v: Seq<(String, String)>) -> Seq<(Seq<char>, Seq<char>)> {
    v.map_values(|p: (String, String)| (p.0@, p.1@))
}

/// Every entry of the raw `[checks]` table is valid.
pub open spec fn all_valid(entries: Seq<(Seq<char>, Seq<char>)>) -> bool {
    forall|i: int| 0 <= i < entries.len() ==> valid_entry(#[trigger] entries[i])
}

/// The state a valid raw value stands for.
pub open spec fn state_for(value: Seq<char>) -> CheckState {
    if value == "off"@ { CheckState::Off } else { CheckState::On }
}

/// The state recorded for `id` among `entries` (the last entry wins).
pub open spec fn lookup(entries: Seq<(String, CheckState)>, id: Seq<char>) -> Option<CheckState>
    decreases entries.len(),
{
    if entries.len() == 0 {
        None
    } else if entries.last().0@ == id {
        Some(entries.last().1)
    } else {
        lookup(entries.drop_last(), id)
    }
}

proof fn lemma_lookup_matches_raw(parsed: Seq<(String, CheckState)>, raw: Seq<(String, String)>, id: Seq<char>)
    requires
        parsed.len() == raw.len(),
        forall|i: int| 0 <= i < raw.len() ==> (#[trigger] parsed[i]).0@ == raw[i].0@
            && parsed[i].1 == state_for(raw[i].1@),
    ensures
        lookup(parsed, id) == (match state_of(raw_views(raw), id) {
            Some(v) => Some(state_for(v)),
            None => None,
        }),
    decreases raw.len(),
{
    if raw.len() > 0 {
        let n = raw.len() - 1;
        assert(parsed[n as int].0@ == raw[n as int].0@);
        assert(raw_views(raw).drop_last() =~= raw_views(raw.drop_last()));
        lemma_lookup_matches_raw(parsed.drop_last(), raw.drop_last(), id);
    } else {
        assert(raw_views(raw) =~= Seq::empty());
    }
}

impl Config {
    /// The state configured for `id`, if any.
    pub closed spec fn state(&self, id: Seq<char>) -> Option<CheckState> {
        lookup(self.checks@, id)
    }

    /// The check ids of the `[checks]` table, in order.
    pub closed spec fn ids(&self) -> Seq<Seq<char>> {
        self.checks@.map_values(|e: (String, CheckState)| e.0@)
    }

    /// The configured release branches.
    pub closed spec fn branches(&self) -> Seq<Seq<char>> {
        crate::text::string_views(self.release_branches@)
    }

    /// An empty configuration: every check on, no release branches.
    pub fn new() -> (c: Self)
        ensures
            forall|id: Seq<char>| c.state(id) is None,
            c.branches() == Seq::<Seq<char>>::empty(),
            c.ids() == Seq::<Seq<char>>::empty(),
    {
        let c = Config { checks: Vec::new(), release_branches: Vec::new() };
        assert(c.branches() =~= Seq::<Seq<char>>::empty());
        assert(c.ids() =~= Seq::<Seq<char>>::empty());
        c
    }

    /// Builds the configuration from the raw `[checks]` table (in order) and
    /// the release branches; fails on the first entry that names no check
    /// of the catalogue or whose value is neither `on` nor `off`.
    pub fn from_raw(checks: Vec<(String, String)>, release_branches: Vec<String>) -> (r: Result<Self, ConfigError>)
        ensures
            match r {
                Ok(c) => {
                    &&& all_valid(raw_views(checks@))
                    &&& c.branches() == crate::text::string_views(release_branches@)
                    &&& c.ids() == raw_views(checks@).map_values(|e: (Seq<char>, Seq<char>)| e.0)
                    &&& forall|id: Seq<char>| #[trigger] c.state(id) == (match state_of(raw_views(checks@), id) {
                        Some(v) => Some(state_for(v)),
                        None => None,
                    })
                },
                Err(e) => exists|i: int| 0 <= i < checks@.len()
                    && all_valid(raw_views(checks@).subrange(0, i))
                    && (#[trigger] checks@[i]).0@ == e.check_id@ && checks@[i].1@ == e.value@
                    && !valid_entry((e.check_id@, e.value@)),
            },
    {
        let mut parsed: Vec<(String, CheckState)> = Vec::new();
        let mut i: usize = 0;
        while i < checks.len()
            invariant
                i <= checks@.len(),
                parsed@.len() == i,
                forall|j: int| 0 <= j < i ==> (#[trigger] parsed@[j]).0@ == checks@[j].0@
                    && parsed@[j].1 == state_for(checks@[j].1@),
                all_valid(raw_views(checks@).subrange(0, i as int)),
            decreases checks@.len() - i,
        {
            let id = &checks[i].0;
            let value = &checks[i].1;
            proof {
                reveal_strlit("on");
                reveal_strlit("off");
            }
            let state = if str_eq(value.as_str(), "on") {
                CheckState::On
            } else if str_eq(value.as_str(), "off") {
                CheckState::Off
            } else {
                proof {
                    assert(raw_views(checks@)[i as int].1 == value@);
                }
                return Err(ConfigError { check_id: id.clone(), value: value.clone() });
            };
            let k = id.clone();
            assert("on"@.len() == 2);
            assert("on"@ != "off"@);
            assert(state == state_for(checks@[i as int].1@));
            parsed.push((k, state));
            assert(parsed@[i as int].0@ == checks@[i as int].0@);
            i = i + 1;
            assert(raw_views(checks@).subrange(0, i as int)[i - 1] == raw_views(checks@)[i - 1]);
        }
        assert(raw_views(checks@).subrange(0, i as int) =~= raw_views(checks@));
        let c = Config { checks: parsed, release_branches };
        proof {
            assert(c.ids() =~= raw_views(checks@).map_values(|e: (Seq<char>, Seq<char>)| e.0));
            assert forall|id: Seq<char>| #[trigger] c.state(id) == (match state_of(raw_views(checks@), id) {
                Some(v) => Some(state_for(v)),
                None => None,
            }) by {
                lemma_lookup_matches_raw(c.checks@, checks@, id);
            }
        }
        Ok(c)
    }

    /// Is the check `check_id` switched off?
    pub fn is_off(&self, check_id: &str) -> (b: bool)
        ensures
            b == (self.state(check_id@) == Some(CheckState::Off)),
    {
        let mut i: usize = self.checks.len();
        assert(self.checks@.subrange(0, i as int) =~= self.checks@);
        while i > 0
            invariant
                i <= self.checks@.len(),
                lookup(self.checks@, check_id@) == lookup(self.checks@.subrange(0, i as int), check_id@),
            decreases i,
        {
            let ghost prefix = self.checks@.subrange(0, i as int);
            assert(prefix.drop_last() =~= self.checks@.subrange(0, i - 1));
            if str_eq(self.checks[i - 1].0.as_str(), check_id) {
                return matches!(self.checks[i - 1].1, CheckState::Off);
            }
            i = i - 1;
        }
        false
    }

    /// The first check id of the `[checks]` table that names no check of the
    /// catalogue, if any.
    pub fn first_unknown_check(&self) -> (r: Option<String>)
        ensures
            match r {
                Some(id) => exists|i: int| 0 <= i < self.ids().len() && #[trigger] self.ids()[i] == id@
                    && !known_id(id@)
                    && forall|j: int| 0 <= j < i ==> known_id(#[trigger] self.ids()[j]),
                None => forall|i: int| 0 <= i < self.ids().len() ==> known_id(#[trigger] self.ids()[i]),
            },
    {
        let mut i: usize = 0;
        while i < self.checks.len()
            invariant
                i <= self.checks@.len(),
                self.ids().len() == self.checks@.len(),
                forall|j: int| 0 <= j < i ==> known_id(#[trigger] self.ids()[j]),
            decreases self.checks@.len() - i,
        {
            assert(self.ids()[i as int] == self.checks@[i as int].0@);
            if !is_known_check(self.checks[i].0.as_str()) {
                return Some(self.checks[i].0.clone());
            }
            i = i + 1;
        }
        None
    }

    /// The configured release branches.
    pub fn release_branches(&self) -> (r: &Vec<String>)
        ensures
            crate::text::string_views(r@) == self.branches(),
    {
        &self.release_branches
    }
}

/// The message reported for an invalid value in `moat.toml`.
pub open spec fn config_error_message(id: Seq<char>, value: Seq<char>) -> Seq<char> {
    "invalid value `"@ + value + "` for check `"@ + id + "` in moat.toml — expected `on` or `off`"@
}

/// The message reported for a `moat.toml` that names a check the catalogue
/// does not hold.
pub open spec fn unknown_check_message_spec(id: Seq<char>) -> Seq<char> {
    "unknown check `"@ + id + "` in moat.toml — use a check ID from the Checks section"@
}

/// The message reported for an unknown check id in `moat.toml`.
pub fn unknown_check_message(id: &str) -> (m: String)
    ensures
        m@ == unknown_check_message_spec(id@),
{
    let mut m = String::new();
    m.append("unknown check `");
    m.append(id);
    m.append("` in moat.toml — use a check ID from the Checks section");
    m
}

impl ConfigError {
    /// The message reported for this error.
    pub fn message(&self) -> (m: String)
        ensures
            m@ == config_error_message(self.check_id@, self.value@),
    {
        let mut m = String::new();
        m.append("invalid value `");
        m.append(self.value.as_str());
        m.append("` for check `");
        m.append(self.check_id.as_str());
        m.append("` in moat.toml — expected `on` or `off`");
        m
    }
}

} // verus!
