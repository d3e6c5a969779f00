//! Logbooks and their kinds.

use vstd::prelude::*;

use crate::i18n::Translations;
use crate::text::str_eq;

verus! {

/// What a logbook is used for.
#[derive(Debug, Clone, Copy, PartialEq, Eq, Structural)]
pub enum LogKind {
    General,
    Contest,
    Dxpedition,
    Sota,
}

impl Default for LogKind {
    fn default() -> (k: Self)
        ensures
            k == LogKind::General,
    {
        LogKind::General
    }
}

impl LogKind {
    /// Every kind, in the order the user interface lists them.
    pub const ALL: [LogKind; 4] = [
        LogKind::General,
        LogKind::Contest,
        LogKind::Dxpedition,
        LogKind::Sota,
    ];

    /// The text stored for this kind in the `log.kind` column.
    pub open spec fn db_text(self) -> Seq<char> {
        match self {
            LogKind::General => "general"@,
            LogKind::Contest => "contest"@,
            LogKind::Dxpedition => "dxpedition"@,
            LogKind::Sota => "sota"@,
        }
    }

    /// The kind that a stored text denotes; anything unknown reads as
    /// `General`.
    pub open spec fn from_db_text(s: Seq<char>) -> LogKind {
        if s == "contest"@ {
            LogKind::Contest
        } else if s == "dxpedition"@ {
            LogKind::Dxpedition
        } else if s == "sota"@ {
            LogKind::Sota
        } else {
            LogKind::General
        }
    }

    /// The message id of this kind's display label.
    pub open spec fn label_key_spec(self) -> Seq<char> {
        match self {
            LogKind::General => "log-kind-general"@,
            LogKind::Contest => "log-kind-contest"@,
            LogKind::Dxpedition => "log-kind-dxpedition"@,
            LogKind::Sota => "log-kind-sota"@,
        }
    }

    /// The text stored for this kind in the database.
    pub fn as_db_str(self) -> (s: &'static str)
        ensures
            s@ == self.db_text(),
    {
        match self {
            LogKind::General => "general",
            LogKind::Contest => "contest",
            LogKind::Dxpedition => "dxpedition",
            LogKind::Sota => "sota",
        }
    }

    /// Reads a stored kind; unknown text gives `General`.
    pub fn from_db_str(s: &str) -> (k: Self)
        ensures
            k == LogKind::from_db_text(s@),
    {
        if str_eq(s, "contest") {
            LogKind::Contest
        } else if str_eq(s, "dxpedition") {
            LogKind::Dxpedition
        } else if str_eq(s, "sota") {
            LogKind::Sota
        } else {
            LogKind::General
        }
    }

    /// The message id of this kind's label.
    pub fn label_key(self) -> (s: &'static str)
        ensures
            s@ == self.label_key_spec(),
    {
        match self {
            LogKind::General => "log-kind-general",
            LogKind::Contest => "log-kind-contest",
            LogKind::Dxpedition => "log-kind-dxpedition",
            LogKind::Sota => "log-kind-sota",
        }
    }

    /// This kind's label in the given translations (its display text).
    pub fn label(self, tr: &Translations) -> (s: String)
        ensures
            s@ == tr.lookup(self.label_key_spec()),
    {
        tr.get(self.label_key())
    }
}

/// Reading back what `as_db_str` stores gives the same kind.
pub proof fn lemma_log_kind_db_round_trip(k: LogKind)
    ensures
        LogKind::from_db_text(k.db_text()) == k,
{
    reveal_strlit("general");
    reveal_strlit("contest");
    reveal_strlit("dxpedition");
    reveal_strlit("sota");
    assert("general"@[0] != "contest"@[0]);
    assert("general"@[0] != "dxpedition"@[0]);
    assert("general"@[0] != "sota"@[0]);
    assert("contest"@[0] != "dxpedition"@[0]);
    assert("contest"@[0] != "sota"@[0]);
    assert("sota"@[0] != "dxpedition"@[0]);
}

/// A logbook. Two logbooks are the same logbook when their ids agree.
#[derive(Debug)]
pub struct Log {
    pub id: i64,
    pub name: String,
    pub kind: LogKind,
    pub is_active: bool,
}

impl Clone for Log {
    fn clone(&self) -> (r: Self)
        ensures
            r == *self,
    {
        Log { id: self.id, name: self.name.clone(), kind: self.kind, is_active: self.is_active }
    }
}

impl PartialEq for Log {
    fn eq(&self, other: &Self) -> (r: bool) {
        self.id == other.id
    }
}

impl vstd::std_specs::cmp::PartialEqSpecImpl for Log {
    open spec fn obeys_eq_spec() -> bool {
        true
    }

    open spec fn eq_spec(&self, other: &Log) -> bool {
        self.id == other.id
    }
}

impl Eq for Log {

}

impl Log {
    /// The text shown for this logbook: its name.
    pub fn display_text(&self) -> (s: String)
        ensures
            s@ == self.name@,
    {
        self.name.clone()
    }
}

} // verus!
