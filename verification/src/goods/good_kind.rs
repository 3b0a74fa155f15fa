//! The four kinds of goods.

use vstd::prelude::*;
use vstd::string::*;

verus! {

/// A kind of good. `EUR` is the kind in which trades are settled.
#[derive(Clone, Copy, Debug, PartialEq, Eq, Hash, Structural)]
pub enum GoodKind {
    EUR,
    YEN,
    USD,
    YUAN,
}

impl GoodKind {
    /// The name of the kind, as it stands in tokens and log lines.
    pub open spec fn text(self) -> Seq<char> {
        match self {
            GoodKind::EUR => "EUR"@,
            GoodKind::YEN => "YEN"@,
            GoodKind::USD => "USD"@,
            GoodKind::YUAN => "YUAN"@,
        }
    }

    /// The place of the kind in an inventory: EUR, YEN, USD, YUAN.
    pub open spec fn position(self) -> int {
        match self {
            GoodKind::EUR => 0,
            GoodKind::YEN => 1,
            GoodKind::USD => 2,
            GoodKind::YUAN => 3,
        }
    }

    /// The name of the kind.
    pub fn name(&self) -> (s: &'static str)
        ensures
            s@ == self.text(),
    {
        match self {
            GoodKind::EUR => "EUR",
            GoodKind::YEN => "YEN",
            GoodKind::USD => "USD",
            GoodKind::YUAN => "YUAN",
        }
    }

    /// The kind's name as an owned string.
    pub fn to_string(&self) -> (s: String)
        ensures
            s@ == self.text(),
    {
        String::from_str(self.name())
    }

    /// The place of the kind in an inventory.
    pub fn index(&self) -> (i: usize)
        ensures
            i == self.position(),
    {
        match self {
            GoodKind::EUR => 0,
            GoodKind::YEN => 1,
            GoodKind::USD => 2,
            GoodKind::YUAN => 3,
        }
    }
}

/// The characters of the four names.
pub proof fn lemma_kind_text(kind: GoodKind)
    ensures
        kind == GoodKind::EUR ==> kind.text() == seq!['E', 'U', 'R'],
        kind == GoodKind::YEN ==> kind.text() == seq!['Y', 'E', 'N'],
        kind == GoodKind::USD ==> kind.text() == seq!['U', 'S', 'D'],
        kind == GoodKind::YUAN ==> kind.text() == seq!['Y', 'U', 'A', 'N'],
{
    reveal_strlit("EUR");
    reveal_strlit("YEN");
    reveal_strlit("USD");
    reveal_strlit("YUAN");
    assert("EUR"@ =~= seq!['E', 'U', 'R']);
    assert("YEN"@ =~= seq!['Y', 'E', 'N']);
    assert("USD"@ =~= seq!['U', 'S', 'D']);
    assert("YUAN"@ =~= seq!['Y', 'U', 'A', 'N']);
}

} // verus!
