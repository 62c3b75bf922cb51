use vstd::prelude::*;

use crate::text::text_eq;

verus! {

/// The deployment stage the application runs in.
#[derive(Debug, Clone, Copy, PartialEq, Eq, Structural)]
pub enum Environments {
    DEV,
    STG,
    UAT,
    PRO,
}

/// The stage a configuration name selects: the three known names map to
/// their stage, anything else falls back to development.
pub open spec fn spec_parse_environment(name: Seq<char>) -> Environments {
    if name == "PRO"@ {
        Environments::PRO
    } else if name == "UAT"@ {
        Environments::UAT
    } else if name == "STG"@ {
        Environments::STG
    } else {
        Environments::DEV
    }
}

/// Each of the three known names selects its own stage, and a stage other
/// than development is selected only by its own name.
pub proof fn lemma_environment_names(name: Seq<char>)
    ensures
        spec_parse_environment("PRO"@) == Environments::PRO,
        spec_parse_environment("UAT"@) == Environments::UAT,
        spec_parse_environment("STG"@) == Environments::STG,
        spec_parse_environment(name) == Environments::PRO ==> name == "PRO"@,
        spec_parse_environment(name) == Environments::UAT ==> name == "UAT"@,
        spec_parse_environment(name) == Environments::STG ==> name == "STG"@,
{
    reveal_strlit("PRO");
    reveal_strlit("UAT");
    reveal_strlit("STG");
    assert("UAT"@[0] != "PRO"@[0]);
    assert("STG"@[0] != "PRO"@[0]);
    assert("STG"@[0] != "UAT"@[0]);
}

impl Environments {
    /// Reads a stage name; unknown names select `DEV`.
    pub fn parse(environment: &str) -> (res: Self)
        ensures
            res == spec_parse_environment(environment@),
    {
        if text_eq(environment, "PRO") {
            Environments::PRO
        } else if text_eq(environment, "UAT") {
            Environments::UAT
        } else if text_eq(environment, "STG") {
            Environments::STG
        } else {
            Environments::DEV
        }
    }
}

} // verus!
