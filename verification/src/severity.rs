use vstd::prelude::*;

verus! {

/// The closed set of severity levels a caller may report with.
#[derive(Clone, Copy, PartialEq, Eq, Structural, Debug)]
pub enum ErrorsLevel {
    Severe,
    Error,
    Warning,
    Info,
    Debug,
    Verbose,
}

/// The canonical wire form of each level. The remote collector interprets
/// these exact strings, so the mapping is total and must stay stable.
pub open spec fn canonical_str(level: ErrorsLevel) -> Seq<char> {
    match level {
        ErrorsLevel::Severe => "Severe"@,
        ErrorsLevel::Error => "Error"@,
        ErrorsLevel::Warning => "Warning"@,
        ErrorsLevel::Info => "Info"@,
        ErrorsLevel::Debug => "Debug"@,
        ErrorsLevel::Verbose => "Verbose"@,
    }
}

impl ErrorsLevel {
    /// The canonical string form of this level.
    pub fn to_canonical_string(&self) -> (r: String)
        ensures
            r@ == canonical_str(*self),
    {
        match self {
            ErrorsLevel::Severe => "Severe".to_owned(),
            ErrorsLevel::Error => "Error".to_owned(),
            ErrorsLevel::Warning => "Warning".to_owned(),
            ErrorsLevel::Info => "Info".to_owned(),
            ErrorsLevel::Debug => "Debug".to_owned(),
            ErrorsLevel::Verbose => "Verbose".to_owned(),
        }
    }
}

/// Law: the canonical mapping is injective — no two levels share a wire
/// string, so a collector can always tell the reported levels apart.
pub proof fn lemma_canonical_str_injective(a: ErrorsLevel, b: ErrorsLevel)
    requires
        canonical_str(a) == canonical_str(b),
    ensures
        a == b,
{
    reveal_strlit("Severe");
    reveal_strlit("Error");
    reveal_strlit("Warning");
    reveal_strlit("Info");
    reveal_strlit("Debug");
    reveal_strlit("Verbose");
    assert("Severe"@.len() == 6);
    assert("Error"@.len() == 5);
    assert("Warning"@.len() == 7);
    assert("Info"@.len() == 4);
    assert("Debug"@.len() == 5);
    assert("Verbose"@.len() == 7);
    assert("Error"@[0] == 'E');
    assert("Debug"@[0] == 'D');
    assert("Warning"@[0] == 'W');
    assert("Verbose"@[0] == 'V');
}

} // verus!
