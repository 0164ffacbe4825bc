use vstd::prelude::*;

verus! {

/// The attendance state an account can be in, as the server reports it.
/// Produced by parsing either an inline script variable or a localized HTML
/// fragment, depending on the deployment generation of the target site.
#[derive(Debug, PartialEq, Eq, Structural)]
pub enum WorkingStatus {
    Working,
    NotWorking,
    Resting,
}

impl WorkingStatus {
    /// The human-readable text for this status, as the shell prints it.
    pub open spec fn label_spec(self) -> Seq<char> {
        match self {
            WorkingStatus::Working => "Working"@,
            WorkingStatus::NotWorking => "Not working"@,
            WorkingStatus::Resting => "Resting"@,
        }
    }

    /// The human-readable text for this status.
    pub fn label(&self) -> (r: String)
        ensures
            r@ == self.label_spec(),
    {
        match self {
            WorkingStatus::Working => "Working".to_owned(),
            WorkingStatus::NotWorking => "Not working".to_owned(),
            WorkingStatus::Resting => "Resting".to_owned(),
        }
    }
}

} // verus!
