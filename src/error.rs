use vstd::prelude::*;

verus! {

/// Why a lookup could not be carried out.
///
/// A file that is not found is no error: the lookup then succeeds with no path.
#[derive(Debug, Clone, Copy, PartialEq, Eq, Structural)]
pub enum FileLookupError {
    /// The host could not report the current working directory.
    CwdNotFound,
    /// The host could not report the user's home directory.
    HomeDirNotFound,
}

impl FileLookupError {
    /// A sentence that describes the error to a person.
    pub fn message(&self) -> (r: &'static str)
        ensures
            *self == FileLookupError::CwdNotFound ==> r@
                == "Error retrieving current working directory"@,
            *self == FileLookupError::HomeDirNotFound ==> r@
                == "Error retrieving home directory"@,
    {
        proof {
            reveal_strlit("Error retrieving current working directory");
            reveal_strlit("Error retrieving home directory");
        }
        match self {
            FileLookupError::CwdNotFound => "Error retrieving current working directory",
            FileLookupError::HomeDirNotFound => "Error retrieving home directory",
        }
    }
}

} // verus!
