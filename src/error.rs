use vstd::prelude::*;

verus! {

/// `std::io::Error`, carried as the cause of a file error.
#[verifier::external_type_specification]
#[verifier::external_body]
pub struct ExIoError(std::io::Error);

/// `serde_json::Error`, carried as the cause of a serialisation error.
#[verifier::external_type_specification]
#[verifier::external_body]
pub struct ExJsonError(serde_json::Error);

/// Why writing the snapshot out failed; each case keeps its cause.
pub enum AppError {
    /// The output file could not be created.
    FileCreation(std::io::Error),
    /// Writing to the output file failed.
    FileWrite(std::io::Error),
    /// The snapshot could not be turned into JSON.
    JsonSerialization(serde_json::Error),
}

/// The text that opens the description of each kind of error.
pub open spec fn error_prefix(e: AppError) -> Seq<char> {
    match e {
        AppError::FileCreation(_) => "Failed to create file: "@,
        AppError::FileWrite(_) => "Failed to write to file: "@,
        AppError::JsonSerialization(_) => "Failed to serialize data to JSON: "@,
    }
}

/// The description of an error of the kind that `prefix` opens, with the
/// cause's own text after it.
pub fn describe(prefix: &str, cause: &str) -> (r: String)
    ensures
        r@ == prefix@ + cause@,
{
    let mut s = String::from_str(prefix);
    s.append(cause);
    s
}

impl AppError {
    /// One line that describes the error: what failed, then the cause's text.
    pub fn message(&self) -> (r: String)
        ensures
            error_prefix(*self).len() <= r@.len(),
            r@.subrange(0, error_prefix(*self).len() as int) == error_prefix(*self),
    {
        let (prefix, cause) = match self {
            AppError::FileCreation(e) => ("Failed to create file: ", e.to_string()),
            AppError::FileWrite(e) => ("Failed to write to file: ", e.to_string()),
            AppError::JsonSerialization(e) => ("Failed to serialize data to JSON: ", e.to_string()),
        };
        let r = describe(prefix, cause.as_str());
        assert(r@.subrange(0, prefix@.len() as int) =~= prefix@);
        r
    }
}

} // verus!
