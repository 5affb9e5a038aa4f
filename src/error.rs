use vstd::prelude::*;

verus! {

/// Every way the dispatch pipeline can fail.
#[derive(Debug, PartialEq, Eq)]
pub enum ApiError {
    SsmError,
    MissingSecret(String),
    MissingEnvVar(String),
    SupabaseInitialization,
    SupabaseFetch,
    InvalidApiKey,
    InvalidBody,
    BadRequest(String),
    PushMessageBuild,
}

} // verus!
