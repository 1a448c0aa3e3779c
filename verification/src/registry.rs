//! The repository lifecycle and metadata registry: the decisions of the
//! creation endpoint, separated from the I/O that carries them out.
//!
//! The host drives `add_repo_step` as a protocol: starting from
//! `ensure_repos_dir`, it performs each returned action against the
//! outside world (create the directory, parse the payload, initialize the
//! bare repository, read, serialize and write the registry file) and
//! feeds the observed outcome back in, until the action is a response.

use vstd::prelude::*;

verus! {

/// One registry record: a repository's name and its description.
#[derive(Debug, Clone, PartialEq)]
pub struct RepoDetails {
    pub name: String,
    pub description: String,
}

/// The registry after adding one record: the previous records, in order,
/// with the new one appended at the end.
pub fn updated_registry(prev: Vec<RepoDetails>, entry: RepoDetails) -> (r: Vec<RepoDetails>)
    ensures
        r@ == prev@.push(entry),
{
    let mut r = prev;
    r.push(entry);
    r
}

/// What the creation endpoint observed while performing an action.
#[derive(Debug, Clone, Copy, PartialEq, Eq, Structural)]
pub enum AddRepoEvent {
    /// The repository directory already exists, or was created.
    DirReady,
    /// The repository directory could not be created.
    DirCreateFailed,
    /// The request payload parsed into a registry record.
    PayloadParsed,
    /// The request payload is not a valid record.
    PayloadInvalid,
    /// The named bare repository already exists, or was initialized.
    RepoReady,
    /// The bare repository could not be initialized.
    RepoInitFailed,
    /// No registry file exists yet.
    RegistryMissing,
    /// A registry file exists.
    RegistryPresent,
    /// The fresh one-record registry was serialized.
    FreshSerialized,
    /// The fresh registry could not be serialized.
    FreshSerializeFailed,
    /// The fresh registry file was written.
    FreshWritten,
    /// The fresh registry file could not be written.
    FreshWriteFailed,
    /// The registry file was read.
    RegistryRead,
    /// The registry file could not be read.
    RegistryReadFailed,
    /// The registry file's contents did not parse as records.
    RegistryParseFailed,
    /// The extended registry was serialized.
    AppendSerialized,
    /// The extended registry could not be serialized.
    AppendSerializeFailed,
    /// The extended registry file was written.
    AppendWritten,
    /// The extended registry file could not be written.
    AppendWriteFailed,
}

/// What the host must do next.
#[derive(Debug, Clone, Copy, PartialEq, Eq, Structural)]
pub enum AddRepoAction {
    /// Create the repository directory if it is absent.
    EnsureReposDir,
    /// Parse the request payload into a record.
    ParsePayload,
    /// Initialize the named bare repository if it is absent.
    EnsureRepo,
    /// Test whether a registry file exists.
    CheckRegistry,
    /// Serialize a registry holding only the new record.
    SerializeFresh,
    /// Write the serialized fresh registry.
    WriteFresh,
    /// Read the registry file.
    ReadRegistry,
    /// Append the new record and serialize the result.
    SerializeAppend,
    /// Write the serialized extended registry.
    WriteAppend,
    /// Answer the client; the protocol is over.
    Respond(AddRepoResponse),
}

/// The endpoint's answers, as the original host gave them: a plain
/// success for a first record, a created status for an appended one, a
/// polite note for bad payloads, and a server error naming the step that
/// failed.
#[derive(Debug, Clone, Copy, PartialEq, Eq, Structural)]
pub enum AddRepoResponse {
    /// Status 200 with an empty body: first record written.
    OkEmpty,
    /// Status 201 with an empty body: record appended.
    Created,
    /// Status 200 telling the client the payload was invalid.
    InvalidPayload,
    /// Status 500: the repository directory could not be created.
    ErrCreateDir,
    /// Status 500: the bare repository could not be initialized.
    ErrInitRepo,
    /// Status 500: a registry could not be serialized.
    ErrSerialize,
    /// Status 500: the registry file could not be written.
    ErrWrite,
    /// Status 500: the registry file could not be read.
    ErrRead,
    /// Status 500: the registry file could not be parsed.
    ErrDeserialize,
}

/// The decision table of the creation endpoint: the action owed after
/// each observed event.
pub open spec fn spec_add_repo_step(event: AddRepoEvent) -> AddRepoAction {
    match event {
        AddRepoEvent::DirReady => AddRepoAction::ParsePayload,
        AddRepoEvent::DirCreateFailed => AddRepoAction::Respond(AddRepoResponse::ErrCreateDir),
        AddRepoEvent::PayloadParsed => AddRepoAction::EnsureRepo,
        AddRepoEvent::PayloadInvalid => AddRepoAction::Respond(AddRepoResponse::InvalidPayload),
        AddRepoEvent::RepoReady => AddRepoAction::CheckRegistry,
        AddRepoEvent::RepoInitFailed => AddRepoAction::Respond(AddRepoResponse::ErrInitRepo),
        AddRepoEvent::RegistryMissing => AddRepoAction::SerializeFresh,
        AddRepoEvent::RegistryPresent => AddRepoAction::ReadRegistry,
        AddRepoEvent::FreshSerialized => AddRepoAction::WriteFresh,
        AddRepoEvent::FreshSerializeFailed => AddRepoAction::Respond(AddRepoResponse::ErrSerialize),
        AddRepoEvent::FreshWritten => AddRepoAction::Respond(AddRepoResponse::OkEmpty),
        AddRepoEvent::FreshWriteFailed => AddRepoAction::Respond(AddRepoResponse::ErrWrite),
        AddRepoEvent::RegistryRead => AddRepoAction::SerializeAppend,
        AddRepoEvent::RegistryReadFailed => AddRepoAction::Respond(AddRepoResponse::ErrRead),
        AddRepoEvent::RegistryParseFailed => AddRepoAction::Respond(
            AddRepoResponse::ErrDeserialize,
        ),
        AddRepoEvent::AppendSerialized => AddRepoAction::WriteAppend,
        AddRepoEvent::AppendSerializeFailed => AddRepoAction::Respond(
            AddRepoResponse::ErrSerialize,
        ),
        AddRepoEvent::AppendWritten => AddRepoAction::Respond(AddRepoResponse::Created),
        AddRepoEvent::AppendWriteFailed => AddRepoAction::Respond(AddRepoResponse::ErrWrite),
    }
}

/// The first action of the creation endpoint.
pub fn add_repo_start() -> (a: AddRepoAction)
    ensures
        a == AddRepoAction::EnsureReposDir,
{
    AddRepoAction::EnsureReposDir
}

/// The action owed after an observed event, exactly as the decision
/// table states it.
pub fn add_repo_step(event: AddRepoEvent) -> (a: AddRepoAction)
    ensures
        a == spec_add_repo_step(event),
{
    match event {
        AddRepoEvent::DirReady => AddRepoAction::ParsePayload,
        AddRepoEvent::DirCreateFailed => AddRepoAction::Respond(AddRepoResponse::ErrCreateDir),
        AddRepoEvent::PayloadParsed => AddRepoAction::EnsureRepo,
        AddRepoEvent::PayloadInvalid => AddRepoAction::Respond(AddRepoResponse::InvalidPayload),
        AddRepoEvent::RepoReady => AddRepoAction::CheckRegistry,
        AddRepoEvent::RepoInitFailed => AddRepoAction::Respond(AddRepoResponse::ErrInitRepo),
        AddRepoEvent::RegistryMissing => AddRepoAction::SerializeFresh,
        AddRepoEvent::RegistryPresent => AddRepoAction::ReadRegistry,
        AddRepoEvent::FreshSerialized => AddRepoAction::WriteFresh,
        AddRepoEvent::FreshSerializeFailed => AddRepoAction::Respond(AddRepoResponse::ErrSerialize),
        AddRepoEvent::FreshWritten => AddRepoAction::Respond(AddRepoResponse::OkEmpty),
        AddRepoEvent::FreshWriteFailed => AddRepoAction::Respond(AddRepoResponse::ErrWrite),
        AddRepoEvent::RegistryRead => AddRepoAction::SerializeAppend,
        AddRepoEvent::RegistryReadFailed => AddRepoAction::Respond(AddRepoResponse::ErrRead),
        AddRepoEvent::RegistryParseFailed => AddRepoAction::Respond(
            AddRepoResponse::ErrDeserialize,
        ),
        AddRepoEvent::AppendSerialized => AddRepoAction::WriteAppend,
        AddRepoEvent::AppendSerializeFailed => AddRepoAction::Respond(
            AddRepoResponse::ErrSerialize,
        ),
        AddRepoEvent::AppendWritten => AddRepoAction::Respond(AddRepoResponse::Created),
        AddRepoEvent::AppendWriteFailed => AddRepoAction::Respond(AddRepoResponse::ErrWrite),
    }
}

/// The HTTP status a response carries: 201 for an appended record, 500
/// for the server-side failures, 200 otherwise.
pub fn add_repo_status(r: &AddRepoResponse) -> (s: u16)
    ensures
        s == 200 <==> (*r is OkEmpty || *r is InvalidPayload),
        s == 201 <==> *r is Created,
        s == 200 || s == 201 || s == 500,
{
    match r {
        AddRepoResponse::OkEmpty => 200,
        AddRepoResponse::Created => 201,
        AddRepoResponse::InvalidPayload => 200,
        AddRepoResponse::ErrCreateDir => 500,
        AddRepoResponse::ErrInitRepo => 500,
        AddRepoResponse::ErrSerialize => 500,
        AddRepoResponse::ErrWrite => 500,
        AddRepoResponse::ErrRead => 500,
        AddRepoResponse::ErrDeserialize => 500,
    }
}

} // verus!
