//! Error taxonomy of the built-in commands.
//!
//! Every failure is detected at its point of origin and carried outward
//! unchanged: nothing is retried and nothing is downgraded to a warning.

use vstd::prelude::*;

verus! {

/// A failure of the install operation. Each variant names the affected
/// path or string, or carries the text of the underlying cause.
#[derive(Debug)]
pub enum InstallError {
    /// Install was attempted before a build artifact exists.
    NotBuilt,
    /// The installation directory could not be created; carries the
    /// text of the underlying cause.
    DirectoryCreationFailed(String),
    /// The artifact could not be copied; names the destination path.
    CopyFailed(String),
    /// The permission mode string is not a valid octal value; names the
    /// offending string.
    InvalidMode(String),
    /// The permission bits could not be applied to the installed artifact;
    /// carries the text of the underlying cause.
    PermissionSetFailed(String),
}

/// The mathematical shape of an [`InstallError`].
#[verifier::ext_equal]
pub enum InstallErrorModel {
    NotBuilt,
    DirectoryCreationFailed(Seq<char>),
    CopyFailed(Seq<char>),
    InvalidMode(Seq<char>),
    PermissionSetFailed(Seq<char>),
}

impl View for InstallError {
    type V = InstallErrorModel;

    open spec fn view(&self) -> InstallErrorModel {
        match self {
            InstallError::NotBuilt => InstallErrorModel::NotBuilt,
            InstallError::DirectoryCreationFailed(cause) => InstallErrorModel::DirectoryCreationFailed(cause@),
            InstallError::CopyFailed(path) => InstallErrorModel::CopyFailed(path@),
            InstallError::InvalidMode(text) => InstallErrorModel::InvalidMode(text@),
            InstallError::PermissionSetFailed(cause) => InstallErrorModel::PermissionSetFailed(cause@),
        }
    }
}

impl Clone for InstallError {
    fn clone(&self) -> (r: Self)
        ensures
            r@ == self@,
    {
        match self {
            InstallError::NotBuilt => InstallError::NotBuilt,
            InstallError::DirectoryCreationFailed(cause) => InstallError::DirectoryCreationFailed(cause.clone()),
            InstallError::CopyFailed(path) => InstallError::CopyFailed(path.clone()),
            InstallError::InvalidMode(text) => InstallError::InvalidMode(text.clone()),
            InstallError::PermissionSetFailed(cause) => InstallError::PermissionSetFailed(cause.clone()),
        }
    }
}

/// A failure of either built-in command.
#[derive(Debug)]
pub enum CommandError {
    /// The build toolchain subprocess failed or could not be run; carries
    /// the text of the underlying cause.
    BuildFailed(String),
    /// The install operation failed.
    Install(InstallError),
}

/// The mathematical shape of a [`CommandError`].
#[verifier::ext_equal]
pub enum CommandErrorModel {
    BuildFailed(Seq<char>),
    Install(InstallErrorModel),
}

impl View for CommandError {
    type V = CommandErrorModel;

    open spec fn view(&self) -> CommandErrorModel {
        match self {
            CommandError::BuildFailed(cause) => CommandErrorModel::BuildFailed(cause@),
            CommandError::Install(e) => CommandErrorModel::Install(e@),
        }
    }
}

impl Clone for CommandError {
    fn clone(&self) -> (r: Self)
        ensures
            r@ == self@,
    {
        match self {
            CommandError::BuildFailed(cause) => CommandError::BuildFailed(cause.clone()),
            CommandError::Install(e) => CommandError::Install(e.clone()),
        }
    }
}

} // verus!
