use vstd::prelude::*;

verus! {

/// The errors of the library.
#[derive(Debug)]
pub enum Error {
    InvalidTemplate(String),
    MissingTemplateVersion,
    UnsupportedTemplateVersion(u32),
    UnknownImage(String),
    UnknownInstance(String),
    InstanceNotRunning(String),
    SystemCommandNotFound(String),
    SystemCommandFailed(String, String),
    QemuNotFound,
}

} // verus!
