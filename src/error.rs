use vstd::prelude::*;

verus! {

/// What can go wrong while updating a window's taskbar entry.
#[derive(Clone, Copy, Debug, PartialEq, Eq, Structural)]
pub enum TaskbarError {
    /// The window's native identity could not be obtained (it is closing).
    HandleUnavailable,
    /// The message filter could not be installed on the window.
    SubclassInstallFailed,
    /// The shared window registry could not be locked.
    RegistryUnavailable,
    /// A pixel buffer does not hold `width * height * 4` bytes.
    SizeMismatch,
    /// The platform did not hand out a usable bitmap surface.
    SurfaceAllocationFailed,
    /// The platform could not fold a color bitmap and a mask into an icon.
    IconAssemblyFailed,
    /// The platform rejected an add or update of the button row.
    ButtonOperationFailed,
    /// The compositor declined the thumbnail bitmap.
    ThumbnailRejected,
}

/// The text of an error handed to the caller: the variant's name, as its `Debug`
/// rendering prints it.
pub open spec fn error_text(err: TaskbarError) -> Seq<char> {
    match err {
        TaskbarError::HandleUnavailable => "HandleUnavailable"@,
        TaskbarError::SubclassInstallFailed => "SubclassInstallFailed"@,
        TaskbarError::RegistryUnavailable => "RegistryUnavailable"@,
        TaskbarError::SizeMismatch => "SizeMismatch"@,
        TaskbarError::SurfaceAllocationFailed => "SurfaceAllocationFailed"@,
        TaskbarError::IconAssemblyFailed => "IconAssemblyFailed"@,
        TaskbarError::ButtonOperationFailed => "ButtonOperationFailed"@,
        TaskbarError::ThumbnailRejected => "ThumbnailRejected"@,
    }
}

/// Renders an error as the text handed back to the application layer: its `Debug`
/// rendering, the variant's name.
pub fn anyhow_to_string(err: TaskbarError) -> (r: String)
    ensures
        r@ == error_text(err),
{
    let text: &str = match err {
        TaskbarError::HandleUnavailable => "HandleUnavailable",
        TaskbarError::SubclassInstallFailed => "SubclassInstallFailed",
        TaskbarError::RegistryUnavailable => "RegistryUnavailable",
        TaskbarError::SizeMismatch => "SizeMismatch",
        TaskbarError::SurfaceAllocationFailed => "SurfaceAllocationFailed",
        TaskbarError::IconAssemblyFailed => "IconAssemblyFailed",
        TaskbarError::ButtonOperationFailed => "ButtonOperationFailed",
        TaskbarError::ThumbnailRejected => "ThumbnailRejected",
    };
    text.to_owned()
}

} // verus!
