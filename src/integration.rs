use vstd::prelude::*;

use std::sync::mpsc::{Receiver, RecvError, Sender};
use std::sync::{Arc, Mutex};

verus! {

#[verifier::external_type_specification]
#[verifier::external_body]
#[verifier::reject_recursive_types(T)]
pub struct ExReceiver<T>(Receiver<T>);

#[verifier::external_type_specification]
#[verifier::external_body]
#[verifier::reject_recursive_types(T)]
pub struct ExSender<T>(Sender<T>);

#[verifier::external_type_specification]
#[verifier::external_body]
#[verifier::reject_recursive_types(T)]
pub struct ExMutex<T: ?Sized>(Mutex<T>);

#[verifier::external_type_specification]
#[verifier::external_body]
pub struct ExRecvError(RecvError);

/// Relies on std::sync::mpsc::channel: it creates a channel and returns its
/// sending and its receiving end.
pub assume_specification<T>[ std::sync::mpsc::channel::<T> ]() -> (Sender<T>, Receiver<T>);

/// Relies on std::sync::Mutex::new: it wraps a value in a new, unlocked mutex.
pub assume_specification<T>[ Mutex::<T>::new ](t: T) -> Mutex<T>;

/// Relies on std::sync::mpsc::Receiver::recv: it blocks until a value
/// arrives, and fails once every sender is gone.
pub assume_specification<T>[ Receiver::<T>::recv ](r: &Receiver<T>) -> Result<T, RecvError>;

/// Why the desktop integration could not be set up.
#[derive(Clone, Copy, Debug, PartialEq, Eq, Structural)]
pub enum IntegrationError {
    /// The platform refused the native hooks.
    Unavailable,
}

/// The receiving end of the desktop integration: paths of files that the
/// platform hands to the application (dropped on its icon, say).
pub struct MacOSIntegration {
    receiver: Receiver<String>,
}

impl MacOSIntegration {
    fn new(receiver: Receiver<String>) -> (r: MacOSIntegration) {
        MacOSIntegration { receiver }
    }

    /// Waits for the next file path; `None` once no sender is left.
    pub fn wait_for_file(&self) -> (r: Option<String>) {
        match self.receiver.recv() {
            Ok(path) => Some(path),
            Err(_) => None,
        }
    }
}

/// Sets up the native hooks that send file paths to `_sender`. None exist
/// yet, so this always succeeds.
fn setup_cocoa_app_and_integration(_sender: Arc<Mutex<Sender<String>>>) -> (r: Result<
    (),
    IntegrationError,
>)
    ensures
        r is Ok,
{
    Ok(())
}

/// Sets up the desktop integration: a channel whose sending end goes to the
/// native hooks, and whose receiving end the returned handler holds.
pub fn setup_macos_integration() -> (r: Result<Arc<MacOSIntegration>, IntegrationError>)
    ensures
        r is Ok,
{
    let (sender, receiver) = std::sync::mpsc::channel::<String>();
    let sender = Arc::new(Mutex::new(sender));
    match setup_cocoa_app_and_integration(sender) {
        Ok(()) => Ok(Arc::new(MacOSIntegration::new(receiver))),
        Err(e) => Err(e),
    }
}

/// Prepares the desktop environment. The windowing layer does all that is
/// needed so far, so there is nothing to do.
pub fn setup_macos_environment() {
}

} // verus!
