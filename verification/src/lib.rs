//! Layered settings, stack selection and the squad record with its two
//! textual forms.
//!
//! * [`stack`]: the deployment stack and how the environment selects it.
//! * [`locate`], [`table`], [`source`], [`settings`]: where the settings
//!   sources lie, what a parsed source holds, what each source says, and
//!   how the default and the stack's source are laid over each other.
//! * [`substitute`]: environment variables in the log directory.
//! * [`document`], [`model`], [`decode`], [`encode`]: the squad record and
//!   the document tree that it is read from and written to.
//! * [`transcode`]: from a JSON text to a YAML text.
//! * [`laws`]: what holds of reading and writing together.

pub mod decode;
pub mod document;
pub mod encode;
pub mod laws;
pub mod locate;
pub mod model;
pub mod settings;
pub mod source;
pub mod stack;
pub mod substitute;
pub mod table;
pub mod transcode;
