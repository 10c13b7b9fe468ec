//! Mapping and binding over optional-value and result-or-error containers,
//! with the behaviour of each operation stated and proved.

pub mod custom;
pub mod functor;
pub mod monad;

pub use custom::{MyOption, MyResult};
pub use functor::{ping, Functor};
pub use monad::Monad;
