//! Copy-on-write domain names.
//!
//! A domain name is an ordered sequence of labels together with a flag that
//! says whether the name is fully qualified. This crate offers several
//! representations of a name (an owned one, one that indexes into a decode
//! buffer, a light view over either) and [`CowName`], which holds any of them
//! and allocates an owned copy only when a caller asks to mutate it.
//!
//! Every representation implements [`DnsName`], whose spec function `model`
//! gives the [`NameView`] that all contracts speak of; for the types of this
//! crate it is their view.

pub mod borrowed;
pub mod cow;
pub mod dns_name;
pub mod label;
pub mod name;
pub mod name_ref;

pub use borrowed::BorrowedName;
pub use cow::CowName;
pub use dns_name::{DnsName, NameView};
pub use label::{LabelIter, LabelSpan};
pub use name::Name;
pub use name_ref::NameRef;
