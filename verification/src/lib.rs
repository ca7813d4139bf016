//! A small portfolio-site gateway library.
//!
//! The extractor turns the raw HTML of a portfolio homepage into an ordered
//! sequence of project records, resolving relative links against a fixed
//! origin.  The contact module validates a contact-form submission and
//! composes the outbound email that a mail transport then delivers.
pub mod contact;
pub mod extract;
pub mod text;
