//! Guest-side agent command handlers.
//!
//! Each operation the host may request (get hostname, get/set virtual CPUs,
//! get/set time, get timezone) is a stateless translation between validated
//! native values and an OS facility.  The validation and decision logic is
//! verified here; the OS calls themselves stand behind small trusted wrappers,
//! and the raw C boundary belongs to the surrounding, unverified shell.

pub mod boundary;
pub mod datetime;
pub mod error;
pub mod hostname;
pub mod logtext;
pub mod vcpus;
pub mod win32;
