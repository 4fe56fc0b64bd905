//! Verified core of an adapter between the host's allocation contract and a
//! native heap allocator with a control namespace.
//!
//! The native entry points themselves are called by the surrounding program;
//! this library holds the decisions around them: key validation, the meaning
//! of return codes, layout adjustment, flag encoding and the checks that the
//! allocator's answers must pass.

pub mod adapter;
pub mod error;
pub mod flags;
pub mod key;
pub mod layout;

pub use adapter::{
    alloc_request, alloc_zeroed_request, dealloc_request, realloc_request, SizedRequest,
};
pub use error::{cvt, Error};
pub use flags::{mallocx_align, mallocx_flags, MALLOCX_ZERO};
pub use key::{is_terminated, ptr2str, validate_name};
pub use layout::{adjust_layout, is_power_of_two, Layout, MAX_SIZE, QUANTUM};
