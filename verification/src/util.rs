//! Utilities.
