//! The code types of the built-in kinds that take no parameter.

use crate::descriptor::TypeView;
use vstd::prelude::*;

verus! {

/// A point in time: a `DateTime` in C#.
#[derive(Clone, Copy, Debug)]
pub struct TimestampCodeType;

impl View for TimestampCodeType {
    type V = TypeView;

    open spec fn view(&self) -> TypeView {
        TypeView::Timestamp
    }
}

impl TimestampCodeType {
    pub fn type_label(&self) -> (label: String)
        ensures
            label@ == "DateTime"@,
    {
        String::from_str("DateTime")
    }

    pub fn canonical_name(&self) -> (name: String)
        ensures
            name@ == "Timestamp"@,
    {
        String::from_str("Timestamp")
    }

    /// A timestamp needs nothing run at load time.
    pub fn initialization_fn(&self) -> (hook: Option<String>)
        ensures
            hook is None,
    {
        None
    }
}

/// A span of time: a `TimeSpan` in C#.
#[derive(Clone, Copy, Debug)]
pub struct DurationCodeType;

impl View for DurationCodeType {
    type V = TypeView;

    open spec fn view(&self) -> TypeView {
        TypeView::Duration
    }
}

impl DurationCodeType {
    pub fn type_label(&self) -> (label: String)
        ensures
            label@ == "TimeSpan"@,
    {
        String::from_str("TimeSpan")
    }

    pub fn canonical_name(&self) -> (name: String)
        ensures
            name@ == "Duration"@,
    {
        String::from_str("Duration")
    }

    /// A duration needs nothing run at load time.
    pub fn initialization_fn(&self) -> (hook: Option<String>)
        ensures
            hook is None,
    {
        None
    }
}

} // verus!
