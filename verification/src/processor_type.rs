//! The two payment processors.

use crate::text::str_eq;
use vstd::prelude::*;
use vstd::string::StringExecFns;

verus! {

/// Which of the two external payment services handled a payment.
#[derive(Debug, Clone, Copy, PartialEq, Eq, Hash, Structural)]
pub enum ProcessorType {
    Default,
    Fallback,
}

/// The name of the database enum that stores a processor.
pub const SERVICE_TYPE_NAME: &'static str = "service_type";

impl ProcessorType {
    /// The label under which the processor is stored and printed.
    pub open spec fn label(self) -> Seq<char> {
        match self {
            ProcessorType::Default => "default"@,
            ProcessorType::Fallback => "fallback"@,
        }
    }

    /// The label as a string slice.
    pub fn as_str(&self) -> (r: &'static str)
        ensures
            r@ == self.label(),
    {
        match self {
            ProcessorType::Default => "default",
            ProcessorType::Fallback => "fallback",
        }
    }

    /// Whether a database type holds processors: the enum by its name, or
    /// the type that stands for any enum.
    pub fn accepts(sql_type: &str, any_enum: bool) -> (r: bool)
        ensures
            r == (sql_type@ == SERVICE_TYPE_NAME@ || any_enum),
    {
        str_eq(sql_type, SERVICE_TYPE_NAME) || any_enum
    }

    /// The label as an owned string.
    pub fn to_string(&self) -> (r: String)
        ensures
            r@ == self.label(),
    {
        String::from_str(self.as_str())
    }
}

} // verus!
