//! System properties.
use vstd::prelude::*;
use crate::common::Integer;
use crate::tinyint::TinyInt;

verus! {

#[derive(Clone, Copy, Debug, PartialEq, Eq, Hash, Structural)]
#[non_exhaustive]
pub enum PropertyDataType {
    String,
    Number,
    Boolean,
    Json,
    Date,
    Datetime,
}

/// A system property as it can be sent to be updated or inserted.
#[derive(Clone, Debug)]
pub struct SystemProperty {
    pub id: Integer,
    pub name: String,
    pub value: String,
    pub default_value: Option<String>,
    pub is_read_only: TinyInt,
    pub is_password: TinyInt,
    pub data_type: PropertyDataType,
    pub description: Option<String>,
}

} // verus!
