//! Points: named, typed values with a status, a cause of transmission and a
//! time stamp, as the services exchange them.
//!
//! A floating-point payload is held by its IEEE 754 bit pattern: the logic of
//! this crate never computes with it, it only carries it.
use vstd::prelude::*;

verus! {

/// Status of a point's value; `Good` is the status of a valid, current value.
#[derive(Debug, Clone, Copy, PartialEq, Eq, Structural)]
pub enum Status {
    Good,
    Obsolete,
    TimeInvalid,
    Invalid,
}

/// Cause of transmission of a point.
#[derive(Debug, Clone, Copy, PartialEq, Eq, Structural)]
pub enum Cot {
    /// Information: a value read from the source.
    Inf,
    /// Activation: a command.
    Act,
    /// Activation confirmed.
    ActCon,
    /// Activation failed.
    ActErr,
    /// Request.
    Req,
    /// Request confirmed.
    ReqCon,
    /// Request failed.
    ReqErr,
}

/// Type of a point's value.
#[derive(Debug, Clone, Copy, PartialEq, Eq, Structural)]
pub enum PointType {
    Bool,
    Int,
    Real,
    Double,
    String,
    Bytes,
}

/// The value of a point.
#[derive(Debug, Clone)]
pub enum Value {
    Bool(bool),
    Int(i64),
    /// An `f32`, by its bit pattern.
    Real(u32),
    /// An `f64`, by its bit pattern.
    Double(u64),
    String(String),
    Bytes(Vec<u8>),
}

/// A named value with its status, cause of transmission and time stamp, as
/// sent from one service to another.
#[derive(Debug, Clone)]
pub struct Point {
    pub tx_id: usize,
    pub name: String,
    pub value: Value,
    pub status: Status,
    pub cot: Cot,
    /// The time the value belongs to, in nanoseconds since the Unix epoch (UTC).
    pub timestamp: i64,
}

/// The type of a value.
pub open spec fn spec_value_type(v: Value) -> PointType {
    match v {
        Value::Bool(_) => PointType::Bool,
        Value::Int(_) => PointType::Int,
        Value::Real(_) => PointType::Real,
        Value::Double(_) => PointType::Double,
        Value::String(_) => PointType::String,
        Value::Bytes(_) => PointType::Bytes,
    }
}

impl Value {
    /// Returns the type of the value.
    pub fn type_(&self) -> (res: PointType)
        ensures
            res == spec_value_type(*self),
    {
        match self {
            Value::Bool(_) => PointType::Bool,
            Value::Int(_) => PointType::Int,
            Value::Real(_) => PointType::Real,
            Value::Double(_) => PointType::Double,
            Value::String(_) => PointType::String,
            Value::Bytes(_) => PointType::Bytes,
        }
    }
}

} // verus!
