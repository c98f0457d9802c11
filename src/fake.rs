//! Column value generators, backed by the `mockd` fake-data library.
use vstd::prelude::*;
use crate::value::Value;

verus! {

/// Where the values of one column come from.
///
/// `Constant` always yields the same value; the other variants draw a fresh
/// random value from the fake-data library on every call.
#[derive(Debug, Clone, PartialEq, Eq)]
pub enum Generator {
    Constant(Value),
    Uuid,
    FirstName,
    LastName,
    Email,
    Phone,
    Flag,
}

/// What every value drawn from `g` satisfies.
pub open spec fn produced_by(g: Generator, v: Value) -> bool {
    match g {
        Generator::Constant(c) => v == c,
        Generator::Flag => v is Boolean,
        _ => v is Text,
    }
}

/// Relies on `mockd::unique::uuid_v4`: a fresh random v4 UUID as text.
#[verifier::external_body]
fn fake_uuid() -> String {
    mockd::unique::uuid_v4()
}

/// Relies on `mockd::name::first`: a random first name from its dictionary.
#[verifier::external_body]
fn fake_first_name() -> String {
    mockd::name::first()
}

/// Relies on `mockd::name::last`: a random last name from its dictionary.
#[verifier::external_body]
fn fake_last_name() -> String {
    mockd::name::last()
}

/// Relies on `mockd::contact::email`: a random e-mail address.
#[verifier::external_body]
fn fake_email() -> String {
    mockd::contact::email()
}

/// Relies on `mockd::contact::phone`: a random ten-digit phone number.
#[verifier::external_body]
fn fake_phone() -> String {
    mockd::contact::phone()
}

/// Relies on `mockd::bool_rand::bool`: a random boolean.
#[verifier::external_body]
fn fake_flag() -> bool {
    mockd::bool_rand::bool()
}

/// A copy of `v`.
pub fn copy_value(v: &Value) -> (r: Value)
    ensures
        r == *v,
{
    match v {
        Value::Text(s) => Value::Text(s.clone()),
        Value::Integer(n) => Value::Integer(*n),
        Value::Boolean(b) => Value::Boolean(*b),
    }
}

impl Generator {
    /// Draws one value.
    pub fn generate(&self) -> (v: Value)
        ensures
            produced_by(*self, v),
    {
        match self {
            Generator::Constant(c) => copy_value(c),
            Generator::Uuid => Value::Text(fake_uuid()),
            Generator::FirstName => Value::Text(fake_first_name()),
            Generator::LastName => Value::Text(fake_last_name()),
            Generator::Email => Value::Text(fake_email()),
            Generator::Phone => Value::Text(fake_phone()),
            Generator::Flag => Value::Boolean(fake_flag()),
        }
    }
}

} // verus!
