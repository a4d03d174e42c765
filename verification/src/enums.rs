//! Small enumerations and the conversions around them.

use std::cmp::Ordering;
use vstd::prelude::*;

verus! {

/// Compares two numbers.
pub fn compare(n: i32, m: i32) -> (order: Ordering)
    ensures
        n < m <==> order == Ordering::Less,
        n == m <==> order == Ordering::Equal,
        n > m <==> order == Ordering::Greater,
{
    if n < m {
        Ordering::Less
    } else if n > m {
        Ordering::Greater
    } else {
        Ordering::Equal
    }
}

/// A kind of pet.
pub enum Pet {
    Orca,
    Giraffe,
    Dog,
    Cat,
}

/// The status of an HTTP response, for the few codes that are known here.
#[derive(Copy, Clone, Debug, PartialEq, Eq, Structural)]
pub enum HttpStatus {
    Okay,
    NotModified,
    NotFound,
}

impl HttpStatus {
    /// The number that stands for this status on the wire.
    pub open spec fn code_of(self) -> u32 {
        match self {
            HttpStatus::Okay => 200,
            HttpStatus::NotModified => 304,
            HttpStatus::NotFound => 404,
        }
    }

    /// Returns the number that stands for this status on the wire.
    pub fn code(self) -> (n: u32)
        ensures
            n == self.code_of(),
    {
        match self {
            HttpStatus::Okay => 200,
            HttpStatus::NotModified => 304,
            HttpStatus::NotFound => 404,
        }
    }
}

/// Finds the status that a number stands for: `Some` for 200, 304 and 404,
/// `None` for every other number.
pub fn http_status_from_u32(n: u32) -> (status: Option<HttpStatus>)
    ensures
        status is Some <==> n == 200 || n == 304 || n == 404,
        n == 200 ==> status == Some(HttpStatus::Okay),
        n == 304 ==> status == Some(HttpStatus::NotModified),
        n == 404 ==> status == Some(HttpStatus::NotFound),
        forall|known: HttpStatus| status == Some(known) <==> known.code_of() == n,
{
    match n {
        200 => Some(HttpStatus::Okay),
        304 => Some(HttpStatus::NotModified),
        404 => Some(HttpStatus::NotFound),
        _ => None,
    }
}

} // verus!
