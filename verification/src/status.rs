//! HTTP status codes as the client reads them.

use vstd::prelude::*;

verus! {

/// The status of an HTTP answer: a number from 100 to 999.
#[derive(Debug, PartialEq, Eq)]
pub struct StatusCode {
    code: u16,
}

/// Whether `code` can be the status of an answer.
pub open spec fn status_range(code: int) -> bool {
    100 <= code <= 999
}

/// Whether `code` stands for success: the codes from 200 to 299.
pub open spec fn success_code(code: int) -> bool {
    200 <= code <= 299
}

/// The line `reqwest::StatusCode` prints for `code`: the number and the
/// reason that goes with it.
pub uninterp spec fn status_line(code: u16) -> Seq<char>;

/// Prints a status by `reqwest::StatusCode::from_u16` and that type's
/// `Display`. For a number from 100 to 999 the first always succeeds, and the
/// second writes the number, a space and the reason phrase that the crate
/// holds for the number, or a note that it holds none. The line depends on
/// the number alone and is named `status_line`.
#[verifier::external_body]
fn print_status(code: u16) -> (line: String)
    requires
        status_range(code as int),
    ensures
        line@ == status_line(code),
{
    match reqwest::StatusCode::from_u16(code) {
        Ok(status) => status.to_string(),
        Err(_) => String::new(),
    }
}

impl View for StatusCode {
    type V = u16;

    closed spec fn view(&self) -> u16 {
        self.code
    }
}

impl StatusCode {
    #[verifier::type_invariant]
    spec fn in_range(&self) -> bool {
        status_range(self.code as int)
    }

    /// The status with the number `code`, if there is one.
    pub fn from_u16(code: u16) -> (status: Option<StatusCode>)
        ensures
            status is Some <==> status_range(code as int),
            status matches Some(s) ==> s@ == code,
    {
        if 100 <= code && code <= 999 {
            Some(StatusCode { code })
        } else {
            None
        }
    }

    /// The number of this status.
    pub fn as_u16(&self) -> (code: u16)
        ensures
            code == self@,
            status_range(code as int),
    {
        proof {
            use_type_invariant(self);
        }
        self.code
    }

    /// Tells whether the service answered with a success.
    pub fn is_success(&self) -> (ok: bool)
        ensures
            ok == success_code(self@ as int),
    {
        200 <= self.code && self.code <= 299
    }

    /// The status as a line of text: its number and its reason.
    pub fn text(&self) -> (line: String)
        ensures
            line@ == status_line(self@),
    {
        proof {
            use_type_invariant(self);
        }
        print_status(self.code)
    }
}

impl Clone for StatusCode {
    fn clone(&self) -> (copy: Self)
        ensures
            copy@ == self@,
    {
        proof {
            use_type_invariant(self);
        }
        StatusCode { code: self.code }
    }
}

} // verus!
