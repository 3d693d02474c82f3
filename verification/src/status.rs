//! HTTP status codes as far as a health check reads them.

use vstd::prelude::*;
use vstd::string::*;

use crate::text::{digit, lemma_occurs_between, occurs_in};

verus! {

/// The reason phrase that `reqwest::StatusCode` displays for the status with
/// number `code`: the phrase that the crate's registry holds for the number,
/// or the crate's placeholder where the registry holds none.
pub uninterp spec fn reason_phrase(code: u16) -> Seq<char>;

/// The three decimal digits of a status number.
pub open spec fn code_digits(code: u16) -> Seq<char> {
    seq![digit(code as int / 100), digit((code as int / 10) % 10), digit(code as int % 10)]
}

/// The text that `reqwest::StatusCode` displays for the status with number
/// `code`: the number, a space, and the reason phrase.
pub open spec fn status_text(code: u16) -> Seq<char> {
    code_digits(code) + seq![' '] + reason_phrase(code)
}

/// Whether `code` is a number that an HTTP reply can carry.
pub open spec fn valid_code(code: u16) -> bool {
    100 <= code <= 999
}

/// Whether a reply with number `code` reports a failure: the client and
/// server error classes, and whatever lies above them.
pub open spec fn failure_code(code: u16) -> bool {
    code >= 400
}

/// The label of a reply that reports a failure. `text` is the display text
/// of the status.
pub open spec fn failure_label(code: u16, text: Seq<char>) -> Seq<char> {
    if code == 404 {
        "Not Found (404)"@
    } else if code == 500 {
        "Internal Server Error (500)"@
    } else {
        "Request failed with status: "@ + text
    }
}

/// The status code of a received reply: a number from 100 to 999.
#[derive(Debug, Clone, Copy, PartialEq, Eq)]
pub struct HttpStatus {
    code: u16,
}

impl View for HttpStatus {
    type V = u16;

    closed spec fn view(&self) -> u16 {
        self.code
    }
}

/// Calls `reqwest::StatusCode::from_u16` and, where that accepts the number,
/// the `Display` impl of the status through `to_string`. Trusted: the number
/// is accepted exactly from 100 to 999, and the text is then the number in
/// decimal, a space, and the reason phrase that `reason_phrase` names.
#[verifier::external_body]
fn display_status(code: u16) -> (text: Option<String>)
    ensures
        text is Some <==> valid_code(code),
        text matches Some(t) ==> t@ == code_digits(code) + seq![' '] + reason_phrase(code),
{
    match reqwest::StatusCode::from_u16(code) {
        Ok(status) => Some(status.to_string()),
        Err(_) => None,
    }
}

impl HttpStatus {
    #[verifier::type_invariant]
    spec fn in_range(self) -> bool {
        valid_code(self.code)
    }

    /// The status with number `code`, if a reply can carry that number.
    pub fn new(code: u16) -> (status: Option<HttpStatus>)
        ensures
            status is Some <==> valid_code(code),
            status matches Some(s) ==> s@ == code,
    {
        if 100 <= code && code <= 999 {
            Some(HttpStatus { code })
        } else {
            None
        }
    }

    /// The number of the status.
    pub fn code(&self) -> (code: u16)
        ensures
            code == self@,
            valid_code(code),
    {
        proof {
            use_type_invariant(self);
        }
        self.code
    }

    /// Whether the reply reports a failure.
    pub fn is_failure(&self) -> (yes: bool)
        ensures
            yes == failure_code(self@),
    {
        self.code >= 400
    }

    /// The label of this status when `text` is its display text.
    pub fn label_with(&self, text: &str) -> (label: String)
        ensures
            label@ == failure_label(self@, text@),
    {
        if self.code == 404 {
            "Not Found (404)".to_owned()
        } else if self.code == 500 {
            "Internal Server Error (500)".to_owned()
        } else {
            "Request failed with status: ".to_owned().concat(text)
        }
    }

    /// The label of this status, with the display text that the HTTP
    /// library gives it.
    pub fn label(&self) -> (label: String)
        ensures
            label@ == failure_label(self@, status_text(self@)),
    {
        proof {
            use_type_invariant(self);
        }
        match display_status(self.code) {
            Some(text) => self.label_with(text.as_str()),
            None => unreached(),
        }
    }
}

/// The label of a failure shows the number of its status.
pub proof fn law_label_shows_number(code: u16)
    requires
        valid_code(code),
    ensures
        occurs_in(code_digits(code), failure_label(code, status_text(code))),
{
    if code == 404 {
        reveal_strlit("Not Found (404)");
        assert("Not Found (404)"@.subrange(11, 11int + code_digits(code).len())
            =~= code_digits(code));
    } else if code == 500 {
        reveal_strlit("Internal Server Error (500)");
        assert("Internal Server Error (500)"@.subrange(
            23,
            23int + code_digits(code).len(),
        ) =~= code_digits(code));
    } else {
        let tail = seq![' '] + reason_phrase(code);
        assert(status_text(code) =~= code_digits(code) + tail);
        lemma_occurs_between("Request failed with status: "@, code_digits(code), tail);
        assert(failure_label(code, status_text(code)) =~= "Request failed with status: "@
            + code_digits(code) + tail);
    }
}

} // verus!
