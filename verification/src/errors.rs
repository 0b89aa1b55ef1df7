//! Error taxonomy: user input faults, backend faults carrying the cluster's
//! status, and internal faults. Each maps to one HTTP status code and to a
//! plain-text body naming the violation and, where applicable, the allowed
//! values.

use crate::text::chars_to_string;
use crate::text::push_micro_degrees;
use crate::text::push_str_chars;
use crate::text::spec_micro_degrees;
use vstd::prelude::*;

verus! {

/// A user-supplied parameter failed a check. Coordinate payloads are in
/// micro-degrees, as in the requests.
#[derive(Debug)]
pub enum ValidationError {
    Lon(i64),
    Lat(i64),
    Bbox([i64; 4]),
    Layer { value: String, valid: Vec<String> },
    Lang { value: String, valid: Vec<String> },
    LocationBias,
}

/// A fault of the whole pipeline: bad input, a backend error (with the
/// backend's own status code, when it sent one), or an internal fault.
#[derive(Debug)]
pub enum PhotonError {
    Validation(ValidationError),
    Backend { status: Option<u16>, message: String },
    Internal(String),
}

impl PhotonError {
    /// The HTTP status code this fault maps to: 400 for validation faults,
    /// the backend's own code when it sent one, 418 for a backend fault
    /// without a code, and 500 for internal faults.
    pub fn status_code(&self) -> (code: u16)
        ensures
            code == match *self {
                PhotonError::Validation(_) => 400u16,
                PhotonError::Backend { status, .. } => match status {
                    Some(s) => s,
                    None => 418u16,
                },
                PhotonError::Internal(_) => 500u16,
            },
    {
        match self {
            PhotonError::Validation(_) => 400,
            PhotonError::Backend { status, .. } => match status {
                Some(s) => *s,
                None => 418,
            },
            PhotonError::Internal(_) => 500,
        }
    }

    /// The plain-text body of the fault: the validation message, or the
    /// backend's or internal diagnostic verbatim.
    pub fn message(&self) -> (r: String)
        ensures
            r@ == match *self {
                PhotonError::Validation(e) => spec_validation_message(e),
                PhotonError::Backend { status: _, message } => message@,
                PhotonError::Internal(m) => m@,
            },
    {
        match self {
            PhotonError::Validation(e) => e.message(),
            PhotonError::Backend { status: _, message } => message.clone(),
            PhotonError::Internal(m) => m.clone(),
        }
    }
}

/// One list entry in quotes.
pub open spec fn spec_quoted(s: Seq<char>) -> Seq<char> {
    seq!['"'] + s + seq!['"']
}

/// The quoted entries joined by a comma and a space.
pub open spec fn spec_quoted_items(items: Seq<Seq<char>>) -> Seq<char>
    decreases items.len(),
{
    if items.len() == 0 {
        Seq::<char>::empty()
    } else if items.len() == 1 {
        spec_quoted(items[0])
    } else {
        spec_quoted(items[0]) + ", "@ + spec_quoted_items(items.drop_first())
    }
}

/// The list rendering: the quoted entries in brackets.
pub open spec fn spec_quoted_list(items: Seq<Seq<char>>) -> Seq<char> {
    seq!['['] + spec_quoted_items(items) + seq![']']
}

/// What each validation fault says: the offending value, and the range or
/// the allowed values.
pub open spec fn spec_validation_message(e: ValidationError) -> Seq<char> {
    match e {
        ValidationError::Lon(v) => "invalid lon \""@ + spec_micro_degrees(v as int)
            + "\". Must be in the range [-180, 180]"@,
        ValidationError::Lat(v) => "invalid lat \""@ + spec_micro_degrees(v as int)
            + "\". Must be in the range [-90, 90]"@,
        ValidationError::Bbox(b) => "invalid bbox \"["@ + spec_micro_degrees(b@[0] as int) + ", "@
            + spec_micro_degrees(b@[1] as int) + ", "@ + spec_micro_degrees(b@[2] as int) + ", "@
            + spec_micro_degrees(b@[3] as int)
            + "]\". Expected \"min_lon,min_lat,max_lon,max_lat\" where \"lat\" is in range [-90, 90] and \"lon\" is in range [-180, 180]"@,
        ValidationError::Layer { value, valid } => "invalid layer \""@ + value@
            + "\". Allowed layers are "@ + spec_quoted_list(valid.deep_view()),
        ValidationError::Lang { value, valid } => "invalid language \""@ + value@
            + "\". Allowed languages are "@ + spec_quoted_list(valid.deep_view()),
        ValidationError::LocationBias => "must use all or none of lon, lat, scale, zoom"@,
    }
}

fn push_quoted_list(out: &mut Vec<char>, items: &Vec<String>)
    ensures
        final(out)@ == old(out)@ + spec_quoted_list(items.deep_view()),
{
    let ghost base = out@;
    let ghost dv = items.deep_view();
    out.push('[');
    proof {
        assert(dv.subrange(0, dv.len() as int) =~= dv);
        assert(out@ + spec_quoted_items(dv) =~= base + seq!['['] + spec_quoted_items(dv));
    }
    let mut i: usize = 0;
    while i < items.len()
        invariant
            i <= items@.len(),
            dv == items.deep_view(),
            dv.len() == items@.len(),
            out@ + spec_quoted_items(dv.subrange(i as int, dv.len() as int)) == base + seq!['[']
                + spec_quoted_items(dv),
        decreases items@.len() - i,
    {
        let ghost before = out@;
        out.push('"');
        push_str_chars(out, items[i].as_str());
        out.push('"');
        proof {
            assert(items.deep_view()[i as int] == items@[i as int]@);
            assert(out@ =~= before + spec_quoted(dv[i as int]));
        }
        if i + 1 < items.len() {
            out.push(',');
            out.push(' ');
            proof {
                reveal_strlit(", ");
                assert(", "@ =~= seq![',', ' ']);
                assert(out@ =~= before + spec_quoted(dv[i as int]) + ", "@);
            }
        }
        proof {
            lemma_quoted_items_step(dv, i as int);
            if i + 1 < dv.len() {
                assert(out@ + spec_quoted_items(dv.subrange(i + 1 as int, dv.len() as int)) =~= base
                    + seq!['['] + spec_quoted_items(dv));
            } else {
                assert(spec_quoted_items(dv.subrange(i + 1 as int, dv.len() as int)) =~= Seq::<
                    char,
                >::empty());
                assert(out@ + spec_quoted_items(dv.subrange(i + 1 as int, dv.len() as int)) =~= base
                    + seq!['['] + spec_quoted_items(dv));
            }
        }
        i = i + 1;
    }
    proof {
        assert(spec_quoted_items(dv.subrange(dv.len() as int, dv.len() as int)) =~= Seq::<
            char,
        >::empty());
        assert(out@ =~= base + seq!['['] + spec_quoted_items(dv));
    }
    out.push(']');
    proof {
        assert(out@ =~= base + spec_quoted_list(dv));
    }
}

/// One step of the list rendering: the items from `i` on start with item `i`
/// quoted, followed by a separator when more items follow.
proof fn lemma_quoted_items_step(dv: Seq<Seq<char>>, i: int)
    requires
        0 <= i < dv.len(),
    ensures
        spec_quoted_items(dv.subrange(i, dv.len() as int)) == spec_quoted(dv[i]) + (if i + 1
            < dv.len() {
            ", "@ + spec_quoted_items(dv.subrange(i + 1, dv.len() as int))
        } else {
            Seq::<char>::empty()
        }),
{
    let tail = dv.subrange(i, dv.len() as int);
    assert(tail.len() > 0);
    assert(tail[0] == dv[i]);
    if i + 1 < dv.len() {
        assert(tail.drop_first() =~= dv.subrange(i + 1, dv.len() as int));
    } else {
        assert(spec_quoted_items(tail) == spec_quoted(tail[0]));
        assert(spec_quoted(dv[i]) + Seq::<char>::empty() =~= spec_quoted(dv[i]));
    }
}

impl ValidationError {
    /// The plain-text body of the fault.
    pub fn message(&self) -> (r: String)
        ensures
            r@ == spec_validation_message(*self),
    {
        let mut out: Vec<char> = Vec::new();
        match self {
            ValidationError::Lon(v) => {
                push_str_chars(&mut out, "invalid lon \"");
                push_micro_degrees(&mut out, *v);
                push_str_chars(&mut out, "\". Must be in the range [-180, 180]");
            },
            ValidationError::Lat(v) => {
                push_str_chars(&mut out, "invalid lat \"");
                push_micro_degrees(&mut out, *v);
                push_str_chars(&mut out, "\". Must be in the range [-90, 90]");
            },
            ValidationError::Bbox(b) => {
                push_str_chars(&mut out, "invalid bbox \"[");
                push_micro_degrees(&mut out, b[0]);
                push_str_chars(&mut out, ", ");
                push_micro_degrees(&mut out, b[1]);
                push_str_chars(&mut out, ", ");
                push_micro_degrees(&mut out, b[2]);
                push_str_chars(&mut out, ", ");
                push_micro_degrees(&mut out, b[3]);
                push_str_chars(
                    &mut out,
                    "]\". Expected \"min_lon,min_lat,max_lon,max_lat\" where \"lat\" is in range [-90, 90] and \"lon\" is in range [-180, 180]",
                );
            },
            ValidationError::Layer { value, valid } => {
                push_str_chars(&mut out, "invalid layer \"");
                push_str_chars(&mut out, value.as_str());
                push_str_chars(&mut out, "\". Allowed layers are ");
                push_quoted_list(&mut out, valid);
            },
            ValidationError::Lang { value, valid } => {
                push_str_chars(&mut out, "invalid language \"");
                push_str_chars(&mut out, value.as_str());
                push_str_chars(&mut out, "\". Allowed languages are ");
                push_quoted_list(&mut out, valid);
            },
            ValidationError::LocationBias => {
                push_str_chars(&mut out, "must use all or none of lon, lat, scale, zoom");
            },
        }
        proof {
            assert(out@ =~= spec_validation_message(*self));
        }
        chars_to_string(&out)
    }
}

} // verus!
