//! The remote round-trip adapter: re-validates a submitted model with
//! the same whole-model validation the form engine ran, and computes the
//! success value.
//!
//! The repeated validation is deliberate defense against a stale or
//! tampered client: the receiving side never trusts that the submitting
//! side validated.

use vstd::prelude::*;

use crate::engine::lookup_error;
use crate::engine::spec_encode;
use crate::engine::spec_lookup;
use crate::form_def::is_hello_world_fields;
use crate::schema::FieldDescriptor;
use crate::form_def::pairs_view;
use crate::form_def::spec_hello_validate;
use crate::model::Context;
use crate::model::HelloWorldFormData;
use crate::text::all_digits;
use crate::text::dec_digits;
use crate::text::lemma_dec_digits_round_trip;
use crate::text::lemma_trim_all_digits;
use crate::text::parse_u32;
use crate::text::str_to_int;
use crate::text::trim_str;
use crate::text::trimmed;
use crate::text::u32_to_string;

verus! {

/// The greeting the remote side answers a valid submission with.
pub open spec fn spec_greeting(m: HelloWorldFormData) -> Seq<char> {
    "Hello "@ + m.first@ + " "@ + m.last@ + " ("@ + dec_digits(m.age as nat)
        + "), You must like "@ + m.sport@ + "!"@
}

/// The outcome of processing a submitted model: the greeting when the
/// model validates, otherwise the full error set. A function of the
/// model alone.
pub open spec fn spec_process(m: HelloWorldFormData) -> Result<Seq<char>, Seq<(Seq<char>, Seq<char>)>> {
    if spec_hello_validate(m).len() == 0 {
        Ok(spec_greeting(m))
    } else {
        Err(spec_hello_validate(m))
    }
}

/// Renders the greeting for a model.
pub fn greeting(m: &HelloWorldFormData) -> (r: String)
    ensures
        r@ == spec_greeting(*m),
{
    let mut s = String::from_str("Hello ");
    s.append(m.first.as_str());
    s.append(" ");
    s.append(m.last.as_str());
    s.append(" (");
    let age = u32_to_string(m.age);
    s.append(age.as_str());
    s.append("), You must like ");
    s.append(m.sport.as_str());
    s.append("!");
    proof {
        assert(s@ =~= spec_greeting(*m));
    }
    s
}

/// The remote handler for the hello-world form: re-runs the identical
/// whole-model validation, and on success returns the greeting. On
/// validation failure it returns the error set, shaped exactly as the
/// client-side one.
pub fn submit_hello_world_form(data: &HelloWorldFormData, ctx: &Context) -> (r: Result<
    String,
    Vec<(String, String)>,
>)
    ensures
        match r {
            Ok(s) => spec_process(*data) == Ok::<Seq<char>, Seq<(Seq<char>, Seq<char>)>>(s@),
            Err(errs) => spec_process(*data) == Err::<Seq<char>, Seq<(Seq<char>, Seq<char>)>>(
                pairs_view(errs@),
            ),
        },
{
    match data.validate(ctx) {
        Ok(()) => Ok(greeting(data)),
        Err(errs) => Err(errs),
    }
}

/// Processing a submission is a function of the model alone: submitting
/// an unchanged, already-valid model any number of times yields the same
/// success value, the greeting.
pub proof fn lemma_submission_idempotent(m: HelloWorldFormData)
    requires
        spec_hello_validate(m).len() == 0,
    ensures
        spec_process(m) == Ok::<Seq<char>, Seq<(Seq<char>, Seq<char>)>>(spec_greeting(m)),
{
}

/// Whether a wire payload decodes into a hello-world model: the four
/// wire keys are present and the age value, after trimming, is a
/// decimal number in range.
pub open spec fn spec_decode_ok(pairs: Seq<(String, String)>) -> bool {
    &&& spec_lookup(pairs, "data[first]"@) is Some
    &&& spec_lookup(pairs, "data[last]"@) is Some
    &&& spec_lookup(pairs, "data[sport]"@) is Some
    &&& (spec_lookup(pairs, "data[age]"@) matches Some(a) && {
        let eff = trimmed(a);
        eff.len() > 0 && all_digits(eff) && str_to_int(eff) <= u32::MAX as int
    })
}

/// Reconstructs a model from a wire payload, as the remote side's
/// deserialization does: each attribute comes from its wire key, put
/// through the same parse the field descriptor declares (first name
/// trimmed, last name and sport verbatim, age trimmed and decimal).
pub fn decode_hello_payload(pairs: &Vec<(String, String)>) -> (r: Result<
    HelloWorldFormData,
    String,
>)
    ensures
        r is Ok <==> spec_decode_ok(pairs@),
        (r matches Ok(m) ==> {
            &&& m.first@ == trimmed(spec_lookup(pairs@, "data[first]"@)->0)
            &&& m.last@ == spec_lookup(pairs@, "data[last]"@)->0
            &&& m.age as int == str_to_int(trimmed(spec_lookup(pairs@, "data[age]"@)->0))
            &&& m.sport@ == spec_lookup(pairs@, "data[sport]"@)->0
        }),
{
    let first_raw = match lookup_error(pairs, "data[first]") {
        Some(v) => v,
        None => {
            return Err(String::from_str("missing field: first name"));
        },
    };
    let last = match lookup_error(pairs, "data[last]") {
        Some(v) => v,
        None => {
            return Err(String::from_str("missing field: last name"));
        },
    };
    let age_raw = match lookup_error(pairs, "data[age]") {
        Some(v) => v,
        None => {
            return Err(String::from_str("missing field: age"));
        },
    };
    let sport = match lookup_error(pairs, "data[sport]") {
        Some(v) => v,
        None => {
            return Err(String::from_str("missing field: sport"));
        },
    };
    let age = match parse_u32(trim_str(age_raw.as_str()).as_str()) {
        Some(u) => u,
        None => {
            return Err(String::from_str("age is not a number"));
        },
    };
    let first = trim_str(first_raw.as_str());
    Ok(HelloWorldFormData { first, last, age, sport })
}

/// The wire round trip is lossless: encoding a model whose trimmed
/// fields are already trimmed and decoding the payload yields the same
/// attribute values, so the remote side re-validates exactly the model
/// that was submitted.
pub proof fn lemma_wire_round_trip(
    fs: Seq<FieldDescriptor>,
    m: HelloWorldFormData,
    pairs: Seq<(String, String)>,
)
    requires
        is_hello_world_fields(fs),
        pairs_view(pairs) == spec_encode(fs, m),
        trimmed(m.first@) == m.first@,
    ensures
        spec_decode_ok(pairs),
        trimmed(spec_lookup(pairs, "data[first]"@)->0) == m.first@,
        spec_lookup(pairs, "data[last]"@)->0 == m.last@,
        str_to_int(trimmed(spec_lookup(pairs, "data[age]"@)->0)) == m.age as int,
        spec_lookup(pairs, "data[sport]"@)->0 == m.sport@,
{
    reveal_with_fuel(spec_encode, 8);
    reveal_with_fuel(spec_lookup, 5);
    reveal_strlit("data[first]");
    reveal_strlit("data[last]");
    reveal_strlit("data[age]");
    reveal_strlit("data[sport]");
    assert(("data[first]"@).len() == 11);
    assert(("data[last]"@).len() == 10);
    assert(("data[age]"@).len() == 9);
    assert(("data[sport]"@).len() == 11);
    assert(("data[first]"@)[5] == 'f' && ("data[sport]"@)[5] == 's');
    assert("data[first]"@ != "data[sport]"@);
    let s1 = fs.drop_first();
    let s2 = s1.drop_first();
    let s3 = s2.drop_first();
    let s4 = s3.drop_first();
    let s5 = s4.drop_first();
    let s6 = s5.drop_first();
    let s7 = s6.drop_first();
    assert(s1[0] == fs[1] && s2[0] == fs[2] && s3[0] == fs[3] && s4[0] == fs[4] && s5[0] == fs[5]
        && s6[0] == fs[6]);
    assert(s7 =~= Seq::<FieldDescriptor>::empty());
    assert(spec_encode(fs, m) =~= seq![
        (fs[1].name@, m.first@),
        (fs[2].name@, m.last@),
        (fs[3].name@, dec_digits(m.age as nat)),
        (fs[4].name@, m.sport@),
    ]);
    assert(pairs.len() == 4);
    assert(pairs_view(pairs)[0] == (pairs[0].0@, pairs[0].1@));
    assert(pairs_view(pairs)[1] == (pairs[1].0@, pairs[1].1@));
    assert(pairs_view(pairs)[2] == (pairs[2].0@, pairs[2].1@));
    assert(pairs_view(pairs)[3] == (pairs[3].0@, pairs[3].1@));
    assert(pairs[0].0@ == "data[first]"@ && pairs[0].1@ == m.first@);
    assert(pairs[1].0@ == "data[last]"@ && pairs[1].1@ == m.last@);
    assert(pairs[2].0@ == "data[age]"@ && pairs[2].1@ == dec_digits(m.age as nat));
    assert(pairs[3].0@ == "data[sport]"@ && pairs[3].1@ == m.sport@);
    let p1 = pairs.drop_first();
    let p2 = p1.drop_first();
    let p3 = p2.drop_first();
    assert(p1[0] == pairs[1] && p2[0] == pairs[2] && p3[0] == pairs[3]);
    assert(spec_lookup(pairs, "data[first]"@) == Some(m.first@));
    assert(spec_lookup(pairs, "data[last]"@) == Some(m.last@));
    assert(spec_lookup(pairs, "data[age]"@) == Some(dec_digits(m.age as nat)));
    assert(spec_lookup(pairs, "data[sport]"@) == Some(m.sport@));
    lemma_dec_digits_round_trip(m.age as nat);
    lemma_trim_all_digits(dec_digits(m.age as nat));
}

} // verus!
