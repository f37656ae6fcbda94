//! The example form: its schema, and whole-model validation.
//!
//! `build_form` assembles the field descriptors of the hello-world form;
//! `validate_model` runs every descriptor's validator over a model
//! instance and collects failures keyed by wire name, in schema order.

use vstd::prelude::*;

use crate::model::Attr;
use crate::model::Context;
use crate::model::FieldValue;
use crate::model::HelloWorldFormData;
use crate::schema::ButtonAction;
use crate::schema::FieldDescriptor;
use crate::schema::FieldKind;
use crate::schema::FormBuilder;
use crate::schema::FormSchema;
use crate::schema::ParseMode;
use crate::schema::SelectOption;
use crate::schema::StyleAttr;
use crate::schema::is_data_kind;
use crate::validation::Predicate;
use crate::validation::Rule;
use crate::validation::ValidationBuilder;
use crate::validation::eval_rules;
use crate::validation::min_len_message;
use crate::validation::required_message;
use crate::validation::spec_first_failure;
use crate::validation::spec_pred_holds;

verus! {

/// The views of a sequence of (wire name, message) pairs.
pub open spec fn pairs_view(s: Seq<(String, String)>) -> Seq<(Seq<char>, Seq<char>)> {
    s.map(|i: int, p: (String, String)| (p.0@, p.1@))
}

/// The error one descriptor reports for a model, if any: the first
/// failing rule's message, evaluated on the bound attribute's value.
/// Structural elements report nothing.
pub open spec fn spec_field_error(f: FieldDescriptor, m: HelloWorldFormData) -> Option<Seq<char>> {
    if is_data_kind(f.kind) && f.getter is Some {
        spec_first_failure(f.rules@, m.spec_get(f.getter->0))
    } else {
        None
    }
}

/// Whole-model validation: the (wire name, message) pairs of every
/// failing field, in schema order.
pub open spec fn spec_validate(fs: Seq<FieldDescriptor>, m: HelloWorldFormData) -> Seq<
    (Seq<char>, Seq<char>),
>
    decreases fs.len(),
{
    if fs.len() == 0 {
        Seq::empty()
    } else {
        (match spec_field_error(fs[0], m) {
            Some(msg) => seq![(fs[0].name@, msg)],
            None => Seq::empty(),
        }) + spec_validate(fs.drop_first(), m)
    }
}

/// Runs every descriptor's validator over the model and collects failures
/// keyed by wire name, in schema order. The context is passed through to
/// validation; this form's context carries nothing.
pub fn validate_model(schema: &FormSchema, m: &HelloWorldFormData, _ctx: &Context) -> (errs: Vec<
    (String, String),
>)
    ensures
        pairs_view(errs@) == spec_validate(schema.fields@, *m),
{
    let fields = &schema.fields;
    let n = fields.len();
    let mut errs: Vec<(String, String)> = Vec::new();
    proof {
        assert(fields@.subrange(0, n as int) =~= fields@);
        assert(pairs_view(Seq::<(String, String)>::empty()) =~= Seq::<(Seq<char>, Seq<char>)>::empty());
    }
    let mut i: usize = 0;
    while i < n
        invariant
            0 <= i <= n,
            n == fields@.len(),
            spec_validate(fields@, *m) == pairs_view(errs@) + spec_validate(
                fields@.subrange(i as int, n as int),
                *m,
            ),
        decreases n - i,
    {
        proof {
            let rest = fields@.subrange(i as int, n as int);
            assert(rest[0] == fields@[i as int]);
            assert(rest.drop_first() =~= fields@.subrange(i as int + 1, n as int));
        }
        let f = &fields[i];
        let is_data = match f.kind {
            FieldKind::TextInput => true,
            FieldKind::Stepper => true,
            FieldKind::Select => true,
            _ => false,
        };
        if is_data {
            if let Some(a) = f.getter {
                let v = m.get_attr(a);
                if let Some(msg) = eval_rules(&f.rules, &v) {
                    let ghost before = errs@;
                    errs.push((f.name.clone(), msg));
                    proof {
                        assert(pairs_view(errs@) =~= pairs_view(before).push(
                            (f.name@, spec_field_error(fields@[i as int], *m)->0),
                        ));
                        assert(pairs_view(before).push(
                            (f.name@, spec_field_error(fields@[i as int], *m)->0),
                        ) =~= pairs_view(before) + seq![
                            (f.name@, spec_field_error(fields@[i as int], *m)->0),
                        ]);
                    }
                }
            }
        }
        i = i + 1;
    }
    proof {
        assert(fields@.subrange(n as int, n as int) =~= Seq::<FieldDescriptor>::empty());
    }
    errs
}

/// The first-name descriptor: a trimmed text input bound to `first`,
/// required and at least four characters long.
pub open spec fn first_field_ok(f: FieldDescriptor) -> bool {
    &&& f.name@ == "data[first]"@
    &&& f.label@ == "First Name"@
    &&& f.kind is TextInput
    &&& f.getter == Some(Attr::First)
    &&& f.setter == Some(Attr::First)
    &&& f.parse is Trimmed
    &&& f.rules@.len() == 2
    &&& f.rules@[0].pred == Predicate::NonEmpty
    &&& f.rules@[0].message@ == required_message("First Name"@)
    &&& f.rules@[1].pred == (Predicate::MinLen { n: 4 })
    &&& f.rules@[1].message@ == min_len_message("First Name"@, 4)
    &&& f.styles@.len() == 2
    &&& f.styles@[0] == StyleAttr::Width(4)
    &&& (f.styles@[1] matches StyleAttr::Tooltip(t) && t@ == "Your given first name"@)
}

/// The last-name descriptor: a verbatim text input bound to `last`, with
/// the form's own failure message.
pub open spec fn last_field_ok(f: FieldDescriptor) -> bool {
    &&& f.name@ == "data[last]"@
    &&& f.label@ == "Last Name"@
    &&& f.kind is TextInput
    &&& f.getter == Some(Attr::Last)
    &&& f.setter == Some(Attr::Last)
    &&& f.parse is Verbatim
    &&& f.rules@.len() == 1
    &&& f.rules@[0].pred == Predicate::NonEmpty
    &&& f.rules@[0].message@ == "Last Name must not be empty!"@
    &&& f.styles@.len() == 2
    &&& f.styles@[0] == StyleAttr::Width(8)
    &&& (f.styles@[1] matches StyleAttr::Tooltip(t) && t@ == "Your last name"@)
}

/// The age descriptor: a trimmed stepper bound to `age`, rejecting ages
/// of thirteen and below.
pub open spec fn age_field_ok(f: FieldDescriptor) -> bool {
    &&& f.name@ == "data[age]"@
    &&& f.label@ == "Age"@
    &&& f.kind is Stepper
    &&& f.getter == Some(Attr::Age)
    &&& f.setter == Some(Attr::Age)
    &&& f.parse is Trimmed
    &&& f.rules@.len() == 1
    &&& f.rules@[0].pred == (Predicate::Bound { lo: 14, hi: u32::MAX })
    &&& f.rules@[0].message@ == "Too Young"@
    &&& f.styles@.len() == 2
    &&& f.styles@[0] == StyleAttr::Width(6)
    &&& (f.styles@[1] matches StyleAttr::Tooltip(t) && t@ == "Your age in years"@)
}

/// The sport descriptor: a select bound to `sport` with four valued
/// choices and no validation.
pub open spec fn sport_field_ok(f: FieldDescriptor) -> bool {
    &&& f.name@ == "data[sport]"@
    &&& f.label@ == "Favorite Sport"@
    &&& f.kind is Select
    &&& f.getter == Some(Attr::Sport)
    &&& f.setter == Some(Attr::Sport)
    &&& f.parse is Verbatim
    &&& f.rules@.len() == 0
    &&& f.options@.len() == 4
    &&& f.options@[0].label@ == "Football"@ && f.options@[0].value@ == "football"@
    &&& f.options@[1].label@ == "Soccer"@ && f.options@[1].value@ == "soccer"@
    &&& f.options@[2].label@ == "Ice Hockey"@ && f.options@[2].value@ == "ice_hockey"@
    &&& f.options@[3].label@ == "Golf"@ && f.options@[3].value@ == "golf"@
    &&& f.styles@.len() == 1
    &&& f.styles@[0] == StyleAttr::Width(5)
}

/// The full hello-world schema: a heading, the four data fields, a reset
/// button and the submit control, in render order.
pub open spec fn is_hello_world_fields(fs: Seq<FieldDescriptor>) -> bool {
    &&& fs.len() == 7
    &&& fs[0].kind is Heading && fs[0].label@ == "Welcome"@
    &&& first_field_ok(fs[1])
    &&& last_field_ok(fs[2])
    &&& age_field_ok(fs[3])
    &&& sport_field_ok(fs[4])
    &&& fs[5].kind is Button && fs[5].label@ == "Reset Form"@ && fs[5].action == Some(
        ButtonAction::ResetToDefault,
    )
    &&& fs[6].kind is Submit && fs[6].label@ == "Submit"@
}

/// Whole-model validation of the hello-world form, stated directly over
/// the model: the first name must be non-empty and at least four
/// characters, the last name likewise with the form's own messages, and
/// the age must be over thirteen. The sport is unconstrained.
pub open spec fn spec_hello_validate(m: HelloWorldFormData) -> Seq<(Seq<char>, Seq<char>)> {
    (if m.first@.len() == 0 {
        seq![("data[first]"@, required_message("First Name"@))]
    } else if m.first@.len() < 4 {
        seq![("data[first]"@, min_len_message("First Name"@, 4))]
    } else {
        Seq::empty()
    }) + (if m.last@.len() == 0 {
        seq![("data[last]"@, "Last Name must not be empty!"@)]
    } else {
        Seq::empty()
    }) + (if m.age < 14 {
        seq![("data[age]"@, "Too Young"@)]
    } else {
        Seq::empty()
    })
}

proof fn lemma_first_failure_two(rules: Seq<Rule>, v: FieldValue)
    requires
        rules.len() == 2,
    ensures
        spec_first_failure(rules, v) == (if !spec_pred_holds(rules[0].pred, v) {
            Some(rules[0].message@)
        } else if !spec_pred_holds(rules[1].pred, v) {
            Some(rules[1].message@)
        } else {
            None::<Seq<char>>
        }),
{
    reveal_with_fuel(spec_first_failure, 3);
    assert(rules.drop_first()[0] == rules[1]);
    assert(rules.drop_first().drop_first() =~= Seq::<Rule>::empty());
}

proof fn lemma_first_failure_one(rules: Seq<Rule>, v: FieldValue)
    requires
        rules.len() == 1,
    ensures
        spec_first_failure(rules, v) == (if !spec_pred_holds(rules[0].pred, v) {
            Some(rules[0].message@)
        } else {
            None::<Seq<char>>
        }),
{
    reveal_with_fuel(spec_first_failure, 2);
    assert(rules.drop_first() =~= Seq::<Rule>::empty());
}

/// On any schema shaped like the hello-world form, descriptor-driven
/// validation agrees with the direct model-level statement.
pub proof fn lemma_hello_validate(fs: Seq<FieldDescriptor>, m: HelloWorldFormData)
    requires
        is_hello_world_fields(fs),
    ensures
        spec_validate(fs, m) == spec_hello_validate(m),
{
    reveal_with_fuel(spec_validate, 8);
    let s1 = fs.drop_first();
    let s2 = s1.drop_first();
    let s3 = s2.drop_first();
    let s4 = s3.drop_first();
    let s5 = s4.drop_first();
    let s6 = s5.drop_first();
    let s7 = s6.drop_first();
    assert(s1[0] == fs[1] && s2[0] == fs[2] && s3[0] == fs[3] && s4[0] == fs[4] && s5[0] == fs[5]
        && s6[0] == fs[6]);
    assert(s7 =~= Seq::<FieldDescriptor>::empty());
    lemma_first_failure_two(fs[1].rules@, m.spec_get(Attr::First));
    lemma_first_failure_one(fs[2].rules@, m.spec_get(Attr::Last));
    lemma_first_failure_one(fs[3].rules@, m.spec_get(Attr::Age));
    assert(spec_field_error(fs[4], m) is None) by {
        assert(fs[4].rules@ =~= Seq::<Rule>::empty());
    }
    assert(spec_validate(fs, m) =~= spec_hello_validate(m));
}

impl HelloWorldFormData {
    /// Runs the hello-world form's whole-model validation: `Ok` when every
    /// field passes, otherwise the failures keyed by wire name, in schema
    /// order. The same call runs on both sides of the round trip.
    pub fn validate(&self, ctx: &Context) -> (r: Result<(), Vec<(String, String)>>)
        ensures
            match r {
                Ok(()) => spec_hello_validate(*self).len() == 0,
                Err(errs) => errs@.len() > 0 && pairs_view(errs@) == spec_hello_validate(*self),
            },
    {
        let schema = Self::get_schema();
        let errs = validate_model(&schema, self, ctx);
        proof {
            lemma_hello_validate(schema.fields@, *self);
        }
        if errs.len() == 0 {
            proof {
                assert(pairs_view(errs@) =~= Seq::<(Seq<char>, Seq<char>)>::empty());
            }
            Ok(())
        } else {
            Err(errs)
        }
    }

    /// The hello-world form schema, built fresh.
    pub fn get_schema() -> (r: FormSchema)
        ensures
            is_hello_world_fields(r.fields@),
            r.wf(),
    {
        Self::build_form(FormBuilder::new()).build()
    }

    /// Assembles the hello-world form: heading, first name, last name,
    /// age, favorite sport, reset button and submit control.
    pub fn build_form(fb: FormBuilder) -> (r: FormBuilder)
        requires
            fb.fields@.len() == 0,
        ensures
            is_hello_world_fields(r.fields@),
            r.wf(),
    {
        proof {
            reveal_strlit("data[first]");
            reveal_strlit("data[last]");
            reveal_strlit("data[age]");
            reveal_strlit("data[sport]");
            assert(("data[first]"@).len() == 11);
            assert(("data[last]"@).len() == 10);
            assert(("data[age]"@).len() == 9);
            assert(("data[sport]"@).len() == 11);
            assert(("data[first]"@)[5] == 'f' && ("data[sport]"@)[5] == 's');
            assert("data[first]"@ != "data[sport]"@);
        }
        let first = FieldDescriptor::text_input().named("data[first]").labeled("First Name").getter(
            Attr::First,
        ).setter(Attr::First).parse_trimmed().validation(
            ValidationBuilder::for_field("First Name").required().min_len(4).build(),
        ).style(StyleAttr::Width(4)).style(
            StyleAttr::Tooltip(String::from_str("Your given first name")),
        );
        let last_rules: Vec<Rule> = {
            let mut v: Vec<Rule> = Vec::new();
            v.push(
                Rule {
                    pred: Predicate::NonEmpty,
                    message: String::from_str("Last Name must not be empty!"),
                },
            );
            v
        };
        let last = FieldDescriptor::text_input().named("data[last]").labeled("Last Name").getter(
            Attr::Last,
        ).setter(Attr::Last).parse_from().validation(last_rules).style(StyleAttr::Width(8)).style(
            StyleAttr::Tooltip(String::from_str("Your last name")),
        );
        let age_rules: Vec<Rule> = {
            let mut v: Vec<Rule> = Vec::new();
            v.push(
                Rule {
                    pred: Predicate::Bound { lo: 14, hi: u32::MAX },
                    message: String::from_str("Too Young"),
                },
            );
            v
        };
        let age = FieldDescriptor::stepper().named("data[age]").labeled("Age").getter(
            Attr::Age,
        ).setter(Attr::Age).parse_trimmed().validation(age_rules).style(StyleAttr::Width(6)).style(
            StyleAttr::Tooltip(String::from_str("Your age in years")),
        );
        let options: Vec<SelectOption> = {
            let mut v: Vec<SelectOption> = Vec::new();
            v.push(
                SelectOption {
                    label: String::from_str("Football"),
                    value: String::from_str("football"),
                },
            );
            v.push(
                SelectOption { label: String::from_str("Soccer"), value: String::from_str("soccer") },
            );
            v.push(
                SelectOption {
                    label: String::from_str("Ice Hockey"),
                    value: String::from_str("ice_hockey"),
                },
            );
            v.push(
                SelectOption { label: String::from_str("Golf"), value: String::from_str("golf") },
            );
            v
        };
        let sport = FieldDescriptor::select().named("data[sport]").labeled(
            "Favorite Sport",
        ).getter(Attr::Sport).setter(Attr::Sport).parse_from().with_options_valued(options).style(
            StyleAttr::Width(5),
        );
        assert(first_field_ok(first));
        assert(last_field_ok(last));
        assert(age_field_ok(age));
        assert(sport_field_ok(sport));
        let b1 = fb.heading("Welcome");
        let b2 = b1.field(first);
        let b3 = b2.field(last);
        let b4 = b3.field(age);
        let b5 = b4.field(sport);
        let b6 = b5.button("Reset Form", ButtonAction::ResetToDefault);
        let b7 = b6.submit("Submit");
        proof {
            assert(b1.fields@.len() == 1);
            assert(b2.fields@[1] == first);
            assert(b3.fields@[1] == first && b3.fields@[2] == last);
            assert(b4.fields@[3] == age);
            assert(b5.fields@[4] == sport);
            assert(b6.fields@ == b7.fields@.drop_last());
            assert(b5.fields@ == b6.fields@.drop_last());
            assert(b6.fields@[4] == sport);
            assert(b7.fields@[1] == first && b7.fields@[2] == last && b7.fields@[3] == age
                && b7.fields@[4] == sport);
        }
        b7
    }
}

} // verus!
