//! The form engine: binds a schema to a live model instance and drives
//! the edit / validate / submit cycle.
//!
//! Raw input goes through a two-phase pipeline: parse (per the field's
//! parse mode and raw type), then, at submit time, whole-model
//! validation. A failed parse stores a field-scoped error and leaves the
//! model untouched. While a submission is in flight the engine rejects
//! further submits and edits, so an in-flight snapshot can never race
//! with a local mutation.

use vstd::prelude::*;

use crate::form_def::pairs_view;
use crate::form_def::spec_validate;
use crate::form_def::validate_model;
use crate::model::Attr;
use crate::model::Context;
use crate::model::FieldValue;
use crate::model::HelloWorldFormData;
use crate::model::attr_is_numeric;
use crate::schema::ButtonAction;
use crate::schema::FieldDescriptor;
use crate::schema::FieldKind;
use crate::schema::FormSchema;
use crate::schema::ParseMode;
use crate::schema::SelectOption;
use crate::schema::StyleAttr;
use crate::schema::is_data_kind;
use crate::text::all_digits;
use crate::text::dec_digits;
use crate::text::parse_u32;
use crate::text::str_to_int;
use crate::text::trim_str;
use crate::text::u32_to_string;
use crate::text::trimmed;

verus! {

/// Compares two string slices by their character sequences.
pub fn str_eq(a: &str, b: &str) -> (r: bool)
    ensures
        r == (a@ == b@),
{
    let na = a.unicode_len();
    let nb = b.unicode_len();
    if na != nb {
        return false;
    }
    let mut i: usize = 0;
    while i < na
        invariant
            0 <= i <= na,
            na == a@.len(),
            na == b@.len(),
            forall|k: int| 0 <= k < i ==> a@[k] == b@[k],
        decreases na - i,
    {
        if a.get_char(i) != b.get_char(i) {
            return false;
        }
        i = i + 1;
    }
    proof {
        assert(a@ =~= b@);
    }
    true
}

/// The raw input after the field's parse mode is applied.
pub open spec fn effective_raw(mode: ParseMode, raw: Seq<char>) -> Seq<char> {
    match mode {
        ParseMode::Trimmed => trimmed(raw),
        ParseMode::Verbatim => raw,
    }
}

/// Whether raw input parses for a field: text always does; a numeric
/// field needs a non-empty all-digit effective input that fits in the
/// attribute's range.
pub open spec fn spec_parse_ok(mode: ParseMode, numeric: bool, raw: Seq<char>) -> bool {
    numeric ==> {
        let eff = effective_raw(mode, raw);
        eff.len() > 0 && all_digits(eff) && str_to_int(eff) <= u32::MAX as int
    }
}

/// Phase one of the per-field pipeline: converts raw input to the
/// field's raw value, or rejects it.
pub fn parse_raw(mode: ParseMode, numeric: bool, raw: &str) -> (r: Option<FieldValue>)
    ensures
        r is Some <==> spec_parse_ok(mode, numeric, raw@),
        (r matches Some(v) ==> {
            let eff = effective_raw(mode, raw@);
            &&& (numeric ==> (v matches FieldValue::Num(u) && u as int == str_to_int(eff)))
            &&& (!numeric ==> (v matches FieldValue::Text(s) && s@ == eff))
        }),
{
    let eff: String = match mode {
        ParseMode::Trimmed => trim_str(raw),
        ParseMode::Verbatim => String::from_str(raw),
    };
    if numeric {
        match parse_u32(eff.as_str()) {
            Some(u) => Some(FieldValue::Num(u)),
            None => None,
        }
    } else {
        Some(FieldValue::Text(eff))
    }
}

/// The stored errors with every entry for one wire name removed.
pub open spec fn spec_remove(errs: Seq<(String, String)>, name: Seq<char>) -> Seq<(String, String)>
    decreases errs.len(),
{
    if errs.len() == 0 {
        Seq::empty()
    } else {
        let rest = spec_remove(errs.drop_first(), name);
        if errs[0].0@ == name {
            rest
        } else {
            seq![errs[0]] + rest
        }
    }
}

/// The first stored error for a wire name, if any.
pub open spec fn spec_lookup(errs: Seq<(String, String)>, name: Seq<char>) -> Option<Seq<char>>
    decreases errs.len(),
{
    if errs.len() == 0 {
        None
    } else if errs[0].0@ == name {
        Some(errs[0].1@)
    } else {
        spec_lookup(errs.drop_first(), name)
    }
}

/// Removes every stored error for one wire name.
fn remove_error(errs: &mut Vec<(String, String)>, name: &str)
    ensures
        final(errs)@ == spec_remove(old(errs)@, name@),
{
    let n = errs.len();
    let mut out: Vec<(String, String)> = Vec::new();
    proof {
        assert(errs@.subrange(0, n as int) =~= errs@);
        assert(spec_remove(Seq::<(String, String)>::empty(), name@) == Seq::<(
            String,
            String,
        )>::empty());
    }
    let mut i: usize = 0;
    while i < n
        invariant
            0 <= i <= n,
            n == errs@.len(),
            spec_remove(errs@, name@) == out@ + spec_remove(
                errs@.subrange(i as int, n as int),
                name@,
            ),
        decreases n - i,
    {
        proof {
            let rest = errs@.subrange(i as int, n as int);
            assert(rest[0] == errs@[i as int]);
            assert(rest.drop_first() =~= errs@.subrange(i as int + 1, n as int));
        }
        if !str_eq(errs[i].0.as_str(), name) {
            let ghost before = out@;
            out.push((errs[i].0.clone(), errs[i].1.clone()));
            proof {
                assert(out@ =~= before + seq![errs@[i as int]]);
            }
        }
        i = i + 1;
    }
    proof {
        assert(errs@.subrange(n as int, n as int) =~= Seq::<(String, String)>::empty());
        assert(spec_remove(errs@, name@) =~= out@);
    }
    *errs = out;
}

/// The per-instance state of a live form.
#[derive(Clone, Debug)]
pub enum EngineState {
    /// The user is editing; nothing submitted yet.
    Editing,
    /// The last submit attempt failed validation.
    Invalid,
    /// A submission is in flight; further submits and edits are rejected.
    Submitting,
    /// The round trip finished with the remote side's success value.
    Submitted(String),
    /// The round trip failed outside validation; the message is
    /// form-level, not tied to a field.
    RemoteFailed(String),
}

/// What an edit attempt did.
#[derive(Clone, Copy, PartialEq, Eq, Structural, Debug)]
pub enum InputOutcome {
    /// The raw input parsed and was written to the model.
    Applied,
    /// The raw input did not parse; a field error was stored and the
    /// model is unchanged.
    ParseFailed,
    /// No data-bearing field of the schema has this wire name.
    UnknownField,
    /// A submission is in flight; the edit was rejected.
    EditBlocked,
}

/// What a submit attempt did.
pub enum SubmitStart {
    /// The model validated; it is serialized in `payload` and the
    /// engine now awaits the round trip's outcome.
    Started { payload: Vec<(String, String)> },
    /// A submission is already in flight; no second one starts.
    Rejected,
    /// Validation failed; the full error set, keyed by wire name.
    Invalid { errors: Vec<(String, String)> },
}

/// Whether a schema has a data-bearing field with this wire name.
pub open spec fn has_field(fs: Seq<FieldDescriptor>, name: Seq<char>) -> bool {
    exists|i: int| 0 <= i < fs.len() && is_data_kind(fs[i].kind) && fs[i].name@ == name
}

/// The index of the data-bearing field with this wire name (meaningful
/// when `has_field` holds; under schema well-formedness it is unique).
pub open spec fn field_index_of(fs: Seq<FieldDescriptor>, name: Seq<char>) -> int {
    choose|i: int| 0 <= i < fs.len() && is_data_kind(fs[i].kind) && fs[i].name@ == name
}

/// The wire encoding of the model under a schema: one (wire name, raw
/// string value) pair per data-bearing field, in schema order.
pub open spec fn spec_encode(fs: Seq<FieldDescriptor>, m: HelloWorldFormData) -> Seq<
    (Seq<char>, Seq<char>),
>
    decreases fs.len(),
{
    if fs.len() == 0 {
        Seq::empty()
    } else {
        (if is_data_kind(fs[0].kind) && fs[0].getter is Some {
            seq![(fs[0].name@, raw_view(m.spec_get(fs[0].getter->0)))]
        } else {
            Seq::empty()
        }) + spec_encode(fs.drop_first(), m)
    }
}

/// The raw string form of a field value: text itself, numbers in decimal.
pub open spec fn raw_view(v: FieldValue) -> Seq<char> {
    match v {
        FieldValue::Text(s) => s@,
        FieldValue::Num(u) => dec_digits(u as nat),
    }
}

/// A live form instance: the shared schema, the model being edited, the
/// stored field-scoped errors, and the submission state.
pub struct FormEngine {
    pub schema: FormSchema,
    pub model: HelloWorldFormData,
    pub field_errors: Vec<(String, String)>,
    pub state: EngineState,
}

/// One renderable field: what the rendering backend needs to draw a
/// control and report input events back by wire name.
pub struct FieldView {
    pub name: String,
    pub label: String,
    pub kind: FieldKind,
    /// The current raw value read through the getter; empty for
    /// structural elements.
    pub raw: String,
    pub styles: Vec<StyleAttr>,
    pub options: Vec<SelectOption>,
    /// The stored field-scoped error, if any.
    pub error: Option<String>,
}

/// Style equality up to string views.
pub open spec fn style_eq(a: StyleAttr, b: StyleAttr) -> bool {
    match (a, b) {
        (StyleAttr::Width(x), StyleAttr::Width(y)) => x == y,
        (StyleAttr::Tooltip(s), StyleAttr::Tooltip(t)) => s@ == t@,
        _ => false,
    }
}

/// Option-list equality up to string views.
pub open spec fn select_option_eq(a: SelectOption, b: SelectOption) -> bool {
    a.label@ == b.label@ && a.value@ == b.value@
}

/// What a correct rendering of one descriptor looks like: same name,
/// label, kind, styles and options; the raw value read through the
/// getter; and the stored error for the field's wire name, if any.
pub open spec fn view_ok(
    v: FieldView,
    f: FieldDescriptor,
    m: HelloWorldFormData,
    errs: Seq<(String, String)>,
) -> bool {
    &&& v.name@ == f.name@
    &&& v.label@ == f.label@
    &&& v.kind == f.kind
    &&& (is_data_kind(f.kind) && f.getter is Some ==> v.raw@ == raw_view(m.spec_get(f.getter->0)))
    &&& (!(is_data_kind(f.kind) && f.getter is Some) ==> v.raw@ == Seq::<char>::empty())
    &&& v.styles@.len() == f.styles@.len()
    &&& (forall|i: int| 0 <= i < f.styles@.len() ==> style_eq(v.styles@[i], f.styles@[i]))
    &&& v.options@.len() == f.options@.len()
    &&& (forall|i: int|
        0 <= i < f.options@.len() ==> select_option_eq(v.options@[i], f.options@[i]))
    &&& (match spec_lookup(errs, f.name@) {
        Some(msg) => v.error matches Some(e) && e@ == msg,
        None => v.error is None,
    })
}

fn clone_styles(styles: &Vec<StyleAttr>) -> (r: Vec<StyleAttr>)
    ensures
        r@.len() == styles@.len(),
        forall|i: int| 0 <= i < styles@.len() ==> style_eq(r@[i], styles@[i]),
{
    let n = styles.len();
    let mut r: Vec<StyleAttr> = Vec::new();
    let mut i: usize = 0;
    while i < n
        invariant
            0 <= i <= n,
            n == styles@.len(),
            r@.len() == i,
            forall|k: int| 0 <= k < i ==> style_eq(r@[k], styles@[k]),
        decreases n - i,
    {
        let c = match &styles[i] {
            StyleAttr::Width(w) => StyleAttr::Width(*w),
            StyleAttr::Tooltip(t) => StyleAttr::Tooltip(t.clone()),
        };
        r.push(c);
        i = i + 1;
    }
    r
}

fn clone_options(options: &Vec<SelectOption>) -> (r: Vec<SelectOption>)
    ensures
        r@.len() == options@.len(),
        forall|i: int| 0 <= i < options@.len() ==> select_option_eq(r@[i], options@[i]),
{
    let n = options.len();
    let mut r: Vec<SelectOption> = Vec::new();
    let mut i: usize = 0;
    while i < n
        invariant
            0 <= i <= n,
            n == options@.len(),
            r@.len() == i,
            forall|k: int| 0 <= k < i ==> select_option_eq(r@[k], options@[k]),
        decreases n - i,
    {
        let c = SelectOption {
            label: options[i].label.clone(),
            value: options[i].value.clone(),
        };
        r.push(c);
        i = i + 1;
    }
    r
}

/// The first stored entry for a wire name, if any.
pub(crate) fn lookup_error(errs: &Vec<(String, String)>, name: &str) -> (r: Option<String>)
    ensures
        match r {
            Some(m) => spec_lookup(errs@, name@) matches Some(v) && v == m@,
            None => spec_lookup(errs@, name@) is None,
        },
{
    let n = errs.len();
    proof {
        assert(errs@.subrange(0, n as int) =~= errs@);
    }
    let mut i: usize = 0;
    while i < n
        invariant
            0 <= i <= n,
            n == errs@.len(),
            spec_lookup(errs@, name@) == spec_lookup(errs@.subrange(i as int, n as int), name@),
        decreases n - i,
    {
        proof {
            let rest = errs@.subrange(i as int, n as int);
            assert(rest[0] == errs@[i as int]);
            assert(rest.drop_first() =~= errs@.subrange(i as int + 1, n as int));
        }
        if str_eq(errs[i].0.as_str(), name) {
            return Some(errs[i].1.clone());
        }
        i = i + 1;
    }
    proof {
        assert(errs@.subrange(n as int, n as int) =~= Seq::<(String, String)>::empty());
    }
    None
}

/// The message stored when raw input for a field does not parse.
pub open spec fn parse_error_message(label: Seq<char>) -> Seq<char> {
    label + ": invalid value"@
}

/// A model with every text attribute empty and the age zero.
pub open spec fn is_default_model(m: HelloWorldFormData) -> bool {
    m.first@.len() == 0 && m.last@.len() == 0 && m.age == 0 && m.sport@.len() == 0
}

/// Whether an attribute holds a numeric value.
fn attr_numeric(a: Attr) -> (r: bool)
    ensures
        r == attr_is_numeric(a),
{
    match a {
        Attr::Age => true,
        _ => false,
    }
}

/// Serializes the model for the wire: one (wire name, raw string value)
/// pair per data-bearing field, in schema order.
pub fn encode_model(schema: &FormSchema, m: &HelloWorldFormData) -> (pairs: Vec<(String, String)>)
    ensures
        pairs_view(pairs@) == spec_encode(schema.fields@, *m),
{
    let fields = &schema.fields;
    let n = fields.len();
    let mut pairs: Vec<(String, String)> = Vec::new();
    proof {
        assert(fields@.subrange(0, n as int) =~= fields@);
        assert(pairs_view(Seq::<(String, String)>::empty()) =~= Seq::<(Seq<char>, Seq<char>)>::empty());
    }
    let mut i: usize = 0;
    while i < n
        invariant
            0 <= i <= n,
            n == fields@.len(),
            spec_encode(fields@, *m) == pairs_view(pairs@) + spec_encode(
                fields@.subrange(i as int, n as int),
                *m,
            ),
        decreases n - i,
    {
        proof {
            let rest = fields@.subrange(i as int, n as int);
            assert(rest[0] == fields@[i as int]);
            assert(rest.drop_first() =~= fields@.subrange(i as int + 1, n as int));
        }
        let f = &fields[i];
        let is_data = match f.kind {
            FieldKind::TextInput => true,
            FieldKind::Stepper => true,
            FieldKind::Select => true,
            _ => false,
        };
        if is_data {
            if let Some(a) = f.getter {
                let value: String = match m.get_attr(a) {
                    FieldValue::Text(s) => s,
                    FieldValue::Num(u) => u32_to_string(u),
                };
                let ghost before = pairs@;
                pairs.push((f.name.clone(), value));
                proof {
                    assert(pairs_view(pairs@) =~= pairs_view(before) + seq![
                        (f.name@, raw_view(m.spec_get(a))),
                    ]);
                }
            }
        }
        i = i + 1;
    }
    proof {
        assert(fields@.subrange(n as int, n as int) =~= Seq::<FieldDescriptor>::empty());
    }
    pairs
}

impl FormEngine {
    /// The engine is well formed when its schema is.
    pub open spec fn wf(self) -> bool {
        self.schema.wf()
    }

    /// Binds a schema to a live model instance, ready for editing.
    pub fn new(schema: FormSchema, model: HelloWorldFormData) -> (r: Self)
        ensures
            r.schema == schema,
            r.model == model,
            r.field_errors@ == Seq::<(String, String)>::empty(),
            r.state is Editing,
    {
        FormEngine { schema, model, field_errors: Vec::new(), state: EngineState::Editing }
    }

    /// Produces the renderable field list the rendering backend
    /// consumes: for every schema element, in order, its label, current
    /// raw value read through the getter, styles, options, and the
    /// stored field error if one is present. Pure: mutates nothing.
    pub fn render(&self) -> (views: Vec<FieldView>)
        ensures
            views@.len() == self.schema.fields@.len(),
            forall|i: int|
                0 <= i < views@.len() ==> view_ok(
                    views@[i],
                    self.schema.fields@[i],
                    self.model,
                    self.field_errors@,
                ),
    {
        let fields = &self.schema.fields;
        let n = fields.len();
        let mut views: Vec<FieldView> = Vec::new();
        let mut i: usize = 0;
        while i < n
            invariant
                0 <= i <= n,
                n == self.schema.fields@.len(),
                views@.len() == i,
                forall|k: int|
                    0 <= k < i ==> view_ok(
                        views@[k],
                        self.schema.fields@[k],
                        self.model,
                        self.field_errors@,
                    ),
            decreases n - i,
        {
            let f = &self.schema.fields[i];
            let is_data = match f.kind {
                FieldKind::TextInput => true,
                FieldKind::Stepper => true,
                FieldKind::Select => true,
                _ => false,
            };
            let raw: String = if is_data {
                match f.getter {
                    Some(a) => match self.model.get_attr(a) {
                        FieldValue::Text(s) => s,
                        FieldValue::Num(u) => u32_to_string(u),
                    },
                    None => String::new(),
                }
            } else {
                String::new()
            };
            let error = lookup_error(&self.field_errors, f.name.as_str());
            let v = FieldView {
                name: f.name.clone(),
                label: f.label.clone(),
                kind: f.kind,
                raw,
                styles: clone_styles(&f.styles),
                options: clone_options(&f.options),
                error,
            };
            views.push(v);
            i = i + 1;
        }
        views
    }

    /// Applies one raw edit: looks the field up by wire name, parses the
    /// raw input, and on success writes the parsed value through the
    /// field's setter and clears the field's stored error. On parse
    /// failure the model is untouched and a field-scoped error is
    /// stored. Whole-model validation does not run here. Edits are
    /// rejected while a submission is in flight.
    pub fn on_field_input(&mut self, name: &str, raw: &str) -> (r: InputOutcome)
        requires
            old(self).wf(),
        ensures
            final(self).wf(),
            final(self).schema == old(self).schema,
            old(self).state is Submitting ==> r is EditBlocked && *final(self) == *old(self),
            !(old(self).state is Submitting) && !has_field(old(self).schema.fields@, name@) ==> r
                is UnknownField && *final(self) == *old(self),
            !(old(self).state is Submitting) && has_field(old(self).schema.fields@, name@) ==> ({
                let fs = old(self).schema.fields@;
                let f = fs[field_index_of(fs, name@)];
                let a = f.setter->0;
                let numeric = attr_is_numeric(a);
                let eff = effective_raw(f.parse, raw@);
                if spec_parse_ok(f.parse, numeric, raw@) {
                    &&& r is Applied
                    &&& (numeric ==> (final(self).model.spec_get(a) matches FieldValue::Num(u)
                        && u as int == str_to_int(eff)))
                    &&& (!numeric ==> (final(self).model.spec_get(a) matches FieldValue::Text(s)
                        && s@ == eff))
                    &&& forall|b: Attr|
                        b != a ==> final(self).model.spec_get(b) == old(self).model.spec_get(b)
                    &&& final(self).field_errors@ == spec_remove(old(self).field_errors@, name@)
                    &&& final(self).state is Editing
                } else {
                    &&& r is ParseFailed
                    &&& final(self).model == old(self).model
                    &&& final(self).field_errors@.drop_last() == spec_remove(
                        old(self).field_errors@,
                        name@,
                    )
                    &&& final(self).field_errors@.len() > 0
                    &&& final(self).field_errors@.last().0@ == name@
                    &&& final(self).field_errors@.last().1@ == parse_error_message(f.label@)
                    &&& final(self).state is Editing
                }
            }),
    {
        match &self.state {
            EngineState::Submitting => {
                return InputOutcome::EditBlocked;
            },
            _ => {},
        }
        let n = self.schema.fields.len();
        let mut found: bool = false;
        let mut i: usize = 0;
        let mut k: usize = 0;
        while k < n
            invariant
                0 <= k <= n,
                n == self.schema.fields@.len(),
                !found ==> forall|j: int|
                    0 <= j < k ==> !(is_data_kind(self.schema.fields@[j].kind)
                        && self.schema.fields@[j].name@ == name@),
                found ==> i < n && is_data_kind(self.schema.fields@[i as int].kind)
                    && self.schema.fields@[i as int].name@ == name@,
            decreases n - k,
        {
            if !found {
                let f = &self.schema.fields[k];
                let is_data = match f.kind {
                    FieldKind::TextInput => true,
                    FieldKind::Stepper => true,
                    FieldKind::Select => true,
                    _ => false,
                };
                if is_data && str_eq(f.name.as_str(), name) {
                    found = true;
                    i = k;
                }
            }
            k = k + 1;
        }
        if !found {
            assert(!has_field(self.schema.fields@, name@));
            return InputOutcome::UnknownField;
        }
        proof {
            let fs = self.schema.fields@;
            assert(has_field(fs, name@)) by {
                assert(0 <= i < fs.len() && is_data_kind(fs[i as int].kind) && fs[i as int].name@
                    == name@);
            }
            let j = field_index_of(fs, name@);
            assert(0 <= j < fs.len() && is_data_kind(fs[j].kind) && fs[j].name@ == name@);
            assert(i as int == j) by {
                if i as int != j {
                    assert(fs[i as int].name@ != fs[j].name@);
                }
            }
        }
        let parse_mode = self.schema.fields[i].parse;
        let label = self.schema.fields[i].label.clone();
        let a = match self.schema.fields[i].setter {
            Some(a) => a,
            None => {
                proof {
                    assert(self.schema.fields@[i as int].wf());
                }
                assert(false);
                return InputOutcome::UnknownField;
            },
        };
        let numeric = attr_numeric(a);
        match parse_raw(parse_mode, numeric, raw) {
            Some(v) => {
                self.model.set_attr(a, v);
                remove_error(&mut self.field_errors, name);
                self.state = EngineState::Editing;
                InputOutcome::Applied
            },
            None => {
                remove_error(&mut self.field_errors, name);
                let msg = label.concat(": invalid value");
                self.field_errors.push((String::from_str(name), msg));
                self.state = EngineState::Editing;
                InputOutcome::ParseFailed
            },
        }
    }

    /// Runs whole-model validation. On failure the engine turns
    /// `Invalid` and surfaces the full error set without contacting the
    /// remote side; on success it serializes the model, turns
    /// `Submitting`, and hands the payload to the round-trip adapter.
    /// While a submission is in flight a second submit is rejected, so
    /// at most one round trip is ever outstanding.
    pub fn on_submit(&mut self, ctx: &Context) -> (r: SubmitStart)
        requires
            old(self).wf(),
        ensures
            final(self).wf(),
            final(self).schema == old(self).schema,
            old(self).state is Submitting ==> r is Rejected && *final(self) == *old(self),
            !(old(self).state is Submitting) ==> final(self).model == old(self).model
                && final(self).field_errors@ == old(self).field_errors@,
            !(old(self).state is Submitting) && spec_validate(
                old(self).schema.fields@,
                old(self).model,
            ).len() > 0 ==> (r matches SubmitStart::Invalid { errors } && pairs_view(errors@)
                == spec_validate(old(self).schema.fields@, old(self).model)) && final(self).state
                is Invalid,
            !(old(self).state is Submitting) && spec_validate(
                old(self).schema.fields@,
                old(self).model,
            ).len() == 0 ==> (r matches SubmitStart::Started { payload } && pairs_view(payload@)
                == spec_encode(old(self).schema.fields@, old(self).model)) && final(self).state
                is Submitting,
    {
        match &self.state {
            EngineState::Submitting => {
                return SubmitStart::Rejected;
            },
            _ => {},
        }
        let errs = validate_model(&self.schema, &self.model, ctx);
        if errs.len() > 0 {
            self.state = EngineState::Invalid;
            SubmitStart::Invalid { errors: errs }
        } else {
            proof {
                assert(pairs_view(errs@).len() == 0);
            }
            let payload = encode_model(&self.schema, &self.model);
            self.state = EngineState::Submitting;
            SubmitStart::Started { payload }
        }
    }

    /// Applies the round trip's outcome to an in-flight submission:
    /// success turns the engine `Submitted` with the remote value, any
    /// other failure turns it `RemoteFailed` with a form-level message.
    /// An outcome arriving when no submission is in flight belongs to a
    /// discarded round trip and changes nothing.
    pub fn resolve_submit(&mut self, outcome: Result<String, String>)
        ensures
            final(self).schema == old(self).schema,
            final(self).model == old(self).model,
            final(self).field_errors@ == old(self).field_errors@,
            old(self).state is Submitting ==> match outcome {
                Ok(s) => final(self).state == EngineState::Submitted(s),
                Err(e) => final(self).state == EngineState::RemoteFailed(e),
            },
            !(old(self).state is Submitting) ==> *final(self) == *old(self),
    {
        let in_flight = match &self.state {
            EngineState::Submitting => true,
            _ => false,
        };
        if in_flight {
            match outcome {
                Ok(s) => {
                    self.state = EngineState::Submitted(s);
                },
                Err(e) => {
                    self.state = EngineState::RemoteFailed(e);
                },
            }
        }
    }

    /// Invokes a button's action on the live model: the reset action
    /// replaces the model with its default value and clears the stored
    /// errors. Buttons never run validation and never submit. Returns
    /// whether an action ran.
    pub fn on_button_action(&mut self, index: usize) -> (r: bool)
        ensures
            final(self).schema == old(self).schema,
            old(self).state is Submitting ==> r == false && *final(self) == *old(self),
            !(old(self).state is Submitting) && (index >= old(self).schema.fields@.len()
                || old(self).schema.fields@[index as int].action != Some(
                ButtonAction::ResetToDefault,
            )) ==> r == false && *final(self) == *old(self),
            !(old(self).state is Submitting) && index < old(self).schema.fields@.len() && old(
                self,
            ).schema.fields@[index as int].action == Some(ButtonAction::ResetToDefault) ==> r
                == true && is_default_model(final(self).model) && final(self).field_errors@
                == Seq::<(String, String)>::empty() && final(self).state is Editing,
    {
        match &self.state {
            EngineState::Submitting => {
                return false;
            },
            _ => {},
        }
        if index >= self.schema.fields.len() {
            return false;
        }
        let run = match &self.schema.fields[index].action {
            Some(ButtonAction::ResetToDefault) => true,
            None => false,
        };
        if !run {
            return false;
        }
        assert(self.schema.fields@[index as int].action == Some(ButtonAction::ResetToDefault));
        let d: HelloWorldFormData = Default::default();
        self.model = d;
        self.field_errors = Vec::new();
        self.state = EngineState::Editing;
        true
    }
}

} // verus!
